//! How the desktop shell finds and addresses the engine server.

use vstd::prelude::*;
use crate::paths::{joined_path, path_join};

verus! {

/// The address the desktop front end talks to.
pub fn get_backend_url() -> (r: String)
    ensures
        r@ == "http://localhost:8008"@,
{
    String::from_str("http://localhost:8008")
}

/// The operating system the desktop shell was built for.
#[derive(Debug, Clone, Copy, PartialEq, Eq)]
pub enum HostOs {
    Windows,
    Linux,
    /// Any other target; the bundle convention is Apple silicon.
    Other,
}

/// The target triple in the bundled server's file name.
pub open spec fn spec_target_triple(os: HostOs) -> Seq<char> {
    match os {
        HostOs::Windows => "x86_64-pc-windows-msvc"@,
        HostOs::Linux => "x86_64-unknown-linux-gnu"@,
        HostOs::Other => "aarch64-apple-darwin"@,
    }
}

/// The target triple in the bundled server's file name.
pub fn sidecar_target_triple(os: HostOs) -> (r: &'static str)
    ensures
        r@ == spec_target_triple(os),
{
    match os {
        HostOs::Windows => "x86_64-pc-windows-msvc",
        HostOs::Linux => "x86_64-unknown-linux-gnu",
        HostOs::Other => "aarch64-apple-darwin",
    }
}

/// The server's file name in a flat install: `deep-live-cam-server{suffix}`.
pub open spec fn flat_server_name(exe_suffix: Seq<char>) -> Seq<char> {
    "deep-live-cam-server"@ + exe_suffix
}

/// The server's path under the sidecar convention:
/// `binaries/deep-live-cam-server-{triple}{suffix}`.
pub open spec fn sidecar_server_name(triple: Seq<char>, exe_suffix: Seq<char>) -> Seq<char> {
    "binaries/deep-live-cam-server-"@ + triple + exe_suffix
}

/// Where the server may lie in the resources, in the order they are tried:
/// the flat install, then the sidecar convention.
pub open spec fn spec_server_candidates(resource_dir: Seq<char>, triple: Seq<char>, exe_suffix: Seq<char>) -> Seq<Seq<char>> {
    seq![
        joined_path(resource_dir, flat_server_name(exe_suffix)),
        joined_path(resource_dir, sidecar_server_name(triple, exe_suffix)),
    ]
}

/// Where the server may lie in the resources, in the order they are tried:
/// 1. `resource_dir/deep-live-cam-server{suffix}` (flat install)
/// 2. `resource_dir/binaries/deep-live-cam-server-{triple}{suffix}` (sidecar convention)
pub fn server_exe_candidates(resource_dir: &str, triple: &str, exe_suffix: &str) -> (r: Vec<String>)
    ensures
        r@.map_values(|s: String| s@) == spec_server_candidates(resource_dir@, triple@, exe_suffix@),
{
    let mut flat = String::from_str("deep-live-cam-server");
    flat.append(exe_suffix);
    let mut sidecar = String::from_str("binaries/deep-live-cam-server-");
    sidecar.append(triple);
    sidecar.append(exe_suffix);
    let mut r: Vec<String> = Vec::new();
    r.push(path_join(resource_dir, flat.as_str()));
    r.push(path_join(resource_dir, sidecar.as_str()));
    assert(r@.map_values(|s: String| s@) =~= spec_server_candidates(resource_dir@, triple@, exe_suffix@));
    r
}

/// The server's path next to the desktop executable, in `exe_dir`.
pub fn server_exe_beside(exe_dir: &str, exe_suffix: &str) -> (r: String)
    ensures
        r@ == joined_path(exe_dir@, flat_server_name(exe_suffix@)),
{
    let mut flat = String::from_str("deep-live-cam-server");
    flat.append(exe_suffix);
    path_join(exe_dir, flat.as_str())
}

/// The first path whose file is present, if any.
pub open spec fn first_present(paths: Seq<Seq<char>>, present: Seq<bool>) -> Option<Seq<char>>
    decreases paths.len(),
{
    if paths.len() == 0 {
        None
    } else if present[0] {
        Some(paths[0])
    } else {
        first_present(paths.drop_first(), present.drop_first())
    }
}

/// The first present path is one of the paths, is present, and no path before
/// it is present; when none is present there is no such path.
pub proof fn lemma_first_present(paths: Seq<Seq<char>>, present: Seq<bool>)
    requires
        present.len() == paths.len(),
    ensures
        first_present(paths, present) is None <==> (forall|i: int| 0 <= i < paths.len() ==> !#[trigger] present[i]),
        first_present(paths, present) matches Some(p) ==> exists|k: int|
            0 <= k < paths.len() && #[trigger] present[k] && paths[k] == p
                && forall|j: int| 0 <= j < k ==> !#[trigger] present[j],
    decreases paths.len(),
{
    if paths.len() > 0 {
        if present[0] {
            assert(present[0] && paths[0] == paths[0]);
        } else {
            let rp = paths.drop_first();
            let rpr = present.drop_first();
            lemma_first_present(rp, rpr);
            if first_present(rp, rpr) is None {
                assert forall|i: int| 0 <= i < paths.len() implies !#[trigger] present[i] by {
                    if i > 0 {
                        assert(rpr[i - 1] == present[i]);
                    }
                }
            } else {
                let p = first_present(rp, rpr).unwrap();
                let k = choose|k: int|
                    0 <= k < rp.len() && #[trigger] rpr[k] && rp[k] == p
                        && forall|j: int| 0 <= j < k ==> !#[trigger] rpr[j];
                assert(present[k + 1] && paths[k + 1] == p);
                assert forall|j: int| 0 <= j < k + 1 implies !#[trigger] present[j] by {
                    if j > 0 {
                        assert(rpr[j - 1] == present[j]);
                    }
                }
                assert(rpr[k] == present[k + 1]);
            }
        }
    }
}

/// The server to start: the first present candidate; else the path beside
/// the executable when it is present; else the first candidate, so that
/// starting it reports the error.
pub open spec fn spec_resolve_server_exe(
    candidates: Seq<Seq<char>>,
    present: Seq<bool>,
    beside: Option<(Seq<char>, bool)>,
) -> Seq<char> {
    match first_present(candidates, present) {
        Some(p) => p,
        None => match beside {
            Some((p, true)) => p,
            _ => candidates[0],
        },
    }
}

/// Whenever some candidate is present, the server started is the first present
/// candidate, whatever lies beside the executable; only when none is present
/// does the path beside the executable (if present) or, last, the first
/// candidate come into play.
pub proof fn lemma_server_exe_prefers_present_candidate(
    candidates: Seq<Seq<char>>,
    present: Seq<bool>,
    beside: Option<(Seq<char>, bool)>,
)
    requires
        candidates.len() > 0,
        present.len() == candidates.len(),
    ensures
        (exists|i: int| 0 <= i < candidates.len() && #[trigger] present[i]) ==> exists|k: int|
            0 <= k < candidates.len() && #[trigger] present[k]
                && spec_resolve_server_exe(candidates, present, beside) == candidates[k]
                && forall|j: int| 0 <= j < k ==> !#[trigger] present[j],
        (forall|i: int| 0 <= i < candidates.len() ==> !#[trigger] present[i]) ==> spec_resolve_server_exe(candidates, present, beside)
            == match beside {
                Some((p, true)) => p,
                _ => candidates[0],
            },
{
    lemma_first_present(candidates, present);
    if exists|i: int| 0 <= i < candidates.len() && #[trigger] present[i] {
        let x = first_present(candidates, present).unwrap();
        let k = choose|k: int|
            0 <= k < candidates.len() && #[trigger] present[k] && candidates[k] == x
                && forall|j: int| 0 <= j < k ==> !#[trigger] present[j];
        assert(present[k] && spec_resolve_server_exe(candidates, present, beside) == candidates[k]);
    }
}

/// Pick the server to start.
///
/// `candidate_present[i]` tells whether a file exists at `candidates[i]`;
/// `beside_exe` is the path next to the desktop executable (when that
/// executable's directory is known) with whether a file exists there.
pub fn resolve_server_exe(
    candidates: &Vec<String>,
    candidate_present: &Vec<bool>,
    beside_exe: Option<(String, bool)>,
) -> (r: String)
    requires
        candidates.len() > 0,
        candidate_present.len() == candidates.len(),
    ensures
        r@ == spec_resolve_server_exe(
            candidates@.map_values(|s: String| s@),
            candidate_present@,
            match beside_exe { Some((p, b)) => Some((p@, b)), None => None },
        ),
{
    let ghost all = candidates@.map_values(|s: String| s@);
    assert(all.subrange(0, all.len() as int) =~= all);
    assert(candidate_present@.subrange(0, all.len() as int) =~= candidate_present@);
    let mut i: usize = 0;
    while i < candidates.len()
        invariant
            i <= candidates.len(),
            candidate_present.len() == candidates.len(),
            all == candidates@.map_values(|s: String| s@),
            first_present(all, candidate_present@) == first_present(
                all.subrange(i as int, all.len() as int),
                candidate_present@.subrange(i as int, all.len() as int),
            ),
        decreases candidates.len() - i,
    {
        let ghost rest = all.subrange(i as int, all.len() as int);
        let ghost rest_present = candidate_present@.subrange(i as int, all.len() as int);
        if candidate_present[i] {
            assert(rest[0] == candidates@[i as int]@);
            return candidates[i].clone();
        }
        assert(rest.drop_first() =~= all.subrange(i + 1, all.len() as int));
        assert(rest_present.drop_first() =~= candidate_present@.subrange(i + 1, all.len() as int));
        i = i + 1;
    }
    match beside_exe {
        Some((p, true)) => p,
        _ => candidates[0].clone(),
    }
}

/// Where the bundled Python server lives relative to the launcher's directory,
/// and the environment it is started with.
#[derive(Debug, Clone, PartialEq, Eq)]
pub struct SidecarLayout {
    /// `{exe_dir}/../sidecar`
    pub sidecar_dir: String,
    /// `{sidecar}/venv/Scripts/python.exe`
    pub python: String,
    /// `{sidecar}/app/server.py`
    pub server_script: String,
    /// `PYTHONHOME`: `{sidecar}/python`
    pub python_home: String,
    /// `PYTHONPATH`: `{sidecar}/app`
    pub python_path: String,
    /// `DEEP_LIVE_CAM_MODELS_DIR`: `{sidecar}/models`
    pub models_dir: String,
}

/// The sidecar directory for a launcher directory.
pub open spec fn spec_sidecar_dir(exe_dir: Seq<char>) -> Seq<char> {
    joined_path(joined_path(exe_dir, ".."@), "sidecar"@)
}

/// The sidecar layout for a launcher directory, field by field.
pub open spec fn layout_matches(l: SidecarLayout, exe_dir: Seq<char>) -> bool {
    let sidecar = spec_sidecar_dir(exe_dir);
    &&& l.sidecar_dir@ == sidecar
    &&& l.python@ == joined_path(joined_path(joined_path(sidecar, "venv"@), "Scripts"@), "python.exe"@)
    &&& l.server_script@ == joined_path(joined_path(sidecar, "app"@), "server.py"@)
    &&& l.python_home@ == joined_path(sidecar, "python"@)
    &&& l.python_path@ == joined_path(sidecar, "app"@)
    &&& l.models_dir@ == joined_path(sidecar, "models"@)
}

/// The sidecar layout for the directory that holds the launcher.
pub fn sidecar_layout(exe_dir: &str) -> (r: SidecarLayout)
    ensures
        layout_matches(r, exe_dir@),
{
    let up = path_join(exe_dir, "..");
    let sidecar = path_join(up.as_str(), "sidecar");
    let venv = path_join(sidecar.as_str(), "venv");
    let scripts = path_join(venv.as_str(), "Scripts");
    let python = path_join(scripts.as_str(), "python.exe");
    let app = path_join(sidecar.as_str(), "app");
    let server_script = path_join(app.as_str(), "server.py");
    let python_home = path_join(sidecar.as_str(), "python");
    let models_dir = path_join(sidecar.as_str(), "models");
    SidecarLayout { sidecar_dir: sidecar, python, server_script, python_home, python_path: app, models_dir }
}

/// The launcher's exit code: the server's own, or 1 when it has none (it was
/// ended by a signal) or could not be started (`None`).
pub fn launcher_exit_code(server_exit: Option<Option<i32>>) -> (r: i32)
    ensures
        r == match server_exit {
            Some(Some(c)) => c,
            _ => 1,
        },
{
    match server_exit {
        Some(Some(c)) => c,
        _ => 1,
    }
}

} // verus!
