//! The state of the HTTP server and what each request does to it.

use vstd::prelude::*;
use crate::capture::CameraInfo;
use crate::error::DlcError;
use crate::imaging::DecodeOutcome;

verus! {

/// Server-wide mutable state.
#[derive(Clone)]
pub struct AppState {
    pub active_camera: u32,
    pub face_enhancer_gfpgan: bool,
    pub face_enhancer_gpen256: bool,
    pub face_enhancer_gpen512: bool,
    pub frame_processors: Vec<String>,
    /// The bytes of the uploaded source image, once one was accepted.
    pub source_image_bytes: Option<Vec<u8>>,
    /// The outcome of decoding the last upload, which decided it.
    pub last_decode: Ghost<Option<DecodeOutcome>>,
}

/// The model of the server state.
pub struct StateView {
    pub active_camera: u32,
    pub face_enhancer_gfpgan: bool,
    pub face_enhancer_gpen256: bool,
    pub face_enhancer_gpen512: bool,
    pub frame_processors: Seq<Seq<char>>,
    pub source_image: Option<Seq<u8>>,
}

/// The view of a list of strings.
pub open spec fn strings_view(v: Seq<String>) -> Seq<Seq<char>> {
    v.map_values(|s: String| s@)
}

impl View for AppState {
    type V = StateView;

    open spec fn view(&self) -> StateView {
        StateView {
            active_camera: self.active_camera,
            face_enhancer_gfpgan: self.face_enhancer_gfpgan,
            face_enhancer_gpen256: self.face_enhancer_gpen256,
            face_enhancer_gpen512: self.face_enhancer_gpen512,
            frame_processors: strings_view(self.frame_processors@),
            source_image: match self.source_image_bytes {
                Some(b) => Some(b@),
                None => None,
            },
        }
    }
}

/// The state the server starts in: camera 0, every enhancer off, the face
/// swapper as the only frame processor, no source image.
pub open spec fn initial_state() -> StateView {
    StateView {
        active_camera: 0,
        face_enhancer_gfpgan: false,
        face_enhancer_gpen256: false,
        face_enhancer_gpen512: false,
        frame_processors: seq!["face_swapper"@],
        source_image: None,
    }
}

impl AppState {
    /// The outcome of decoding the last upload, if there was one.
    pub open spec fn last_decode(&self) -> Option<DecodeOutcome> {
        self.last_decode@
    }
}

/// How an upload is decided by the outcome of decoding it: the outcome is that
/// of these bytes; when they decoded, the bytes become the source image and
/// their count is the result; otherwise the upload is refused with the
/// decoder's message and the state stays as it was.
pub open spec fn upload_decided(
    d: DecodeOutcome,
    bytes: Seq<u8>,
    before: StateView,
    after: StateView,
    r: Result<usize, DlcError>,
) -> bool {
    &&& d.decoded_bytes() == bytes
    &&& d.succeeded() ==> r == Ok::<usize, DlcError>(bytes.len() as usize)
        && after == (StateView { source_image: Some(bytes), ..before })
    &&& !d.succeeded() ==> (r matches Err(DlcError::InvalidImage { message })
        && message@ == d.failure_message()) && after == before
}

/// An upload is accepted exactly when its bytes decode as an image, whatever
/// their size or content otherwise; an accepted upload yields its byte count and
/// becomes the source image, and a refused one changes nothing.
pub proof fn lemma_upload_accepted_iff_decoded(
    d: DecodeOutcome,
    bytes: Seq<u8>,
    before: StateView,
    after: StateView,
    r: Result<usize, DlcError>,
)
    requires
        upload_decided(d, bytes, before, after, r),
    ensures
        d.decoded_bytes() == bytes,
        r is Ok <==> d.succeeded(),
        r is Ok ==> r == Ok::<usize, DlcError>(bytes.len() as usize) && after.source_image == Some(bytes)
            && after.active_camera == before.active_camera,
        r is Err ==> after == before && r->Err_0 is InvalidImage,
{
}

impl Default for AppState {
    fn default() -> (r: AppState)
        ensures
            r@ == initial_state(),
    {
        let mut frame_processors: Vec<String> = Vec::new();
        frame_processors.push(String::from_str("face_swapper"));
        let r = AppState {
            active_camera: 0,
            face_enhancer_gfpgan: false,
            face_enhancer_gpen256: false,
            face_enhancer_gpen512: false,
            frame_processors,
            source_image_bytes: None,
            last_decode: Ghost(None),
        };
        assert(r@.frame_processors =~= initial_state().frame_processors);
        r
    }
}

/// A request to change the enhancer toggles; an absent field leaves its toggle as it is.
#[derive(Debug, Clone, Copy, PartialEq, Eq)]
pub struct SettingsUpdate {
    pub face_enhancer: Option<bool>,
    pub face_enhancer_gpen256: Option<bool>,
    pub face_enhancer_gpen512: Option<bool>,
}

/// The settings the server reports.
#[derive(Debug, Clone)]
pub struct SettingsView {
    pub face_enhancer: bool,
    pub face_enhancer_gpen256: bool,
    pub face_enhancer_gpen512: bool,
    pub frame_processors: Vec<String>,
}

/// A toggle after an optional new value.
pub open spec fn updated(old: bool, new: Option<bool>) -> bool {
    match new {
        Some(v) => v,
        None => old,
    }
}

/// The state after a settings update: each given toggle takes its new value,
/// everything else stays.
pub open spec fn apply_update(s: StateView, u: SettingsUpdate) -> StateView {
    StateView {
        face_enhancer_gfpgan: updated(s.face_enhancer_gfpgan, u.face_enhancer),
        face_enhancer_gpen256: updated(s.face_enhancer_gpen256, u.face_enhancer_gpen256),
        face_enhancer_gpen512: updated(s.face_enhancer_gpen512, u.face_enhancer_gpen512),
        ..s
    }
}

/// Applying the same settings update twice leaves the state as applying it once.
pub proof fn lemma_update_idempotent(s: StateView, u: SettingsUpdate)
    ensures
        apply_update(apply_update(s, u), u) == apply_update(s, u),
{
}

/// An update that names no toggle changes nothing.
pub proof fn lemma_empty_update_keeps_state(s: StateView)
    ensures
        apply_update(s, SettingsUpdate { face_enhancer: None, face_enhancer_gpen256: None, face_enhancer_gpen512: None }) == s,
{
}

/// Of two successive updates, a toggle takes the later update's value when it
/// names one, and the earlier one's otherwise; nothing but the toggles changes.
pub proof fn lemma_later_update_wins(s: StateView, u1: SettingsUpdate, u2: SettingsUpdate)
    ensures
        apply_update(apply_update(s, u1), u2).face_enhancer_gfpgan == updated(updated(s.face_enhancer_gfpgan, u1.face_enhancer), u2.face_enhancer),
        apply_update(apply_update(s, u1), u2).face_enhancer_gpen256 == updated(updated(s.face_enhancer_gpen256, u1.face_enhancer_gpen256), u2.face_enhancer_gpen256),
        apply_update(apply_update(s, u1), u2).face_enhancer_gpen512 == updated(updated(s.face_enhancer_gpen512, u1.face_enhancer_gpen512), u2.face_enhancer_gpen512),
        u2.face_enhancer is Some ==> apply_update(apply_update(s, u1), u2).face_enhancer_gfpgan == u2.face_enhancer.unwrap(),
        apply_update(apply_update(s, u1), u2).active_camera == s.active_camera,
        apply_update(apply_update(s, u1), u2).frame_processors == s.frame_processors,
        apply_update(apply_update(s, u1), u2).source_image == s.source_image,
{
}

/// Whether a camera list holds a camera with the given index.
pub open spec fn has_camera(cameras: Seq<CameraInfo>, index: u32) -> bool {
    exists|i: int| 0 <= i < cameras.len() && #[trigger] cameras[i].index == index
}

/// What the health endpoint reports.
#[derive(Debug, Clone)]
pub struct HealthReport {
    pub status: String,
    pub backend: String,
}

/// The health report: status "ok", backend "rust".
pub fn health() -> (r: HealthReport)
    ensures
        r.status@ == "ok"@,
        r.backend@ == "rust"@,
{
    HealthReport { status: String::from_str("ok"), backend: String::from_str("rust") }
}

/// Clone a list of strings.
fn clone_strings(v: &Vec<String>) -> (r: Vec<String>)
    ensures
        strings_view(r@) == strings_view(v@),
{
    let mut r: Vec<String> = Vec::new();
    let mut i: usize = 0;
    while i < v.len()
        invariant
            i <= v.len(),
            strings_view(r@) =~= strings_view(v@.subrange(0, i as int)),
        decreases v.len() - i,
    {
        r.push(v[i].clone());
        i = i + 1;
        assert(strings_view(v@.subrange(0, i as int)) =~= strings_view(v@.subrange(0, i - 1)).push(v@[i - 1]@));
    }
    assert(v@.subrange(0, v.len() as int) =~= v@);
    r
}

impl AppState {
    /// The settings the server reports: the three enhancer toggles and the frame processors.
    pub fn settings(&self) -> (r: SettingsView)
        ensures
            r.face_enhancer == self.face_enhancer_gfpgan,
            r.face_enhancer_gpen256 == self.face_enhancer_gpen256,
            r.face_enhancer_gpen512 == self.face_enhancer_gpen512,
            strings_view(r.frame_processors@) == self@.frame_processors,
    {
        SettingsView {
            face_enhancer: self.face_enhancer_gfpgan,
            face_enhancer_gpen256: self.face_enhancer_gpen256,
            face_enhancer_gpen512: self.face_enhancer_gpen512,
            frame_processors: clone_strings(&self.frame_processors),
        }
    }

    /// Apply a settings update: each toggle given in the update takes its value.
    pub fn update_settings(&mut self, update: &SettingsUpdate)
        ensures
            final(self)@ == apply_update(old(self)@, *update),
    {
        if let Some(v) = update.face_enhancer {
            self.face_enhancer_gfpgan = v;
        }
        if let Some(v) = update.face_enhancer_gpen256 {
            self.face_enhancer_gpen256 = v;
        }
        if let Some(v) = update.face_enhancer_gpen512 {
            self.face_enhancer_gpen512 = v;
        }
    }

    /// Switch to the camera with the given index, which must be among `cameras`
    /// (the enumerated ones). An unknown index is refused and changes nothing.
    pub fn set_camera(&mut self, index: u32, cameras: &Vec<CameraInfo>) -> (r: Result<u32, DlcError>)
        ensures
            has_camera(cameras@, index) ==> r == Ok::<u32, DlcError>(index)
                && final(self)@ == (StateView { active_camera: index, ..old(self)@ }),
            !has_camera(cameras@, index) ==> r == Err::<u32, DlcError>(DlcError::CameraUnavailable { index })
                && final(self)@ == old(self)@,
    {
        let mut i: usize = 0;
        while i < cameras.len()
            invariant
                i <= cameras.len(),
                *self == *old(self),
                forall|j: int| 0 <= j < i ==> #[trigger] cameras@[j].index != index,
            decreases cameras.len() - i,
        {
            if cameras[i].index == index {
                self.active_camera = index;
                return Ok(index);
            }
            i = i + 1;
        }
        Err(DlcError::CameraUnavailable { index })
    }

    /// Accept an uploaded source image: the bytes are decoded as an image, and
    /// `accept_source` decides with the outcome. Bytes that decoded are stored
    /// and their count returned; other bytes are refused and change nothing.
    pub fn upload_source(&mut self, bytes: Vec<u8>) -> (r: Result<usize, DlcError>)
        ensures
            (r == Ok::<usize, DlcError>(bytes@.len() as usize)
                && final(self)@ == (StateView { source_image: Some(bytes@), ..old(self)@ }))
            || ((r matches Err(DlcError::InvalidImage { .. })) && final(self)@ == old(self)@),
            final(self).last_decode() matches Some(d) && upload_decided(d, bytes@, old(self)@, final(self)@, r),
    {
        let decoded = DecodeOutcome::of(bytes.as_slice());
        self.accept_source(bytes, decoded)
    }

    /// Decide on an uploaded source image given the outcome of decoding those
    /// very bytes: on success the bytes are stored and their count returned; on
    /// failure the upload is refused with the decoder's message and nothing changes.
    pub fn accept_source(&mut self, bytes: Vec<u8>, decoded: DecodeOutcome) -> (r: Result<usize, DlcError>)
        requires
            decoded.decoded_bytes() == bytes@,
        ensures
            decoded.succeeded() ==> r == Ok::<usize, DlcError>(bytes@.len() as usize)
                && final(self)@ == (StateView { source_image: Some(bytes@), ..old(self)@ }),
            !decoded.succeeded() ==> (r matches Err(DlcError::InvalidImage { message })
                && message@ == decoded.failure_message())
                && final(self)@ == old(self)@,
            final(self).last_decode() == Some(decoded),
            upload_decided(decoded, bytes@, old(self)@, final(self)@, r),
    {
        let ghost d = decoded;
        self.last_decode = Ghost(Some(d));
        match decoded.into_result() {
            Ok(()) => {
                let n = bytes.len();
                self.source_image_bytes = Some(bytes);
                Ok(n)
            },
            Err(message) => Err(DlcError::InvalidImage { message }),
        }
    }
}

} // verus!
