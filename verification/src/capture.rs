//! Camera enumeration.

use vstd::prelude::*;
use crate::error::DlcError;

verus! {

/// Available camera device info.
#[derive(Debug, Clone)]
pub struct CameraInfo {
    pub index: u32,
    pub name: String,
}

/// The cameras that the enumeration reports: a single default device.
pub open spec fn reported_cameras() -> Seq<(u32, Seq<char>)> {
    seq![(0u32, "Default Camera"@)]
}

/// The model of a camera list: each entry's index and name.
pub open spec fn camera_list_view(cams: Seq<CameraInfo>) -> Seq<(u32, Seq<char>)> {
    cams.map_values(|c: CameraInfo| (c.index, c.name@))
}

/// The reported list has a camera with index 0 and none with another index.
pub proof fn lemma_only_default_camera(cams: Seq<CameraInfo>, index: u32)
    requires
        camera_list_view(cams) == reported_cameras(),
    ensures
        cams.len() == 1,
        (exists|i: int| 0 <= i < cams.len() && #[trigger] cams[i].index == index) <==> index == 0,
{
    assert(camera_list_view(cams).len() == 1);
    assert(camera_list_view(cams)[0] == (cams[0].index, cams[0].name@));
}

/// List available cameras.
///
/// Enumeration is not platform-aware yet: the list always holds one
/// default camera with index 0.
pub fn list_cameras() -> (r: Result<Vec<CameraInfo>, DlcError>)
    ensures
        r is Ok,
        r matches Ok(cams) ==> camera_list_view(cams@) == reported_cameras(),
{
    let mut cams: Vec<CameraInfo> = Vec::new();
    cams.push(CameraInfo { index: 0, name: String::from_str("Default Camera") });
    assert(camera_list_view(cams@) =~= reported_cameras());
    Ok(cams)
}

} // verus!
