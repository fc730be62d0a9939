//! The capture device: the exact screen region being grabbed, and the choice
//! of platform grab backend that produces its raw frame sequence.

use vstd::prelude::*;

use crate::error::StreamError;

verus! {

/// One selectable screen: its enumeration index, display name, extent in
/// pixels, and the origin of its region in virtual-desktop coordinates.
/// Immutable once selected; it identifies the region to grab for the whole
/// process lifetime.
#[derive(Clone, Debug)]
pub struct CaptureDevice {
    pub index: usize,
    pub name: String,
    pub width: u32,
    pub height: u32,
    pub x: i32,
    pub y: i32,
}

/// The host platform, which decides the grab backend and the codec probe
/// lists.
#[derive(Clone, Copy, Debug, PartialEq, Eq, Structural)]
pub enum Platform {
    Windows,
    MacOs,
    Linux,
}

/// The name of the one screen-grab input backend used on each platform.
pub open spec fn spec_backend_name(p: Platform) -> Seq<char> {
    match p {
        Platform::Windows => "gdigrab"@,
        Platform::MacOs => "avfoundation"@,
        Platform::Linux => "x11grab"@,
    }
}

/// The screen-grab input backend to open on platform `p`.
pub fn grab_backend_name(p: Platform) -> (r: &'static str)
    ensures
        r@ == spec_backend_name(p),
{
    match p {
        Platform::Windows => "gdigrab",
        Platform::MacOs => "avfoundation",
        Platform::Linux => "x11grab",
    }
}

/// Pick the platform's grab backend out of the input devices the media layer
/// enumerated. Returns the index of the first matching device; when no device
/// matches, capture cannot run at all and the failure is fatal to this
/// component.
pub fn select_capture_backend(p: Platform, device_names: &Vec<String>) -> (r: Result<
    usize,
    StreamError,
>)
    ensures
        match r {
            Ok(i) => {
                &&& i < device_names@.len()
                &&& device_names@[i as int]@ == spec_backend_name(p)
                &&& forall|j: int| 0 <= j < i ==> device_names@[j]@ != spec_backend_name(p)
            },
            Err(e) => {
                &&& e == StreamError::CaptureUnavailable
                &&& forall|j: int|
                    0 <= j < device_names@.len() ==> device_names@[j]@ != spec_backend_name(p)
            },
        },
{
    let wanted = String::from_str(grab_backend_name(p));
    let n = device_names.len();
    let mut i: usize = 0;
    while i < n
        invariant
            n == device_names@.len(),
            i <= n,
            wanted@ == spec_backend_name(p),
            forall|j: int| 0 <= j < i ==> device_names@[j]@ != spec_backend_name(p),
        decreases n - i,
    {
        if device_names[i] == wanted {
            return Ok(i);
        }
        i = i + 1;
    }
    Err(StreamError::CaptureUnavailable)
}

} // verus!
