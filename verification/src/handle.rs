use vstd::prelude::*;

use crate::config::GlError;

verus! {

/// The opaque window handle as this library models it: the platform variant
/// tag, and for the native-window variant the window pointer's address, with
/// 0 standing for a null reference.
#[derive(Clone, Copy, PartialEq, Eq, Structural, Debug)]
pub enum WindowHandle {
    AndroidNdk { a_native_window: u64 },
    Other,
}

impl WindowHandle {
    /// A handle is accepted only when it carries the expected native-window
    /// variant and its window reference is non-null.
    pub open spec fn is_valid(self) -> bool {
        self matches WindowHandle::AndroidNdk { a_native_window } && a_native_window != 0
    }

    /// The native window reference a valid handle carries.
    pub open spec fn window(self) -> u64 {
        self->a_native_window
    }
}

/// Extracts the native window reference, rejecting a wrong-variant or null
/// handle before any driver call is made.
pub fn validate_handle(h: &WindowHandle) -> (r: Result<u64, GlError>)
    ensures
        h.is_valid() ==> r == Ok::<u64, GlError>(h.window()),
        !h.is_valid() ==> r == Err::<u64, GlError>(GlError::InvalidWindowHandle),
        r matches Ok(w) ==> w != 0,
{
    match h {
        WindowHandle::AndroidNdk { a_native_window } => {
            if *a_native_window != 0 {
                Ok(*a_native_window)
            } else {
                Err(GlError::InvalidWindowHandle)
            }
        },
        WindowHandle::Other => Err(GlError::InvalidWindowHandle),
    }
}

} // verus!
