use vstd::prelude::*;

verus! {

// EGL error codes, as the standard assigns them. They classify a failed
// surface bind or buffer swap for diagnostics; the classification is logged
// by the caller and never changes control flow.
pub const EGL_NOT_INITIALIZED: u32 = 0x3001;
pub const EGL_BAD_ALLOC: u32 = 0x3003;
pub const EGL_BAD_ATTRIBUTE: u32 = 0x3004;
pub const EGL_BAD_CONFIG: u32 = 0x3005;
pub const EGL_BAD_DISPLAY: u32 = 0x3008;
pub const EGL_BAD_MATCH: u32 = 0x3009;
pub const EGL_BAD_NATIVE_WINDOW: u32 = 0x300B;
pub const EGL_BAD_SURFACE: u32 = 0x300D;
pub const EGL_CONTEXT_LOST: u32 = 0x300E;

/// The classification of a failed surface bind.
#[derive(Clone, Copy, PartialEq, Eq, Structural, Debug)]
pub enum SurfaceError {
    BadDisplay,
    NotInitialized,
    BadConfig,
    BadNativeWindow,
    BadAttribute,
    BadAlloc,
    BadMatch,
    Other,
}

/// The classification of a failed buffer swap.
#[derive(Clone, Copy, PartialEq, Eq, Structural, Debug)]
pub enum SwapError {
    BadDisplay,
    NotInitialized,
    BadSurface,
    ContextLost,
    Other,
}

/// Classifies the driver error reported after a failed surface bind.
pub fn classify_surface_error(e: u32) -> (r: SurfaceError)
    ensures
        r == SurfaceError::BadDisplay <==> e == EGL_BAD_DISPLAY,
        r == SurfaceError::NotInitialized <==> e == EGL_NOT_INITIALIZED,
        r == SurfaceError::BadConfig <==> e == EGL_BAD_CONFIG,
        r == SurfaceError::BadNativeWindow <==> e == EGL_BAD_NATIVE_WINDOW,
        r == SurfaceError::BadAttribute <==> e == EGL_BAD_ATTRIBUTE,
        r == SurfaceError::BadAlloc <==> e == EGL_BAD_ALLOC,
        r == SurfaceError::BadMatch <==> e == EGL_BAD_MATCH,
{
    if e == EGL_BAD_DISPLAY {
        SurfaceError::BadDisplay
    } else if e == EGL_NOT_INITIALIZED {
        SurfaceError::NotInitialized
    } else if e == EGL_BAD_CONFIG {
        SurfaceError::BadConfig
    } else if e == EGL_BAD_NATIVE_WINDOW {
        SurfaceError::BadNativeWindow
    } else if e == EGL_BAD_ATTRIBUTE {
        SurfaceError::BadAttribute
    } else if e == EGL_BAD_ALLOC {
        SurfaceError::BadAlloc
    } else if e == EGL_BAD_MATCH {
        SurfaceError::BadMatch
    } else {
        SurfaceError::Other
    }
}

/// Classifies the driver error reported after a failed buffer swap.
pub fn classify_swap_error(e: u32) -> (r: SwapError)
    ensures
        r == SwapError::BadDisplay <==> e == EGL_BAD_DISPLAY,
        r == SwapError::NotInitialized <==> e == EGL_NOT_INITIALIZED,
        r == SwapError::BadSurface <==> e == EGL_BAD_SURFACE,
        r == SwapError::ContextLost <==> e == EGL_CONTEXT_LOST,
{
    if e == EGL_BAD_DISPLAY {
        SwapError::BadDisplay
    } else if e == EGL_NOT_INITIALIZED {
        SwapError::NotInitialized
    } else if e == EGL_BAD_SURFACE {
        SwapError::BadSurface
    } else if e == EGL_CONTEXT_LOST {
        SwapError::ContextLost
    } else {
        SwapError::Other
    }
}

/// Decides whether a symbol name may be handed to the driver's entry-point
/// query: true exactly when the name holds no embedded terminator byte.
pub fn symbol_name_ok(name: &Vec<u8>) -> (r: bool)
    ensures
        r <==> (forall|i: int| 0 <= i < name@.len() ==> name@[i] != 0),
{
    let mut j: usize = 0;
    while j < name.len()
        invariant
            j <= name@.len(),
            forall|i: int| 0 <= i < j ==> name@[i] != 0,
        decreases name@.len() - j,
    {
        if name[j] == 0 {
            return false;
        }
        j = j + 1;
    }
    true
}

} // verus!
