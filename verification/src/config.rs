use vstd::prelude::*;

verus! {

/// Which client API the caller requests. Only the GLES path is implemented;
/// requesting GL is rejected before any driver call.
#[derive(Clone, Copy, PartialEq, Eq, Structural, Debug)]
pub enum Api {
    Gl,
    Gles,
}

/// Why construction failed.
#[derive(Clone, Copy, PartialEq, Eq, Structural, Debug)]
pub enum GlError {
    /// The requested API is not the one this library implements.
    ApiNotSupported,
    /// Wrong handle variant or a null native-window reference.
    InvalidWindowHandle,
    /// Any driver-level negotiation or creation failure.
    CreationFailed,
}

/// Caller-supplied, immutable request: per-channel color depths, depth and
/// stencil buffer depths, an optional multisample count, the client API, the
/// requested context version, and an optional live context to share state
/// with, given by that context's identifier.
#[derive(Clone, Copy, Debug)]
pub struct GlConfig {
    pub red_bits: u8,
    pub green_bits: u8,
    pub blue_bits: u8,
    pub alpha_bits: u8,
    pub depth_bits: u8,
    pub stencil_bits: u8,
    pub samples: Option<u8>,
    pub api: Api,
    pub version: (u8, u8),
    pub share: Option<u64>,
}

/// Rejects a request for the unsupported API.
pub fn check_api(conf: &GlConfig) -> (r: Result<(), GlError>)
    ensures
        conf.api == Api::Gl ==> r == Err::<(), GlError>(GlError::ApiNotSupported),
        conf.api == Api::Gles ==> r == Ok::<(), GlError>(()),
{
    match conf.api {
        Api::Gl => Err(GlError::ApiNotSupported),
        Api::Gles => Ok(()),
    }
}

} // verus!
