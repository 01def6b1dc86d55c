use vstd::prelude::*;

use crate::config::GlConfig;

verus! {

// EGL attribute and bit-mask names used in the two attribute lists this
// library builds. The values are the ones the EGL standard assigns.
pub const EGL_SURFACE_TYPE: u32 = 0x3033;
pub const EGL_WINDOW_BIT: u32 = 0x0004;
pub const EGL_RENDERABLE_TYPE: u32 = 0x3040;
pub const EGL_OPENGL_ES2_BIT: u32 = 0x0004;
pub const EGL_CONFORMANT: u32 = 0x3042;
pub const EGL_RED_SIZE: u32 = 0x3024;
pub const EGL_GREEN_SIZE: u32 = 0x3023;
pub const EGL_BLUE_SIZE: u32 = 0x3022;
pub const EGL_ALPHA_SIZE: u32 = 0x3021;
pub const EGL_DEPTH_SIZE: u32 = 0x3025;
pub const EGL_STENCIL_SIZE: u32 = 0x3026;
pub const EGL_SAMPLE_BUFFERS: u32 = 0x3032;
pub const EGL_SAMPLES: u32 = 0x3031;
pub const EGL_NONE: u32 = 0x3038;
pub const EGL_CONTEXT_MAJOR_VERSION: u32 = 0x3098;
pub const EGL_CONTEXT_MINOR_VERSION: u32 = 0x30FB;

/// The cap on how many candidate configurations are requested from the
/// driver in one enumeration.
pub const MAX_CONFIGS: usize = 64;

/// Sample-buffer count requested: 1 when multisampling was asked for, else 0.
pub open spec fn sample_buffers_of(samples: Option<u8>) -> u32 {
    if samples is Some {
        1u32
    } else {
        0u32
    }
}

/// Sample count requested: the configured count, or 0 when unset.
pub open spec fn samples_of(samples: Option<u8>) -> u32 {
    match samples {
        Some(n) => n as u32,
        None => 0u32,
    }
}

/// The attribute list handed to configuration enumeration: window-drawable
/// surface, GLES-renderable and -conformant, the requested channel depths,
/// and the multisample request, closed by the end marker.
pub open spec fn choose_attribs_spec(conf: GlConfig) -> Seq<u32> {
    seq![
        EGL_SURFACE_TYPE, EGL_WINDOW_BIT,
        EGL_RENDERABLE_TYPE, EGL_OPENGL_ES2_BIT,
        EGL_CONFORMANT, EGL_OPENGL_ES2_BIT,
        EGL_RED_SIZE, conf.red_bits as u32,
        EGL_GREEN_SIZE, conf.green_bits as u32,
        EGL_BLUE_SIZE, conf.blue_bits as u32,
        EGL_ALPHA_SIZE, conf.alpha_bits as u32,
        EGL_DEPTH_SIZE, conf.depth_bits as u32,
        EGL_STENCIL_SIZE, conf.stencil_bits as u32,
        EGL_SAMPLE_BUFFERS, sample_buffers_of(conf.samples),
        EGL_SAMPLES, samples_of(conf.samples),
        EGL_NONE,
    ]
}

/// The attribute list handed to context creation: the requested major and
/// minor version, closed by the end marker.
pub open spec fn context_attribs_spec(version: (u8, u8)) -> Seq<u32> {
    seq![
        EGL_CONTEXT_MAJOR_VERSION, version.0 as u32,
        EGL_CONTEXT_MINOR_VERSION, version.1 as u32,
        EGL_NONE,
    ]
}

/// Builds the configuration-enumeration attribute list for a request.
pub fn choose_attribs(conf: &GlConfig) -> (r: Vec<u32>)
    ensures
        r@ =~= choose_attribs_spec(*conf),
{
    let sample_buffers: u32 = if conf.samples.is_some() {
        1
    } else {
        0
    };
    let sample_count: u32 = match conf.samples {
        Some(n) => n as u32,
        None => 0,
    };
    let mut r: Vec<u32> = Vec::new();
    r.push(EGL_SURFACE_TYPE);
    r.push(EGL_WINDOW_BIT);
    r.push(EGL_RENDERABLE_TYPE);
    r.push(EGL_OPENGL_ES2_BIT);
    r.push(EGL_CONFORMANT);
    r.push(EGL_OPENGL_ES2_BIT);
    r.push(EGL_RED_SIZE);
    r.push(conf.red_bits as u32);
    r.push(EGL_GREEN_SIZE);
    r.push(conf.green_bits as u32);
    r.push(EGL_BLUE_SIZE);
    r.push(conf.blue_bits as u32);
    r.push(EGL_ALPHA_SIZE);
    r.push(conf.alpha_bits as u32);
    r.push(EGL_DEPTH_SIZE);
    r.push(conf.depth_bits as u32);
    r.push(EGL_STENCIL_SIZE);
    r.push(conf.stencil_bits as u32);
    r.push(EGL_SAMPLE_BUFFERS);
    r.push(sample_buffers);
    r.push(EGL_SAMPLES);
    r.push(sample_count);
    r.push(EGL_NONE);
    r
}

/// Builds the context-creation attribute list for a requested version.
pub fn context_attribs(version: (u8, u8)) -> (r: Vec<u32>)
    ensures
        r@ =~= context_attribs_spec(version),
{
    let mut r: Vec<u32> = Vec::new();
    r.push(EGL_CONTEXT_MAJOR_VERSION);
    r.push(version.0 as u32);
    r.push(EGL_CONTEXT_MINOR_VERSION);
    r.push(version.1 as u32);
    r.push(EGL_NONE);
    r
}

} // verus!
