use glctx::Api;
use glctx::GlConfig;
use glctx::GlError;
use glctx::SurfaceError;
use glctx::SwapError;
use glctx::WindowHandle;
use glctx::check_api;
use glctx::choose_attribs;
use glctx::classify_surface_error;
use glctx::classify_swap_error;
use glctx::context_attribs;
use glctx::symbol_name_ok;
use glctx::validate_handle;

fn conf_with(samples: Option<u8>) -> GlConfig {
    GlConfig {
        red_bits: 8,
        green_bits: 8,
        blue_bits: 8,
        alpha_bits: 8,
        depth_bits: 24,
        stencil_bits: 8,
        samples,
        api: Api::Gles,
        version: (2, 0),
        share: None,
    }
}

#[test]
fn gl_request_is_not_supported() {
    let mut conf = conf_with(None);
    conf.api = Api::Gl;
    assert_eq!(check_api(&conf), Err(GlError::ApiNotSupported));
    assert_eq!(check_api(&conf_with(None)), Ok(()));
}

#[test]
fn choose_attribs_encodes_the_request_exactly() {
    let attribs = choose_attribs(&conf_with(Some(4)));
    assert_eq!(
        attribs,
        vec![
            0x3033, 0x0004, // window-drawable surface
            0x3040, 0x0004, // GLES-renderable
            0x3042, 0x0004, // GLES-conformant
            0x3024, 8, // red
            0x3023, 8, // green
            0x3022, 8, // blue
            0x3021, 8, // alpha
            0x3025, 24, // depth
            0x3026, 8, // stencil
            0x3032, 1, // one sample buffer
            0x3031, 4, // four samples
            0x3038, // end marker
        ]
    );
}

#[test]
fn choose_attribs_without_multisampling_requests_zero_sample_buffers() {
    let attribs = choose_attribs(&conf_with(None));
    assert_eq!(attribs[18..23], [0x3032, 0, 0x3031, 0, 0x3038]);
}

#[test]
fn context_attribs_encode_the_requested_version() {
    assert_eq!(context_attribs((2, 0)), vec![0x3098, 2, 0x30FB, 0, 0x3038]);
    assert_eq!(context_attribs((3, 1)), vec![0x3098, 3, 0x30FB, 1, 0x3038]);
}

#[test]
fn handle_validation_accepts_only_a_non_null_native_window() {
    assert_eq!(validate_handle(&WindowHandle::AndroidNdk { a_native_window: 0x42 }), Ok(0x42));
    assert_eq!(
        validate_handle(&WindowHandle::AndroidNdk { a_native_window: 0 }),
        Err(GlError::InvalidWindowHandle)
    );
    assert_eq!(validate_handle(&WindowHandle::Other), Err(GlError::InvalidWindowHandle));
}

#[test]
fn surface_errors_classify_each_known_code() {
    assert_eq!(classify_surface_error(0x3008), SurfaceError::BadDisplay);
    assert_eq!(classify_surface_error(0x3001), SurfaceError::NotInitialized);
    assert_eq!(classify_surface_error(0x3005), SurfaceError::BadConfig);
    assert_eq!(classify_surface_error(0x300B), SurfaceError::BadNativeWindow);
    assert_eq!(classify_surface_error(0x3004), SurfaceError::BadAttribute);
    assert_eq!(classify_surface_error(0x3003), SurfaceError::BadAlloc);
    assert_eq!(classify_surface_error(0x3009), SurfaceError::BadMatch);
    assert_eq!(classify_surface_error(0x9999), SurfaceError::Other);
}

#[test]
fn swap_errors_classify_each_known_code() {
    assert_eq!(classify_swap_error(0x3008), SwapError::BadDisplay);
    assert_eq!(classify_swap_error(0x3001), SwapError::NotInitialized);
    assert_eq!(classify_swap_error(0x300D), SwapError::BadSurface);
    assert_eq!(classify_swap_error(0x300E), SwapError::ContextLost);
    assert_eq!(classify_swap_error(0x9999), SwapError::Other);
}

#[test]
fn symbol_names_with_embedded_terminators_are_rejected() {
    assert!(symbol_name_ok(&b"glClear".to_vec()));
    assert!(symbol_name_ok(&Vec::new()));
    assert!(!symbol_name_ok(&b"gl\0Clear".to_vec()));
    assert!(!symbol_name_ok(&vec![0]));
}
