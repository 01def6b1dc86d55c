use glctx::Action;
use glctx::Api;
use glctx::Binding;
use glctx::Builder;
use glctx::GlConfig;
use glctx::GlState;
use glctx::MAX_CONFIGS;
use glctx::Slot;
use glctx::TearStep;
use glctx::WindowHandle;
use glctx::teardown_plan;

fn gles_conf() -> GlConfig {
    GlConfig {
        red_bits: 8,
        green_bits: 8,
        blue_bits: 8,
        alpha_bits: 0,
        depth_bits: 16,
        stencil_bits: 0,
        samples: Some(4),
        api: Api::Gles,
        version: (2, 0),
        share: None,
    }
}

#[test]
fn make_current_again_is_a_no_op_on_a_fresh_session() {
    let gl = GlState { display: Slot::Live(1), surface: Slot::Live(7), context: Slot::Live(9) };
    let mut sess = glctx::Session { gl, current: Binding { draw: Slot::Live(7), read: Slot::Live(7), context: Slot::Live(9) } };
    let before = sess;
    let b = sess.make_current();
    assert_eq!(sess, before);
    assert_eq!(b, Binding { draw: Slot::Live(7), read: Slot::Live(7), context: Slot::Live(9) });
}

#[test]
fn make_not_current_requests_the_all_sentinel_binding() {
    let gl = GlState { display: Slot::Live(1), surface: Slot::Live(7), context: Slot::Live(9) };
    let mut sess = glctx::Session { gl, current: Binding { draw: Slot::Live(7), read: Slot::Live(7), context: Slot::Live(9) } };
    let b = sess.make_not_current();
    assert_eq!(b, Binding { draw: Slot::Unset, read: Slot::Unset, context: Slot::Unset });
    assert_eq!(sess.current, b);
    assert_eq!(sess.gl, gl);
}

#[test]
fn teardown_of_a_full_triple_runs_all_four_steps_in_order() {
    let gl = GlState { display: Slot::Live(1), surface: Slot::Live(7), context: Slot::Live(9) };
    let plan = teardown_plan(&gl);
    assert_eq!(
        plan,
        vec![
            TearStep::Unbind(1),
            TearStep::DestroySurface(1, 7),
            TearStep::DestroyContext(1, 9),
            TearStep::Terminate(1),
        ]
    );
}

#[test]
fn teardown_skips_resources_that_were_never_created() {
    let display_only =
        GlState { display: Slot::Live(1), surface: Slot::Unset, context: Slot::Unset };
    assert_eq!(teardown_plan(&display_only), vec![TearStep::Unbind(1), TearStep::Terminate(1)]);
    let with_surface =
        GlState { display: Slot::Live(1), surface: Slot::Live(7), context: Slot::Unset };
    assert_eq!(
        teardown_plan(&with_surface),
        vec![TearStep::Unbind(1), TearStep::DestroySurface(1, 7), TearStep::Terminate(1)]
    );
}

#[test]
fn teardown_of_an_unopened_display_does_nothing() {
    let gl = GlState { display: Slot::Unset, surface: Slot::Unset, context: Slot::Unset };
    assert_eq!(teardown_plan(&gl), Vec::<TearStep>::new());
}

#[test]
fn tearing_down_a_sharing_child_never_touches_the_parent_context() {
    let parent_ctx: u64 = 77;
    let child = GlState { display: Slot::Live(1), surface: Slot::Live(7), context: Slot::Live(9) };
    for step in teardown_plan(&child) {
        if let TearStep::DestroyContext(_, c) = step {
            assert_ne!(c, parent_ctx);
        }
    }
}

#[test]
fn builder_walk_reaches_a_ready_session_through_the_expected_actions() {
    let h = WindowHandle::AndroidNdk { a_native_window: 0x1000 };
    let mut b = Builder::start(&gles_conf(), &h).unwrap();

    assert_eq!(b.next_action(), Some(Action::GetDisplay));
    b.on_display(Slot::Live(1)).unwrap();

    assert_eq!(b.next_action(), Some(Action::Initialize { display: 1 }));
    b.on_init(true).unwrap();

    match b.next_action() {
        Some(Action::ChooseConfig { display, attribs, max_configs }) => {
            assert_eq!(display, 1);
            assert_eq!(max_configs, MAX_CONFIGS);
            assert_eq!(attribs, glctx::choose_attribs(&gles_conf()));
        }
        other => panic!("unexpected action {:?}", other),
    }
    b.on_configs(Some(vec![10, 20])).unwrap();

    assert_eq!(b.next_action(), Some(Action::BindSurface { display: 1, config: 10, window: 0x1000 }));
    assert_eq!(b.on_surface(Slot::Unset).unwrap(), false);

    assert_eq!(b.next_action(), Some(Action::BindSurface { display: 1, config: 20, window: 0x1000 }));
    assert_eq!(b.on_surface(Slot::Live(7)).unwrap(), true);

    match b.next_action() {
        Some(Action::CreateContext { display, config, share, attribs }) => {
            assert_eq!(display, 1);
            assert_eq!(config, 20);
            assert_eq!(share, 0);
            assert_eq!(attribs, glctx::context_attribs((2, 0)));
        }
        other => panic!("unexpected action {:?}", other),
    }
    b.on_context(Slot::Live(9)).unwrap();

    assert_eq!(
        b.next_action(),
        Some(Action::MakeCurrent { display: 1, draw: 7, read: 7, context: 9 })
    );
    b.on_current(true);
    assert_eq!(b.next_action(), None);

    let sess = b.into_session();
    assert_eq!(
        sess.gl,
        GlState { display: Slot::Live(1), surface: Slot::Live(7), context: Slot::Live(9) }
    );
    assert_eq!(
        sess.current,
        Binding { draw: Slot::Live(7), read: Slot::Live(7), context: Slot::Live(9) }
    );
}
