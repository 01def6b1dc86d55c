use vstd::prelude::*;

use crate::state::GlState;
use crate::state::Session;
use crate::state::Slot;
use crate::state::after_make_current;
use crate::state::bound_binding;
use crate::teardown::TearStep;
use crate::teardown::teardown_plan_spec;

verus! {

/// This teardown step destroys the context with identifier `ctx`.
pub open spec fn destroys_context(step: TearStep, ctx: u64) -> bool {
    step matches TearStep::DestroyContext(_, c) && c == ctx
}

/// Law: a session that is already current on its own surface — as every
/// session is immediately after successful construction — is unchanged by a
/// further make-current.
pub proof fn lemma_assembled_already_current(s: Session)
    requires
        s.current == bound_binding(s.gl),
    ensures
        after_make_current(s) == s,
{
}

/// Law: make-current is idempotent — repeating it changes nothing beyond the
/// first request.
pub proof fn lemma_make_current_idempotent(s: Session)
    ensures
        after_make_current(after_make_current(s)) == after_make_current(s),
{
}

/// Law: for any triple whose display was opened, teardown runs
/// unbind → surface-destroy → context-destroy → display-terminate, with each
/// step at most once, unbind first and display-terminate last; the destroy
/// steps appear exactly when the matching resource is live, and only for the
/// triple's own handles. The plan depends on the triple alone, not on any
/// current/not-current call history.
pub proof fn lemma_teardown_order(gl: GlState, d: u64)
    requires
        gl.display == Slot::Live(d),
    ensures
        teardown_plan_spec(gl).len() >= 2,
        teardown_plan_spec(gl).first() == TearStep::Unbind(d),
        teardown_plan_spec(gl).last() == TearStep::Terminate(d),
        forall|i: int, j: int|
            0 <= i < teardown_plan_spec(gl).len() && 0 <= j < teardown_plan_spec(gl).len()
                && teardown_plan_spec(gl)[i] is DestroySurface && teardown_plan_spec(
                gl,
            )[j] is DestroyContext ==> i < j,
        forall|i: int, j: int|
            0 <= i < j < teardown_plan_spec(gl).len() ==> teardown_plan_spec(gl)[i]
                != teardown_plan_spec(gl)[j],
        gl.surface matches Slot::Live(s) ==> teardown_plan_spec(gl).contains(
            TearStep::DestroySurface(d, s),
        ),
        gl.surface is Unset ==> (forall|i: int|
            0 <= i < teardown_plan_spec(gl).len() ==> !(teardown_plan_spec(
                gl,
            )[i] is DestroySurface)),
        gl.context matches Slot::Live(c) ==> teardown_plan_spec(gl).contains(
            TearStep::DestroyContext(d, c),
        ),
        gl.context is Unset ==> (forall|i: int|
            0 <= i < teardown_plan_spec(gl).len() ==> !(teardown_plan_spec(
                gl,
            )[i] is DestroyContext)),
{
    let p = teardown_plan_spec(gl);
    match gl.surface {
        Slot::Live(s) => {
            match gl.context {
                Slot::Live(c) => {
                    assert(p =~= seq![
                        TearStep::Unbind(d),
                        TearStep::DestroySurface(d, s),
                        TearStep::DestroyContext(d, c),
                        TearStep::Terminate(d),
                    ]);
                    assert(p.contains(TearStep::DestroySurface(d, s)));
                    assert(p.contains(TearStep::DestroyContext(d, c)));
                },
                Slot::Unset => {
                    assert(p =~= seq![
                        TearStep::Unbind(d),
                        TearStep::DestroySurface(d, s),
                        TearStep::Terminate(d),
                    ]);
                    assert(p.contains(TearStep::DestroySurface(d, s)));
                },
            }
        },
        Slot::Unset => {
            match gl.context {
                Slot::Live(c) => {
                    assert(p =~= seq![
                        TearStep::Unbind(d),
                        TearStep::DestroyContext(d, c),
                        TearStep::Terminate(d),
                    ]);
                    assert(p.contains(TearStep::DestroyContext(d, c)));
                },
                Slot::Unset => {
                    assert(p =~= seq![TearStep::Unbind(d), TearStep::Terminate(d)]);
                },
            }
        },
    }
}

/// Law: destroying one context's triple never destroys another live context.
/// In particular, tearing down a context created with a share reference
/// leaves the shared (parent) context's own live state untouched: the
/// parent's identifier appears in no step of the child's teardown plan.
pub proof fn lemma_share_parent_untouched(child: GlState, parent_ctx: u64)
    requires
        child.context != Slot::Live(parent_ctx),
    ensures
        forall|i: int|
            0 <= i < teardown_plan_spec(child).len() ==> !destroys_context(
                teardown_plan_spec(child)[i],
                parent_ctx,
            ),
{
}

} // verus!
