use vstd::prelude::*;

use crate::state::GlState;
use crate::state::Slot;

verus! {

/// One step of teardown, with the handles it acts on.
#[derive(Clone, Copy, PartialEq, Eq, Structural, Debug)]
pub enum TearStep {
    /// Set the current binding to (no surface, no surface, no context) on
    /// the display, so no dangling current binding survives destruction.
    Unbind(u64),
    /// Destroy the window surface on the display.
    DestroySurface(u64, u64),
    /// Destroy the rendering context on the display.
    DestroyContext(u64, u64),
    /// Terminate the display connection.
    Terminate(u64),
}

/// The steps owed for the surface, if one is live.
pub open spec fn surface_steps(gl: GlState, d: u64) -> Seq<TearStep> {
    match gl.surface {
        Slot::Live(s) => seq![TearStep::DestroySurface(d, s)],
        Slot::Unset => Seq::empty(),
    }
}

/// The steps owed for the context, if one is live.
pub open spec fn context_steps(gl: GlState, d: u64) -> Seq<TearStep> {
    match gl.context {
        Slot::Live(c) => seq![TearStep::DestroyContext(d, c)],
        Slot::Unset => Seq::empty(),
    }
}

/// The full teardown plan for a possibly partial triple: nothing when the
/// display was never opened; otherwise unbind, then destroy the surface if
/// live, then destroy the context if live, then terminate the display —
/// in exactly that order.
pub open spec fn teardown_plan_spec(gl: GlState) -> Seq<TearStep> {
    match gl.display {
        Slot::Unset => Seq::empty(),
        Slot::Live(d) => seq![TearStep::Unbind(d)] + surface_steps(gl, d) + context_steps(gl, d)
            + seq![TearStep::Terminate(d)],
    }
}

/// Computes the ordered teardown plan for a triple. The caller performs the
/// steps front to back, exactly once, then discards the triple.
pub fn teardown_plan(gl: &GlState) -> (r: Vec<TearStep>)
    ensures
        r@ =~= teardown_plan_spec(*gl),
{
    let mut r: Vec<TearStep> = Vec::new();
    let d: u64 = match gl.display {
        Slot::Unset => {
            return r;
        },
        Slot::Live(d) => d,
    };
    r.push(TearStep::Unbind(d));
    match gl.surface {
        Slot::Live(s) => r.push(TearStep::DestroySurface(d, s)),
        Slot::Unset => {},
    }
    match gl.context {
        Slot::Live(c) => r.push(TearStep::DestroyContext(d, c)),
        Slot::Unset => {},
    }
    r.push(TearStep::Terminate(d));
    r
}

} // verus!
