use vstd::prelude::*;

verus! {

/// One opaque driver handle: either the driver's "no handle" sentinel or a
/// live identifier.
#[derive(Clone, Copy, PartialEq, Eq, Structural, Debug)]
pub enum Slot {
    Unset,
    Live(u64),
}

impl Slot {
    /// The identifier a live slot carries.
    pub open spec fn id(self) -> u64 {
        self->0
    }

    /// The identifier to hand the driver: the live identifier, or 0 for the
    /// sentinel.
    pub fn raw(&self) -> (r: u64)
        ensures
            self matches Slot::Live(x) ==> r == x,
            self is Unset ==> r == 0,
    {
        match self {
            Slot::Live(x) => *x,
            Slot::Unset => 0,
        }
    }
}

/// The assembled triple: display connection, window-bound surface, rendering
/// context. Fully live when usable; sentinels mark what was never created or
/// was already destroyed.
#[derive(Clone, Copy, PartialEq, Eq, Structural, Debug)]
pub struct GlState {
    pub display: Slot,
    pub surface: Slot,
    pub context: Slot,
}

impl GlState {
    /// Nothing acquired yet.
    pub open spec fn spec_empty() -> GlState {
        GlState { display: Slot::Unset, surface: Slot::Unset, context: Slot::Unset }
    }

    /// All three resources are live.
    pub open spec fn is_ready(self) -> bool {
        self.display is Live && self.surface is Live && self.context is Live
    }

    pub fn empty() -> (r: GlState)
        ensures
            r == GlState::spec_empty(),
    {
        GlState { display: Slot::Unset, surface: Slot::Unset, context: Slot::Unset }
    }
}

/// What the calling thread has bound as current: the draw surface, the read
/// surface and the context. All-sentinel means nothing is bound.
#[derive(Clone, Copy, PartialEq, Eq, Structural, Debug)]
pub struct Binding {
    pub draw: Slot,
    pub read: Slot,
    pub context: Slot,
}

impl Binding {
    /// The unbound state: no surface, no surface, no context.
    pub open spec fn spec_unbound() -> Binding {
        Binding { draw: Slot::Unset, read: Slot::Unset, context: Slot::Unset }
    }

    pub fn unbound() -> (r: Binding)
        ensures
            r == Binding::spec_unbound(),
    {
        Binding { draw: Slot::Unset, read: Slot::Unset, context: Slot::Unset }
    }
}

/// An assembled context together with what this thread currently has bound.
/// `make_current` and `make_not_current` are the only state transitions; the
/// driver call they drive is advisory, so the model records the binding that
/// was requested.
#[derive(Clone, Copy, PartialEq, Eq, Structural, Debug)]
pub struct Session {
    pub gl: GlState,
    pub current: Binding,
}

/// The binding that making this triple current requests: the surface as both
/// draw and read target, and the context.
pub open spec fn bound_binding(gl: GlState) -> Binding {
    Binding { draw: gl.surface, read: gl.surface, context: gl.context }
}

/// The session after a make-current request.
pub open spec fn after_make_current(s: Session) -> Session {
    Session { gl: s.gl, current: bound_binding(s.gl) }
}

/// The session after a make-not-current request.
pub open spec fn after_make_not_current(s: Session) -> Session {
    Session { gl: s.gl, current: Binding::spec_unbound() }
}

/// The binding a make-current driver call must request for this triple.
pub fn current_args(gl: &GlState) -> (r: Binding)
    ensures
        r == bound_binding(*gl),
{
    Binding { draw: gl.surface, read: gl.surface, context: gl.context }
}

/// The binding a make-not-current driver call must request.
pub fn not_current_args() -> (r: Binding)
    ensures
        r == Binding::spec_unbound(),
{
    Binding::unbound()
}

impl Session {
    /// A freshly assembled context starts out current on its own surface.
    pub fn assembled(gl: GlState) -> (r: Session)
        ensures
            r.gl == gl,
            r.current == bound_binding(gl),
    {
        Session { gl, current: Binding { draw: gl.surface, read: gl.surface, context: gl.context } }
    }

    /// Binds the triple as current for the invoking thread; returns the
    /// binding to request from the driver.
    pub fn make_current(&mut self) -> (r: Binding)
        ensures
            *final(self) == after_make_current(*old(self)),
            r == bound_binding(old(self).gl),
    {
        let b = Binding { draw: self.gl.surface, read: self.gl.surface, context: self.gl.context };
        self.current = b;
        b
    }

    /// Unbinds: requests the all-sentinel binding from the driver.
    pub fn make_not_current(&mut self) -> (r: Binding)
        ensures
            *final(self) == after_make_not_current(*old(self)),
            r == Binding::spec_unbound(),
    {
        let b = Binding::unbound();
        self.current = b;
        b
    }
}

} // verus!
