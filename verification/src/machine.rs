use vstd::prelude::*;

use crate::attribs::MAX_CONFIGS;
use crate::attribs::choose_attribs;
use crate::attribs::choose_attribs_spec;
use crate::attribs::context_attribs;
use crate::attribs::context_attribs_spec;
use crate::config::Api;
use crate::config::GlConfig;
use crate::config::GlError;
use crate::config::check_api;
use crate::handle::WindowHandle;
use crate::handle::validate_handle;
use crate::state::GlState;
use crate::state::Session;
use crate::state::Slot;

verus! {

/// Which driver response construction waits for next; `Ready` and `Failed`
/// are terminal.
#[derive(Clone, Copy, PartialEq, Eq, Structural, Debug)]
pub enum Phase {
    WantDisplay,
    WantInit,
    WantConfigs,
    WantSurface,
    WantContext,
    WantCurrent,
    Ready,
    Failed,
}

/// The next driver round-trip the caller must perform, with every argument
/// it needs. The caller feeds the driver's answer back into the machine.
#[derive(PartialEq, Eq, Debug)]
pub enum Action {
    /// Obtain the default display connection.
    GetDisplay,
    /// Initialize the display connection.
    Initialize { display: u64 },
    /// Enumerate candidate configurations matching the attribute list,
    /// capped at `max_configs` results.
    ChooseConfig { display: u64, attribs: Vec<u32>, max_configs: usize },
    /// Try to bind a window surface to this candidate configuration.
    BindSurface { display: u64, config: u64, window: u64 },
    /// Create a rendering context against the configuration that bound,
    /// sharing with `share` (0 for unshared).
    CreateContext { display: u64, config: u64, share: u64, attribs: Vec<u32> },
    /// Bind the assembled triple as current for the invoking thread.
    MakeCurrent { display: u64, draw: u64, read: u64, context: u64 },
}

/// The share argument for context creation: the parent context's identifier,
/// or 0 (the driver's "no context" sentinel) when unshared.
pub open spec fn share_of(conf: GlConfig) -> u64 {
    match conf.share {
        Some(x) => x,
        None => 0u64,
    }
}

/// Computes the share argument for context creation.
pub fn share_raw(conf: &GlConfig) -> (r: u64)
    ensures
        r == share_of(*conf),
{
    match conf.share {
        Some(x) => x,
        None => 0,
    }
}

/// The construction state machine. It performs no driver call itself: the
/// caller asks `next_action`, performs the round-trip, and feeds the answer
/// to the matching `on_` step. The immutable request, the validated window
/// reference, the resources acquired so far and the retry position over the
/// candidate list are all here, so a failure at any step leaves in `gl`
/// exactly what teardown must release.
pub struct Builder {
    pub conf: GlConfig,
    pub window: u64,
    pub gl: GlState,
    pub configs: Vec<u64>,
    pub next: usize,
    pub phase: Phase,
}

impl Builder {
    /// Well-formedness: what each phase guarantees about the acquired
    /// resources and the retry position.
    pub open spec fn wf(self) -> bool {
        &&& self.conf.api == Api::Gles
        &&& self.window != 0
        &&& self.configs@.len() <= MAX_CONFIGS
        &&& match self.phase {
            Phase::WantDisplay => self.gl == GlState::spec_empty() && self.configs@.len() == 0,
            Phase::WantInit => self.gl.display is Live && self.gl.surface is Unset
                && self.gl.context is Unset && self.configs@.len() == 0,
            Phase::WantConfigs => self.gl.display is Live && self.gl.surface is Unset
                && self.gl.context is Unset && self.configs@.len() == 0,
            Phase::WantSurface => self.gl.display is Live && self.gl.surface is Unset
                && self.gl.context is Unset && self.next < self.configs@.len(),
            Phase::WantContext => self.gl.display is Live && self.gl.surface is Live
                && self.gl.context is Unset && self.next < self.configs@.len(),
            Phase::WantCurrent => self.gl.is_ready(),
            Phase::Ready => self.gl.is_ready(),
            Phase::Failed => true,
        }
    }

    /// Checks the request and the handle; no driver call is owed before both
    /// pass. Fails with `ApiNotSupported` for the GL API and with
    /// `InvalidWindowHandle` for a wrong-variant or null handle, in that
    /// order of precedence.
    pub fn start(conf: &GlConfig, h: &WindowHandle) -> (r: Result<Builder, GlError>)
        ensures
            conf.api == Api::Gl ==> (r matches Err(e) && e == GlError::ApiNotSupported),
            conf.api == Api::Gles && !h.is_valid() ==> (r matches Err(e) && e
                == GlError::InvalidWindowHandle),
            conf.api == Api::Gles && h.is_valid() ==> (r matches Ok(b) && b.wf() && b.conf == *conf
                && b.window == h.window() && b.phase == Phase::WantDisplay && b.gl
                == GlState::spec_empty()),
    {
        check_api(conf)?;
        let window = validate_handle(h)?;
        Ok(
            Builder {
                conf: *conf,
                window,
                gl: GlState::empty(),
                configs: Vec::new(),
                next: 0,
                phase: Phase::WantDisplay,
            },
        )
    }

    /// The driver round-trip owed in the current phase; `None` once the
    /// machine is terminal.
    pub fn next_action(&self) -> (r: Option<Action>)
        requires
            self.wf(),
        ensures
            self.phase == Phase::WantDisplay ==> (r matches Some(a) && a is GetDisplay),
            self.phase == Phase::WantInit ==> (r matches Some(a) && a matches Action::Initialize {
                display,
            } && display == self.gl.display.id()),
            self.phase == Phase::WantConfigs ==> (r matches Some(a) && a
                matches Action::ChooseConfig { display, attribs, max_configs } && display
                == self.gl.display.id() && attribs@ =~= choose_attribs_spec(self.conf)
                && max_configs == MAX_CONFIGS),
            self.phase == Phase::WantSurface ==> (r matches Some(a) && a
                matches Action::BindSurface { display, config, window } && display
                == self.gl.display.id() && config == self.configs@[self.next as int] && window
                == self.window),
            self.phase == Phase::WantContext ==> (r matches Some(a) && a
                matches Action::CreateContext { display, config, share, attribs } && display
                == self.gl.display.id() && config == self.configs@[self.next as int] && share
                == share_of(self.conf) && attribs@ =~= context_attribs_spec(self.conf.version)),
            self.phase == Phase::WantCurrent ==> (r matches Some(a) && a
                matches Action::MakeCurrent { display, draw, read, context } && display
                == self.gl.display.id() && draw == self.gl.surface.id() && read
                == self.gl.surface.id() && context == self.gl.context.id()),
            self.phase == Phase::Ready ==> r is None,
            self.phase == Phase::Failed ==> r is None,
    {
        match self.phase {
            Phase::WantDisplay => Some(Action::GetDisplay),
            Phase::WantInit => Some(Action::Initialize { display: self.gl.display.raw() }),
            Phase::WantConfigs => Some(
                Action::ChooseConfig {
                    display: self.gl.display.raw(),
                    attribs: choose_attribs(&self.conf),
                    max_configs: MAX_CONFIGS,
                },
            ),
            Phase::WantSurface => Some(
                Action::BindSurface {
                    display: self.gl.display.raw(),
                    config: self.configs[self.next],
                    window: self.window,
                },
            ),
            Phase::WantContext => Some(
                Action::CreateContext {
                    display: self.gl.display.raw(),
                    config: self.configs[self.next],
                    share: share_raw(&self.conf),
                    attribs: context_attribs(self.conf.version),
                },
            ),
            Phase::WantCurrent => Some(
                Action::MakeCurrent {
                    display: self.gl.display.raw(),
                    draw: self.gl.surface.raw(),
                    read: self.gl.surface.raw(),
                    context: self.gl.context.raw(),
                },
            ),
            Phase::Ready => None,
            Phase::Failed => None,
        }
    }

    /// Feeds the display the driver handed back. The sentinel fails
    /// construction; nothing was acquired.
    pub fn on_display(&mut self, d: Slot) -> (r: Result<(), GlError>)
        requires
            old(self).wf(),
            old(self).phase == Phase::WantDisplay,
        ensures
            final(self).wf(),
            final(self).conf == old(self).conf,
            final(self).window == old(self).window,
            final(self).configs@ =~= old(self).configs@,
            d is Unset ==> (r matches Err(e) && e == GlError::CreationFailed && final(self).phase
                == Phase::Failed && final(self).gl == old(self).gl),
            d is Live ==> (r matches Ok(u) && u == () && final(self).phase == Phase::WantInit
                && final(self).gl == (GlState {
                display: d,
                surface: Slot::Unset,
                context: Slot::Unset,
            })),
    {
        match d {
            Slot::Unset => {
                self.phase = Phase::Failed;
                Err(GlError::CreationFailed)
            },
            Slot::Live(x) => {
                self.gl.display = Slot::Live(x);
                self.phase = Phase::WantInit;
                Ok(())
            },
        }
    }

    /// Feeds the result of initializing the display. Failure is fatal; the
    /// open display stays in `gl` so teardown can terminate it.
    pub fn on_init(&mut self, ok: bool) -> (r: Result<(), GlError>)
        requires
            old(self).wf(),
            old(self).phase == Phase::WantInit,
        ensures
            final(self).wf(),
            final(self).conf == old(self).conf,
            final(self).window == old(self).window,
            final(self).configs@ =~= old(self).configs@,
            final(self).gl == old(self).gl,
            !ok ==> (r matches Err(e) && e == GlError::CreationFailed && final(self).phase
                == Phase::Failed),
            ok ==> (r matches Ok(u) && u == () && final(self).phase == Phase::WantConfigs),
    {
        if ok {
            self.phase = Phase::WantConfigs;
            Ok(())
        } else {
            self.phase = Phase::Failed;
            Err(GlError::CreationFailed)
        }
    }

    /// Feeds the candidate configurations the driver enumerated, `None` when
    /// enumeration itself failed. An empty list is fatal; a non-empty list
    /// starts the retry loop at its first entry. The driver's ordering is
    /// kept: it decides the retry order.
    pub fn on_configs(&mut self, cfgs: Option<Vec<u64>>) -> (r: Result<(), GlError>)
        requires
            old(self).wf(),
            old(self).phase == Phase::WantConfigs,
            cfgs matches Some(v) ==> v@.len() <= MAX_CONFIGS,
        ensures
            final(self).wf(),
            final(self).conf == old(self).conf,
            final(self).window == old(self).window,
            final(self).gl == old(self).gl,
            cfgs is None ==> (r matches Err(e) && e == GlError::CreationFailed
                && final(self).phase == Phase::Failed),
            cfgs matches Some(v) ==> (v@.len() == 0 ==> (r matches Err(e) && e
                == GlError::CreationFailed && final(self).phase == Phase::Failed)),
            cfgs matches Some(v) ==> (v@.len() > 0 ==> (r matches Ok(u) && u == ()
                && final(self).phase == Phase::WantSurface && final(self).configs@ =~= v@
                && final(self).next == 0)),
    {
        match cfgs {
            None => {
                self.phase = Phase::Failed;
                Err(GlError::CreationFailed)
            },
            Some(v) => {
                if v.len() == 0 {
                    self.phase = Phase::Failed;
                    Err(GlError::CreationFailed)
                } else {
                    self.configs = v;
                    self.next = 0;
                    self.phase = Phase::WantSurface;
                    Ok(())
                }
            },
        }
    }

    /// Feeds the surface the driver handed back for the current candidate.
    /// A live surface wins: that candidate's configuration is kept for
    /// context creation. The sentinel moves on to the next candidate —
    /// `Ok(false)` — or, when the list is exhausted, fails construction.
    pub fn on_surface(&mut self, s: Slot) -> (r: Result<bool, GlError>)
        requires
            old(self).wf(),
            old(self).phase == Phase::WantSurface,
        ensures
            final(self).wf(),
            final(self).conf == old(self).conf,
            final(self).window == old(self).window,
            final(self).configs@ =~= old(self).configs@,
            s is Live ==> (r matches Ok(b) && b && final(self).phase == Phase::WantContext
                && final(self).next == old(self).next && final(self).gl == (GlState {
                display: old(self).gl.display,
                surface: s,
                context: Slot::Unset,
            })),
            s is Unset && old(self).next + 1 < old(self).configs@.len() ==> (r matches Ok(b) && !b
                && final(self).phase == Phase::WantSurface && final(self).next == old(self).next
                + 1 && final(self).gl == old(self).gl),
            s is Unset && old(self).next + 1 >= old(self).configs@.len() ==> (r matches Err(e)
                && e == GlError::CreationFailed && final(self).phase == Phase::Failed
                && final(self).gl == old(self).gl),
    {
        match s {
            Slot::Live(x) => {
                self.gl.surface = Slot::Live(x);
                self.phase = Phase::WantContext;
                Ok(true)
            },
            Slot::Unset => {
                if self.next + 1 < self.configs.len() {
                    self.next = self.next + 1;
                    Ok(false)
                } else {
                    self.phase = Phase::Failed;
                    Err(GlError::CreationFailed)
                }
            },
        }
    }

    /// Feeds the context the driver handed back. The sentinel is fatal; the
    /// live display and surface stay in `gl` for teardown.
    pub fn on_context(&mut self, c: Slot) -> (r: Result<(), GlError>)
        requires
            old(self).wf(),
            old(self).phase == Phase::WantContext,
        ensures
            final(self).wf(),
            final(self).conf == old(self).conf,
            final(self).window == old(self).window,
            final(self).configs@ =~= old(self).configs@,
            final(self).next == old(self).next,
            c is Unset ==> (r matches Err(e) && e == GlError::CreationFailed && final(self).phase
                == Phase::Failed && final(self).gl == old(self).gl),
            c is Live ==> (r matches Ok(u) && u == () && final(self).phase == Phase::WantCurrent
                && final(self).gl == (GlState {
                display: old(self).gl.display,
                surface: old(self).gl.surface,
                context: c,
            })),
    {
        match c {
            Slot::Unset => {
                self.phase = Phase::Failed;
                Err(GlError::CreationFailed)
            },
            Slot::Live(x) => {
                self.gl.context = Slot::Live(x);
                self.phase = Phase::WantCurrent;
                Ok(())
            },
        }
    }

    /// Feeds the result of the initial make-current. The operation is
    /// advisory: construction completes whatever the driver answered, and a
    /// failure is only logged by the caller.
    pub fn on_current(&mut self, ok: bool)
        requires
            old(self).wf(),
            old(self).phase == Phase::WantCurrent,
        ensures
            final(self).wf(),
            final(self).conf == old(self).conf,
            final(self).window == old(self).window,
            final(self).configs@ =~= old(self).configs@,
            final(self).gl == old(self).gl,
            final(self).phase == Phase::Ready,
    {
        let _ = ok;
        self.phase = Phase::Ready;
    }

    /// Hands the assembled triple out as a session that is already current
    /// on its own surface.
    pub fn into_session(self) -> (r: Session)
        requires
            self.wf(),
            self.phase == Phase::Ready,
        ensures
            r.gl == self.gl,
            r.current == crate::state::bound_binding(self.gl),
            r.gl.is_ready(),
    {
        Session::assembled(self.gl)
    }
}

} // verus!
