use vstd::prelude::*;

use crate::attribs::MAX_CONFIGS;
use crate::config::Api;
use crate::config::GlConfig;
use crate::config::GlError;
use crate::handle::WindowHandle;
use crate::machine::Builder;
use crate::machine::Phase;
use crate::machine::share_of;
use crate::machine::share_raw;
use crate::state::GlState;
use crate::state::Session;
use crate::state::Slot;
use crate::state::bound_binding;

verus! {

/// One driver round-trip as it was performed, with the handles it was given.
/// A run of construction is summarized by the sequence of these.
#[derive(Clone, Copy, PartialEq, Eq, Structural, Debug)]
pub enum Call {
    GetDisplay,
    Initialize(u64),
    ChooseConfig(u64),
    BindSurface(u64, u64),
    CreateContext(u64, u64, u64),
    MakeCurrent(u64, u64, u64, u64),
}

/// The driver's answers for one construction attempt: the display, whether
/// initialization succeeded, the enumerated candidates (`None` when
/// enumeration itself failed), the surface handed back for each candidate in
/// turn, the context, and whether the initial make-current succeeded.
#[derive(PartialEq, Eq, Debug)]
pub struct Script {
    pub display: Slot,
    pub init_ok: bool,
    pub configs: Option<Vec<u64>>,
    pub surfaces: Vec<Slot>,
    pub context: Slot,
    pub current_ok: bool,
}

/// What one construction attempt came to: the session or the error, how many
/// surface binds were attempted, every driver call in order, and the
/// resources live at return — owed to teardown whether or not construction
/// succeeded.
#[derive(PartialEq, Eq, Debug)]
pub struct Outcome {
    pub result: Result<Session, GlError>,
    pub binds: usize,
    pub calls: Vec<Call>,
    pub acquired: GlState,
}

/// The candidate list of a script whose enumeration succeeded.
pub open spec fn script_configs(script: Script) -> Seq<u64> {
    script.configs->0@
}

/// Enumeration succeeded and produced at least one candidate.
pub open spec fn enum_ok(script: Script) -> bool {
    script.configs is Some && script_configs(script).len() > 0
}

/// The three calls that precede any surface bind.
pub open spec fn prefix_calls(d: u64) -> Seq<Call> {
    seq![Call::GetDisplay, Call::Initialize(d), Call::ChooseConfig(d)]
}

/// The first `n` surface-bind calls, in candidate order.
pub open spec fn bind_calls(d: u64, v: Seq<u64>, n: int) -> Seq<Call> {
    Seq::new(n as nat, |i: int| Call::BindSurface(d, v[i]))
}

/// Every candidate before `k` failed to bind.
pub open spec fn all_unset_before(s: Seq<Slot>, k: int) -> bool {
    forall|i: int| 0 <= i < k ==> s[i] is Unset
}

/// Candidate `k` is the first whose surface bind succeeds.
pub open spec fn wins_at(s: Seq<Slot>, k: int) -> bool {
    0 <= k < s.len() && s[k] is Live && all_unset_before(s, k)
}

/// A triple holding only an open display.
pub open spec fn display_only(d: u64) -> GlState {
    GlState { display: Slot::Live(d), surface: Slot::Unset, context: Slot::Unset }
}

/// Copies a candidate list.
fn copy_ids(v: &Vec<u64>) -> (r: Vec<u64>)
    ensures
        r@ =~= v@,
{
    let mut r: Vec<u64> = Vec::new();
    let mut j: usize = 0;
    while j < v.len()
        invariant
            j <= v@.len(),
            r@ =~= v@.subrange(0, j as int),
        decreases v@.len() - j,
    {
        r.push(v[j]);
        proof {
            assert(v@.subrange(0, j as int + 1) =~= v@.subrange(0, j as int) + seq![v@[j as int]]);
        }
        j = j + 1;
    }
    proof {
        assert(v@.subrange(0, v@.len() as int) =~= v@);
    }
    r
}

/// Runs one whole construction attempt against a script of driver answers,
/// by driving the construction machine exactly as a live caller would. The
/// contract pins down, for every script: which error comes back and when
/// success is owed, how many surface binds were attempted and in what order,
/// every driver call made, and which resources are live at return.
pub fn negotiate(conf: &GlConfig, h: &WindowHandle, script: &Script) -> (r: Outcome)
    requires
        script.configs matches Some(v) ==> (v@.len() <= MAX_CONFIGS && script.surfaces@.len()
            == v@.len()),
    ensures
        r.result matches Ok(sess) ==> sess.gl.is_ready(),
        r.result is Ok <==> (conf.api == Api::Gles && h.is_valid() && script.display is Live
            && script.init_ok && enum_ok(*script) && (exists|k: int|
            wins_at(script.surfaces@, k)) && script.context is Live),
        conf.api == Api::Gl ==> (r.result matches Err(e) && e == GlError::ApiNotSupported
            && r.calls@ =~= Seq::<Call>::empty() && r.binds == 0 && r.acquired
            == GlState::spec_empty()),
        conf.api == Api::Gles && !h.is_valid() ==> (r.result matches Err(e) && e
            == GlError::InvalidWindowHandle && r.calls@ =~= Seq::<Call>::empty() && r.binds == 0
            && r.acquired == GlState::spec_empty()),
        conf.api == Api::Gles && h.is_valid() && script.display is Unset ==> (r.result
            matches Err(e) && e == GlError::CreationFailed && r.calls@ =~= seq![Call::GetDisplay]
            && r.binds == 0 && r.acquired == GlState::spec_empty()),
        conf.api == Api::Gles && h.is_valid() && script.display is Live && !script.init_ok ==> (
        r.result matches Err(e) && e == GlError::CreationFailed && r.calls@ =~= seq![
            Call::GetDisplay,
            Call::Initialize(script.display.id()),
        ] && r.binds == 0 && r.acquired == display_only(script.display.id())),
        conf.api == Api::Gles && h.is_valid() && script.display is Live && script.init_ok
            && script.configs is None ==> (r.result matches Err(e) && e == GlError::CreationFailed
            && r.calls@ =~= prefix_calls(script.display.id()) && r.binds == 0 && r.acquired
            == display_only(script.display.id())),
        conf.api == Api::Gles && h.is_valid() && script.display is Live && script.init_ok
            && script.configs is Some && script_configs(*script).len() == 0 ==> (r.result
            matches Err(e) && e == GlError::CreationFailed && r.calls@ =~= prefix_calls(
            script.display.id(),
        ) && r.binds == 0 && r.acquired == display_only(script.display.id())),
        conf.api == Api::Gles && h.is_valid() && script.display is Live && script.init_ok
            && enum_ok(*script) && all_unset_before(
            script.surfaces@,
            script_configs(*script).len() as int,
        ) ==> (r.result matches Err(e) && e == GlError::CreationFailed && r.binds
            == script_configs(*script).len() && r.calls@ =~= prefix_calls(script.display.id())
            + bind_calls(
            script.display.id(),
            script_configs(*script),
            script_configs(*script).len() as int,
        ) && r.acquired == display_only(script.display.id())),
        conf.api == Api::Gles && h.is_valid() && script.display is Live && script.init_ok
            && enum_ok(*script) ==> (forall|k: int|
            wins_at(script.surfaces@, k) ==> (r.binds == k + 1 && (script.context is Unset ==> (
            r.result matches Err(e) && e == GlError::CreationFailed && r.calls@ =~= prefix_calls(
                script.display.id(),
            ) + bind_calls(script.display.id(), script_configs(*script), k + 1) + seq![
                Call::CreateContext(
                    script.display.id(),
                    script_configs(*script)[k],
                    share_of(*conf),
                ),
            ] && r.acquired == (GlState {
                display: script.display,
                surface: script.surfaces@[k],
                context: Slot::Unset,
            }))) && (script.context is Live ==> (r.result matches Ok(sess) && sess.gl == (GlState {
                display: script.display,
                surface: script.surfaces@[k],
                context: script.context,
            }) && sess.current == bound_binding(sess.gl) && r.acquired == sess.gl && r.calls@
                =~= prefix_calls(script.display.id()) + bind_calls(
                script.display.id(),
                script_configs(*script),
                k + 1,
            ) + seq![
                Call::CreateContext(
                    script.display.id(),
                    script_configs(*script)[k],
                    share_of(*conf),
                ),
                Call::MakeCurrent(
                    script.display.id(),
                    script.surfaces@[k].id(),
                    script.surfaces@[k].id(),
                    script.context.id(),
                ),
            ])))),
{
    let mut calls: Vec<Call> = Vec::new();
    let mut b: Builder = match Builder::start(conf, h) {
        Err(e) => {
            return Outcome { result: Err(e), binds: 0, calls, acquired: GlState::empty() };
        },
        Ok(b) => b,
    };
    calls.push(Call::GetDisplay);
    if let Err(e) = b.on_display(script.display) {
        return Outcome { result: Err(e), binds: 0, calls, acquired: b.gl };
    }
    let d: u64 = b.gl.display.raw();
    calls.push(Call::Initialize(d));
    if let Err(e) = b.on_init(script.init_ok) {
        return Outcome { result: Err(e), binds: 0, calls, acquired: b.gl };
    }
    calls.push(Call::ChooseConfig(d));
    let cfgs: Option<Vec<u64>> = match &script.configs {
        None => None,
        Some(v) => Some(copy_ids(v)),
    };
    if let Err(e) = b.on_configs(cfgs) {
        return Outcome { result: Err(e), binds: 0, calls, acquired: b.gl };
    }
    let ghost v: Seq<u64> = b.configs@;
    let n: usize = b.configs.len();
    let mut i: usize = 0;
    let mut surface_bound: bool = false;
    while !surface_bound
        invariant
            b.wf(),
            b.conf == *conf,
            conf.api == Api::Gles,
            h.is_valid(),
            script.display is Live,
            script.init_ok,
            enum_ok(*script),
            b.gl.display == Slot::Live(d),
            d == script.display.id(),
            n == b.configs@.len(),
            b.configs@ =~= v,
            v =~= script_configs(*script),
            script.surfaces@.len() == n,
            0 < n <= MAX_CONFIGS,
            !surface_bound ==> (b.phase == Phase::WantSurface && b.next == i && i < n
                && b.gl.surface is Unset && b.gl.context is Unset && all_unset_before(
                script.surfaces@,
                i as int,
            ) && calls@ =~= prefix_calls(d) + bind_calls(d, v, i as int)),
            surface_bound ==> (b.phase == Phase::WantContext && b.next == i && i < n
                && script.surfaces@[i as int] is Live && b.gl.surface == script.surfaces@[i as int]
                && b.gl.context is Unset && all_unset_before(script.surfaces@, i as int) && calls@
                =~= prefix_calls(d) + bind_calls(d, v, i as int + 1)),
        decreases n - i + (if surface_bound { 0int } else { 1int }),
    {
        calls.push(Call::BindSurface(d, b.configs[i]));
        proof {
            assert(bind_calls(d, v, i as int) + seq![Call::BindSurface(d, v[i as int])]
                =~= bind_calls(d, v, i as int + 1));
        }
        match b.on_surface(script.surfaces[i]) {
            Ok(did_bind) => {
                if did_bind {
                    surface_bound = true;
                } else {
                    i = i + 1;
                }
            },
            Err(e) => {
                return Outcome { result: Err(e), binds: i + 1, calls, acquired: b.gl };
            },
        }
    }
    proof {
        assert(wins_at(script.surfaces@, i as int));
        assert forall|k: int| wins_at(script.surfaces@, k) implies k == i as int by {
            if k < i as int {
                assert(script.surfaces@[k] is Unset);
            }
            if k > i as int {
                assert(script.surfaces@[i as int] is Unset);
            }
        }
    }
    let cfg: u64 = b.configs[i];
    let share: u64 = share_raw(&b.conf);
    calls.push(Call::CreateContext(d, cfg, share));
    if let Err(e) = b.on_context(script.context) {
        return Outcome { result: Err(e), binds: i + 1, calls, acquired: b.gl };
    }
    let s_id: u64 = b.gl.surface.raw();
    let c_id: u64 = b.gl.context.raw();
    calls.push(Call::MakeCurrent(d, s_id, s_id, c_id));
    b.on_current(script.current_ok);
    let gl: GlState = b.gl;
    let sess: Session = b.into_session();
    Outcome { result: Ok(sess), binds: i + 1, calls, acquired: gl }
}

} // verus!
