//! The library's laws: properties of the state machine and the dispatch
//! loop, stated over the transition relation and proved for every event
//! sequence.

use vstd::prelude::*;
use crate::backend::TargetOs;
use crate::events::AppEvent;
use crate::factory::{PixelConfig, StartupError};
use crate::driver::spec_run;
use crate::machine::{Action, Phase, ReadyResources, phase_wf, spec_build_resources, spec_step};

verus! {

/// While the machine is ready, any event sequence without a close request
/// leaves it ready, with the very same resources: no event but a close
/// request moves the machine out of `Ready`, and none touches the bundle.
pub proof fn lemma_ready_stays_ready(
    res: ReadyResources,
    events: Seq<AppEvent>,
    os: TargetOs,
    configs: Seq<PixelConfig>,
    clear_color_addr: u64,
    clear_addr: u64,
)
    requires
        forall|i: int| 0 <= i < events.len() ==> events[i] != AppEvent::CloseRequested,
    ensures
        spec_run(Phase::Ready(res), events, os, configs, clear_color_addr, clear_addr) is Ok,
        spec_run(Phase::Ready(res), events, os, configs, clear_color_addr, clear_addr)->Ok_0.0
            == Phase::Ready(res),
    decreases events.len(),
{
    if events.len() > 0 {
        assert forall|i: int|
            0 <= i < events.drop_first().len() implies events.drop_first()[i]
            != AppEvent::CloseRequested by {
            assert(events.drop_first()[i] == events[i + 1]);
        }
        lemma_ready_stays_ready(
            res,
            events.drop_first(),
            os,
            configs,
            clear_color_addr,
            clear_addr,
        );
    }
}

/// When the first event is the activation and the display enumerates at
/// least one configuration, the machine reaches `Ready` on that first event
/// and remains `Ready`, with the activation's resources untouched, for every
/// following prefix free of close requests.
pub proof fn lemma_activation_first_reaches_and_keeps_ready(
    events: Seq<AppEvent>,
    os: TargetOs,
    configs: Seq<PixelConfig>,
    clear_color_addr: u64,
    clear_addr: u64,
)
    requires
        events.len() > 0,
        events[0] == AppEvent::Activated,
        configs.len() > 0,
        forall|i: int| 0 <= i < events.len() ==> events[i] != AppEvent::CloseRequested,
    ensures
        spec_build_resources(os, configs, clear_color_addr, clear_addr) is Ok,
        forall|j: int|
            1 <= j <= events.len() ==> #[trigger] spec_run(
                Phase::Uninitialized,
                events.take(j),
                os,
                configs,
                clear_color_addr,
                clear_addr,
            ) is Ok && spec_run(
                Phase::Uninitialized,
                events.take(j),
                os,
                configs,
                clear_color_addr,
                clear_addr,
            )->Ok_0.0 == Phase::Ready(
                spec_build_resources(os, configs, clear_color_addr, clear_addr)->Ok_0,
            ),
{
    let built = spec_build_resources(os, configs, clear_color_addr, clear_addr);
    assert(built is Ok);
    assert forall|j: int|
        1 <= j <= events.len() implies #[trigger] spec_run(
        Phase::Uninitialized,
        events.take(j),
        os,
        configs,
        clear_color_addr,
        clear_addr,
    ) is Ok && spec_run(
        Phase::Uninitialized,
        events.take(j),
        os,
        configs,
        clear_color_addr,
        clear_addr,
    )->Ok_0.0 == Phase::Ready(built->Ok_0) by {
        let pre = events.take(j);
        assert(pre[0] == events[0]);
        assert forall|i: int|
            0 <= i < pre.drop_first().len() implies pre.drop_first()[i]
            != AppEvent::CloseRequested by {
            assert(pre.drop_first()[i] == pre[i + 1]);
            assert(pre[i + 1] == events[i + 1]);
        }
        lemma_ready_stays_ready(
            built->Ok_0,
            pre.drop_first(),
            os,
            configs,
            clear_color_addr,
            clear_addr,
        );
    }
}

/// Window events delivered before the activation are ignored: the machine
/// performs no action, touches no resource, does not fail, and stays
/// uninitialized through the whole sequence.
pub proof fn lemma_events_before_activation_do_nothing(
    events: Seq<AppEvent>,
    os: TargetOs,
    configs: Seq<PixelConfig>,
    clear_color_addr: u64,
    clear_addr: u64,
)
    requires
        forall|i: int| 0 <= i < events.len() ==> events[i] != AppEvent::Activated,
    ensures
        spec_run(Phase::Uninitialized, events, os, configs, clear_color_addr, clear_addr) == Ok::<
            (Phase, Seq<Action>),
            StartupError,
        >((Phase::Uninitialized, Seq::new(events.len(), |i: int| Action::Nothing))),
    decreases events.len(),
{
    let nothings = Seq::new(events.len(), |i: int| Action::Nothing);
    if events.len() == 0 {
        assert(nothings =~= Seq::<Action>::empty());
    } else {
        assert forall|i: int|
            0 <= i < events.drop_first().len() implies events.drop_first()[i]
            != AppEvent::Activated by {
            assert(events.drop_first()[i] == events[i + 1]);
        }
        lemma_events_before_activation_do_nothing(
            events.drop_first(),
            os,
            configs,
            clear_color_addr,
            clear_addr,
        );
        assert(seq![Action::Nothing] + Seq::new(events.drop_first().len(), |i: int| Action::Nothing)
            =~= nothings);
    }
}

/// A stray duplicate activation while the machine is ready is safe: the
/// step is ignored and the already-allocated resources are untouched.
pub proof fn lemma_duplicate_activation_harmless(
    res: ReadyResources,
    os: TargetOs,
    configs: Seq<PixelConfig>,
    clear_color_addr: u64,
    clear_addr: u64,
)
    ensures
        spec_step(
            Phase::Ready(res),
            AppEvent::Activated,
            os,
            configs,
            clear_color_addr,
            clear_addr,
        ) == Ok::<(Phase, Action), StartupError>((Phase::Ready(res), Action::Nothing)),
{
}

/// A resize followed by a redraw request, from `Ready`, issues exactly one
/// redraw request and exactly one frame render, in that order, and does not
/// recreate the surface: the resources come out exactly as they went in.
pub proof fn lemma_resize_then_redraw_renders_once(
    res: ReadyResources,
    width: u32,
    height: u32,
    os: TargetOs,
    configs: Seq<PixelConfig>,
    clear_color_addr: u64,
    clear_addr: u64,
)
    ensures
        spec_run(
            Phase::Ready(res),
            seq![AppEvent::Resized(width, height), AppEvent::RedrawRequested],
            os,
            configs,
            clear_color_addr,
            clear_addr,
        ) == Ok::<(Phase, Seq<Action>), StartupError>(
            (Phase::Ready(res), seq![Action::RequestRedraw, Action::Render]),
        ),
{
    let evs = seq![AppEvent::Resized(width, height), AppEvent::RedrawRequested];
    let evs1 = evs.drop_first();
    assert(evs1 =~= seq![AppEvent::RedrawRequested]);
    assert(evs1.drop_first() =~= Seq::<AppEvent>::empty());
    assert(spec_run(Phase::Ready(res), evs1.drop_first(), os, configs, clear_color_addr, clear_addr)
        == Ok::<(Phase, Seq<Action>), StartupError>((Phase::Ready(res), Seq::<Action>::empty())));
    assert(seq![Action::Render] + Seq::<Action>::empty() =~= seq![Action::Render]);
    assert(spec_run(Phase::Ready(res), evs1, os, configs, clear_color_addr, clear_addr) == Ok::<
        (Phase, Seq<Action>),
        StartupError,
    >((Phase::Ready(res), seq![Action::Render])));
    assert(seq![Action::RequestRedraw] + seq![Action::Render] =~= seq![
        Action::RequestRedraw,
        Action::Render,
    ]);
}

/// One step keeps the resources well formed: activation only ever installs
/// a well-formed bundle, and no other event touches the resources.
pub proof fn lemma_step_preserves_well_formedness(
    phase: Phase,
    event: AppEvent,
    os: TargetOs,
    configs: Seq<PixelConfig>,
    clear_color_addr: u64,
    clear_addr: u64,
)
    requires
        phase_wf(phase),
        spec_step(phase, event, os, configs, clear_color_addr, clear_addr) is Ok,
    ensures
        phase_wf(spec_step(phase, event, os, configs, clear_color_addr, clear_addr)->Ok_0.0),
{
}

/// The dispatch loop keeps the resources well formed: every phase a run
/// can end in has its bundle, if present, well formed.
pub proof fn lemma_dispatch_preserves_well_formedness(
    phase: Phase,
    events: Seq<AppEvent>,
    os: TargetOs,
    configs: Seq<PixelConfig>,
    clear_color_addr: u64,
    clear_addr: u64,
)
    requires
        phase_wf(phase),
        spec_run(phase, events, os, configs, clear_color_addr, clear_addr) is Ok,
    ensures
        phase_wf(spec_run(phase, events, os, configs, clear_color_addr, clear_addr)->Ok_0.0),
    decreases events.len(),
{
    if events.len() > 0 {
        let x = spec_step(phase, events[0], os, configs, clear_color_addr, clear_addr);
        lemma_step_preserves_well_formedness(
            phase,
            events[0],
            os,
            configs,
            clear_color_addr,
            clear_addr,
        );
        if x->Ok_0.1 != Action::Exit {
            lemma_dispatch_preserves_well_formedness(
                x->Ok_0.0,
                events.drop_first(),
                os,
                configs,
                clear_color_addr,
                clear_addr,
            );
        }
    }
}

/// A close request halts dispatch: with the first close request at position
/// `i`, the loop dispatches exactly the events up to and including it — the
/// last action issued is the exit — and every later event is never
/// delivered.
pub proof fn lemma_close_halts_dispatch(
    res: ReadyResources,
    events: Seq<AppEvent>,
    i: int,
    os: TargetOs,
    configs: Seq<PixelConfig>,
    clear_color_addr: u64,
    clear_addr: u64,
)
    requires
        0 <= i < events.len(),
        events[i] == AppEvent::CloseRequested,
        forall|j: int| 0 <= j < i ==> events[j] != AppEvent::CloseRequested,
    ensures
        spec_run(Phase::Ready(res), events, os, configs, clear_color_addr, clear_addr) is Ok,
        spec_run(Phase::Ready(res), events, os, configs, clear_color_addr, clear_addr)->Ok_0.0
            == Phase::Terminating,
        spec_run(Phase::Ready(res), events, os, configs, clear_color_addr, clear_addr)->Ok_0.1.len()
            == i + 1,
        spec_run(Phase::Ready(res), events, os, configs, clear_color_addr, clear_addr)->Ok_0.1[i]
            == Action::Exit,
    decreases i,
{
    if i > 0 {
        assert(events.drop_first()[i - 1] == events[i]);
        assert forall|j: int|
            0 <= j < i - 1 implies events.drop_first()[j] != AppEvent::CloseRequested by {
            assert(events.drop_first()[j] == events[j + 1]);
        }
        lemma_close_halts_dispatch(
            res,
            events.drop_first(),
            i - 1,
            os,
            configs,
            clear_color_addr,
            clear_addr,
        );
    }
}

} // verus!
