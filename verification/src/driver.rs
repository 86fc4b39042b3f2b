//! The event dispatch loop.
//!
//! A single-threaded cooperative loop: one event at a time is applied to the
//! state machine, each handler runs to completion before the next event is
//! dispatched, and dispatch halts as soon as an exit action is issued —
//! events after a close request are never delivered.

use vstd::prelude::*;
use crate::backend::TargetOs;
use crate::events::AppEvent;
use crate::factory::{PixelConfig, StartupError};
use crate::machine::{Action, App, Phase, PlatformEnv, spec_step};

verus! {

/// What dispatching a whole event sequence yields: the final phase and the
/// actions issued, one per dispatched event, in dispatch order. Dispatch
/// stops after the first `Exit` action; a startup failure stops the run
/// with that error.
pub open spec fn spec_run(
    phase: Phase,
    events: Seq<AppEvent>,
    os: TargetOs,
    configs: Seq<PixelConfig>,
    clear_color_addr: u64,
    clear_addr: u64,
) -> Result<(Phase, Seq<Action>), StartupError>
    decreases events.len(),
{
    if events.len() == 0 {
        Ok((phase, Seq::empty()))
    } else {
        match spec_step(phase, events[0], os, configs, clear_color_addr, clear_addr) {
            Err(e) => Err(e),
            Ok(x) => {
                if x.1 == Action::Exit {
                    Ok((x.0, seq![x.1]))
                } else {
                    match spec_run(
                        x.0,
                        events.drop_first(),
                        os,
                        configs,
                        clear_color_addr,
                        clear_addr,
                    ) {
                        Err(e) => Err(e),
                        Ok(y) => Ok((y.0, seq![x.1] + y.1)),
                    }
                }
            },
        }
    }
}

/// From any phase other than `Uninitialized`, a step never fails and never
/// reaches `Uninitialized`: only activation can fail, and it is ignored
/// once the machine has left the uninitialized phase.
pub proof fn lemma_step_total_outside_uninitialized(
    phase: Phase,
    event: AppEvent,
    os: TargetOs,
    configs: Seq<PixelConfig>,
    clear_color_addr: u64,
    clear_addr: u64,
)
    requires
        !(phase is Uninitialized),
    ensures
        spec_step(phase, event, os, configs, clear_color_addr, clear_addr) matches Ok(x) && !(
        x.0 is Uninitialized),
{
}

/// From any phase other than `Uninitialized`, dispatching any event
/// sequence never fails.
pub proof fn lemma_run_total_outside_uninitialized(
    phase: Phase,
    events: Seq<AppEvent>,
    os: TargetOs,
    configs: Seq<PixelConfig>,
    clear_color_addr: u64,
    clear_addr: u64,
)
    requires
        !(phase is Uninitialized),
    ensures
        !(spec_run(phase, events, os, configs, clear_color_addr, clear_addr) is Err),
    decreases events.len(),
{
    if events.len() > 0 {
        lemma_step_total_outside_uninitialized(
            phase,
            events[0],
            os,
            configs,
            clear_color_addr,
            clear_addr,
        );
        let x = spec_step(phase, events[0], os, configs, clear_color_addr, clear_addr)->Ok_0;
        if x.1 != Action::Exit {
            lemma_run_total_outside_uninitialized(
                x.0,
                events.drop_first(),
                os,
                configs,
                clear_color_addr,
                clear_addr,
            );
        }
    }
}

/// Dispatches the events to the machine in arrival order, one at a time,
/// and returns the actions issued, one per dispatched event. Dispatch halts
/// right after the step that issues `Exit`: later events are not delivered.
/// A startup failure ends the run with that error and leaves the machine as
/// it was.
pub fn run_events(app: &mut App, env: &PlatformEnv, events: &Vec<AppEvent>) -> (r: Result<
    Vec<Action>,
    StartupError,
>)
    ensures
        match spec_run(
            old(app).phase,
            events@,
            env.os,
            env.configs@,
            env.clear_color_addr,
            env.clear_addr,
        ) {
            Ok(x) => {
                &&& r matches Ok(actions) && actions@ == x.1
                &&& final(app).phase == x.0
            },
            Err(e) => {
                &&& r == Err::<Vec<Action>, StartupError>(e)
                &&& final(app).phase == old(app).phase
            },
        },
        old(app).wf() ==> final(app).wf(),
{
    let ghost p0 = app.phase;
    let ghost full = events@;
    let mut actions: Vec<Action> = Vec::new();
    let mut i: usize = 0;
    proof {
        assert(full.subrange(0, full.len() as int) =~= full);
        let x = spec_run(p0, full, env.os, env.configs@, env.clear_color_addr, env.clear_addr);
        if x is Ok {
            assert(Seq::<Action>::empty() + x->Ok_0.1 =~= x->Ok_0.1);
        }
    }
    while i < events.len()
        invariant
            0 <= i <= events@.len(),
            events@ == full,
            old(app).wf() ==> app.wf(),
            p0 == old(app).phase,
            match spec_run(
                app.phase,
                full.subrange(i as int, full.len() as int),
                env.os,
                env.configs@,
                env.clear_color_addr,
                env.clear_addr,
            ) {
                Ok(x) => spec_run(
                    p0,
                    full,
                    env.os,
                    env.configs@,
                    env.clear_color_addr,
                    env.clear_addr,
                ) == Ok::<(Phase, Seq<Action>), StartupError>((x.0, actions@ + x.1)),
                Err(e) => {
                    &&& spec_run(
                        p0,
                        full,
                        env.os,
                        env.configs@,
                        env.clear_color_addr,
                        env.clear_addr,
                    ) == Err::<(Phase, Seq<Action>), StartupError>(e)
                    &&& app.phase == p0
                },
            },
        decreases events@.len() - i,
    {
        let ghost suffix = full.subrange(i as int, full.len() as int);
        proof {
            assert(suffix[0] == full[i as int]);
            assert(suffix.drop_first() =~= full.subrange(i as int + 1, full.len() as int));
            if !(app.phase is Uninitialized) {
                lemma_run_total_outside_uninitialized(
                    app.phase,
                    suffix,
                    env.os,
                    env.configs@,
                    env.clear_color_addr,
                    env.clear_addr,
                );
            }
        }
        let ghost phase_before = app.phase;
        let ghost acts_before = actions@;
        let event = events[i];
        let step_result = app.step(&event, env);
        match step_result {
            Err(e) => {
                return Err(e);
            },
            Ok(action) => {
                actions.push(action);
                i = i + 1;
                proof {
                    assert(actions@ =~= acts_before + seq![action]);
                    if !(app.phase is Uninitialized) {
                        lemma_run_total_outside_uninitialized(
                            app.phase,
                            suffix.drop_first(),
                            env.os,
                            env.configs@,
                            env.clear_color_addr,
                            env.clear_addr,
                        );
                    }
                }
                if matches!(action, Action::Exit) {
                    return Ok(actions);
                }
                proof {
                    let x = spec_run(
                        app.phase,
                        suffix.drop_first(),
                        env.os,
                        env.configs@,
                        env.clear_color_addr,
                        env.clear_addr,
                    );
                    if x is Ok {
                        assert((acts_before + seq![action]) + x->Ok_0.1 =~= acts_before + (seq![
                            action,
                        ] + x->Ok_0.1));
                    }
                }
            },
        }
    }
    proof {
        assert(full.subrange(i as int, full.len() as int) =~= Seq::<AppEvent>::empty());
        assert(actions@ + Seq::<Action>::empty() =~= actions@);
    }
    Ok(actions)
}

} // verus!
