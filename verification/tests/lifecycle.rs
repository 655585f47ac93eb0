use maya_shell::{step, Effect, Event, Phase, Transition, EXIT_SUCCESS};

const EVENTS: [Event; 4] = [
    Event::HostReady,
    Event::HostFailed,
    Event::LoopExited,
    Event::ExitRequested,
];

fn phase_after(start: Phase, events: &[Event]) -> Phase {
    let mut phase = start;
    for event in events {
        if let Some(moved) = step(phase, *event) {
            phase = moved.next;
        }
    }
    phase
}

#[test]
fn success_status_is_zero() {
    assert_eq!(EXIT_SUCCESS, 0);
}

#[test]
fn ready_host_enters_the_loop() {
    assert_eq!(
        step(Phase::Uninitialized, Event::HostReady),
        Some(Transition {
            next: Phase::Running,
            effect: Effect::RunLoop
        })
    );
}

#[test]
fn failed_host_aborts() {
    assert_eq!(
        step(Phase::Uninitialized, Event::HostFailed),
        Some(Transition {
            next: Phase::Terminated,
            effect: Effect::Abort
        })
    );
}

#[test]
fn loop_exit_ends_with_success() {
    assert_eq!(
        step(Phase::Running, Event::LoopExited),
        Some(Transition {
            next: Phase::Terminated,
            effect: Effect::Exit { status: 0 }
        })
    );
}

#[test]
fn exit_request_ends_with_success() {
    assert_eq!(
        step(Phase::Running, Event::ExitRequested),
        Some(Transition {
            next: Phase::Terminated,
            effect: Effect::Exit { status: 0 }
        })
    );
}

#[test]
fn nothing_moves_a_terminated_shell() {
    for event in EVENTS {
        assert_eq!(step(Phase::Terminated, event), None);
    }
}

#[test]
fn no_operation_before_the_host_is_built() {
    assert_eq!(step(Phase::Uninitialized, Event::ExitRequested), None);
    assert_eq!(step(Phase::Uninitialized, Event::LoopExited), None);
}

#[test]
fn host_is_built_once() {
    assert_eq!(step(Phase::Running, Event::HostReady), None);
    assert_eq!(step(Phase::Running, Event::HostFailed), None);
}

#[test]
fn nothing_leads_back_to_the_start() {
    for phase in [Phase::Uninitialized, Phase::Running, Phase::Terminated] {
        for event in EVENTS {
            if let Some(moved) = step(phase, event) {
                assert_ne!(moved.next, Phase::Uninitialized);
                assert_ne!(moved.next, phase);
            }
        }
    }
}

#[test]
fn only_a_failed_start_aborts() {
    for phase in [Phase::Uninitialized, Phase::Running, Phase::Terminated] {
        for event in EVENTS {
            if let Some(moved) = step(phase, event) {
                let failed_start = phase == Phase::Uninitialized && event == Event::HostFailed;
                assert_eq!(moved.effect == Effect::Abort, failed_start);
            }
        }
    }
}

#[test]
fn every_exit_is_a_success() {
    for phase in [Phase::Uninitialized, Phase::Running, Phase::Terminated] {
        for event in EVENTS {
            if let Some(Transition {
                effect: Effect::Exit { status },
                ..
            }) = step(phase, event)
            {
                assert_eq!(status, EXIT_SUCCESS);
                assert_eq!(phase, Phase::Running);
            }
        }
    }
}

#[test]
fn window_closed_after_a_good_start() {
    let run = [Event::HostReady, Event::LoopExited];
    assert_eq!(phase_after(Phase::Uninitialized, &run[..1]), Phase::Running);
    assert_eq!(phase_after(Phase::Uninitialized, &run), Phase::Terminated);
}

#[test]
fn nothing_is_served_after_the_exit_request() {
    for later in EVENTS {
        for last in EVENTS {
            let run = [Event::HostReady, Event::ExitRequested, later, last];
            assert_eq!(phase_after(Phase::Uninitialized, &run), Phase::Terminated);
            assert_eq!(phase_after(Phase::Running, &run[1..]), Phase::Terminated);
        }
    }
}

#[test]
fn failed_start_never_runs() {
    for later in EVENTS {
        for last in EVENTS {
            let run = [Event::HostFailed, later, last];
            for seen in 0..=run.len() {
                assert_ne!(
                    phase_after(Phase::Uninitialized, &run[..seen]),
                    Phase::Running
                );
            }
            assert_eq!(phase_after(Phase::Uninitialized, &run), Phase::Terminated);
        }
    }
}
