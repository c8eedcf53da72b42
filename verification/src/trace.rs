//! Whole runs: what holds of every sequence of events that a launcher can be
//! handed, from `Start` on.

use vstd::prelude::*;
use crate::error::{
    failure_message, report_lines, FailureView, LaunchErrorView, PathErrorView,
};
use crate::launcher::{
    bare, exit_status, is_terminal, logger_failure, next_state, pending_action, record_for,
    wrapped, StateView,
};
use crate::locator::{candidate_for, script_file_name};
use crate::model::{ActionView, EventView, ExecutionResultView, LogRecordView};
use crate::paths::{path_debug, path_join, path_parent};
use crate::privilege::{elevation_granted, PrivilegeError};

verus! {

/// The state of a run after the first `n` of its events.
pub open spec fn state_after(config: Option<Seq<char>>, events: Seq<EventView>, n: nat)
    -> StateView
    recommends
        n <= events.len(),
    decreases n,
{
    if n == 0 {
        StateView::Start
    } else {
        next_state(config, state_after(config, events, (n - 1) as nat), events[n - 1])
    }
}

/// The state in which a run ends up.
pub open spec fn outcome(config: Option<Seq<char>>, events: Seq<EventView>) -> StateView {
    state_after(config, events, events.len())
}

/// How far a run has come: the number of steps behind a state that has not
/// failed.
pub open spec fn stage(state: StateView) -> nat {
    match state {
        StateView::Start => 0,
        StateView::LoggingReady => 1,
        StateView::PrivilegeElevated { candidate: None } => 2,
        StateView::PrivilegeElevated { candidate: Some(_) } => 3,
        StateView::ScriptLocated { .. } => 4,
        StateView::ScriptExecuted => 5,
        StateView::Done => 6,
        StateView::Failed { .. } => 0,
    }
}

/// Whether a state has not failed and stands at stage `k`.
pub open spec fn at_stage(state: StateView, k: nat) -> bool {
    !(state is Failed) && stage(state) == k
}

/// Whether the run stood at stage `k` before its `n`th event was taken in.
pub open spec fn visited_before(
    config: Option<Seq<char>>,
    events: Seq<EventView>,
    n: nat,
    k: nat,
) -> bool {
    exists|i: nat| i < n && at_stage(#[trigger] state_after(config, events, i), k)
}

/// One event moves a run by at most one stage, never back, or fails it; and
/// the stage says which action is pending.
pub proof fn step_is_linear(config: Option<Seq<char>>, state: StateView, event: EventView)
    ensures
        ({
            let next = next_state(config, state, event);
            ||| next == state
            ||| next is Failed
            ||| (!(state is Failed) && stage(next) == stage(state) + 1)
        }),
        at_stage(state, 0) <==> pending_action(config, state) is InitLogger,
        at_stage(state, 1) <==> pending_action(config, state) is Elevate,
        at_stage(state, 2) <==> pending_action(config, state) is QuerySelfPath,
        at_stage(state, 3) <==> pending_action(config, state) is ProbeScript,
        at_stage(state, 4) <==> pending_action(config, state) is Spawn,
        at_stage(state, 5) <==> pending_action(config, state) is Conclude,
        (at_stage(state, 6) || state is Failed) <==> pending_action(config, state) is Exit,
{
}

/// A run that is over stays as it is: no later event changes a state that is
/// `Done` or `Failed`, so no action but the exit is asked for again.
pub proof fn finished_run_stays(
    config: Option<Seq<char>>,
    events: Seq<EventView>,
    m: nat,
    n: nat,
)
    requires
        m <= n <= events.len(),
        is_terminal(state_after(config, events, m)),
    ensures
        state_after(config, events, n) == state_after(config, events, m),
        pending_action(config, state_after(config, events, n)) is Exit,
    decreases n,
{
    if n > m {
        finished_run_stays(config, events, m, (n - 1) as nat);
    }
}

/// The steps of a run come in their order: a run that stands at some stage
/// without having failed stood at every earlier stage before. So the logger
/// is set up before the identity is changed, the identity is changed before
/// the script is looked for, and the script is found before it is run.
pub proof fn earlier_stages_come_first(
    config: Option<Seq<char>>,
    events: Seq<EventView>,
    n: nat,
    k: nat,
)
    requires
        n <= events.len(),
        !(state_after(config, events, n) is Failed),
        k < stage(state_after(config, events, n)),
    ensures
        visited_before(config, events, n, k),
    decreases n,
{
    if n > 0 {
        let before = state_after(config, events, (n - 1) as nat);
        step_is_linear(config, before, events[n - 1]);
        if at_stage(before, k) {
            assert(visited_before(config, events, n, k));
        } else {
            earlier_stages_come_first(config, events, (n - 1) as nat, k);
            let i = choose|i: nat|
                i < (n - 1) as nat && at_stage(#[trigger] state_after(config, events, i), k);
            assert(i < n && at_stage(state_after(config, events, i), k));
        }
    }
}

/// A logger that cannot be set up ends the run before anything else is
/// tried: the run fails with the logger's error, exits with 1, and at no
/// point asks for the identity change.
pub proof fn failed_logger_ends_run(
    config: Option<Seq<char>>,
    events: Seq<EventView>,
    causes: Seq<Seq<char>>,
    n: nat,
)
    requires
        1 <= n <= events.len(),
        events[0] == (EventView::LoggerInitialized { outcome: Err(causes) }),
    ensures
        state_after(config, events, n) == wrapped(logger_failure(config), causes),
        exit_status(state_after(config, events, n)) == Some(1i32),
        forall|i: nat| i <= n ==> !(#[trigger] pending_action(
            config,
            state_after(config, events, i),
        ) is Elevate),
{
    assert(state_after(config, events, 0) == StateView::Start);
    assert(state_after(config, events, 1) == wrapped(logger_failure(config), causes));
    assert forall|i: nat| i <= n implies !(#[trigger] pending_action(
        config,
        state_after(config, events, i),
    ) is Elevate) by {
        if i >= 1 {
            finished_run_stays(config, events, 1, i);
        }
    }
    finished_run_stays(config, events, 1, n);
}

/// A refused identity change ends the run: it fails with "Need to be root",
/// exits with 1, and from then on asks for nothing but the exit, so that
/// neither the file system is touched nor a child started.
pub proof fn refused_elevation_ends_run(
    config: Option<Seq<char>>,
    events: Seq<EventView>,
    status: i32,
    n: nat,
)
    requires
        2 <= n <= events.len(),
        events[0] == (EventView::LoggerInitialized { outcome: Ok(()) }),
        events[1] == (EventView::ElevationAttempted { status }),
        !elevation_granted(status),
    ensures
        state_after(config, events, n) == bare(FailureView::Privilege(PrivilegeError)),
        exit_status(state_after(config, events, n)) == Some(1i32),
        pending_action(config, state_after(config, events, n)) == (ActionView::Exit { code: 1 }),
        failure_message(FailureView::Privilege(PrivilegeError)) == "Need to be root"@,
        record_for(config, state_after(config, events, 1), events[1]) == Some(
            LogRecordView::Failure {
                lines: report_lines(
                    LaunchErrorView {
                        failure: FailureView::Privilege(PrivilegeError),
                        causes: Seq::empty(),
                    },
                ),
            },
        ),
{
    assert(state_after(config, events, 0) == StateView::Start);
    assert(state_after(config, events, 1) == StateView::LoggingReady);
    assert(state_after(config, events, 2) == bare(FailureView::Privilege(PrivilegeError)));
    finished_run_stays(config, events, 2, n);
}

/// A script that is not beside the executable ends the run, after the
/// identity change: the run fails with `ScriptNotFound`, exits with 1, and
/// the error and its message name the exact path that was probed, which is
/// the executable's directory with the script's file name.
pub proof fn missing_script_ends_run(
    config: Option<Seq<char>>,
    events: Seq<EventView>,
    status: i32,
    exe: Seq<char>,
    dir: Seq<char>,
    n: nat,
)
    requires
        4 <= n <= events.len(),
        events[0] == (EventView::LoggerInitialized { outcome: Ok(()) }),
        events[1] == (EventView::ElevationAttempted { status }),
        elevation_granted(status),
        events[2] == (EventView::SelfPathReported { outcome: Ok(exe) }),
        path_parent(exe) == Some(dir),
        events[3] == (EventView::ScriptProbed { exists: false }),
    ensures
        ({
            let path = path_join(dir, script_file_name());
            let failure = FailureView::Path(PathErrorView::ScriptNotFound { path });
            &&& pending_action(config, state_after(config, events, 3)) == (ActionView::ProbeScript {
                path,
            })
            &&& state_after(config, events, n) == bare(failure)
            &&& exit_status(state_after(config, events, n)) == Some(1i32)
            &&& failure_message(failure) == "Unable to find "@ + path_debug(path)
                + " for command execution"@
        }),
{
    assert(state_after(config, events, 0) == StateView::Start);
    assert(state_after(config, events, 1) == StateView::LoggingReady);
    assert(state_after(config, events, 2) == StateView::PrivilegeElevated { candidate: None });
    let path = path_join(dir, script_file_name());
    assert(candidate_for(exe) == Ok::<Seq<char>, PathErrorView>(path));
    assert(state_after(config, events, 3) == StateView::PrivilegeElevated {
        candidate: Some(path),
    });
    assert(state_after(config, events, 4) == bare(
        FailureView::Path(PathErrorView::ScriptNotFound { path }),
    ));
    finished_run_stays(config, events, 4, n);
}

/// Where the outside succeeds throughout, the run ends in `Done` with exit
/// code 0, whatever the child's own status; the file that is run is the one
/// beside the executable, and the child's captured result is logged as it
/// was reported.
pub proof fn served_run_succeeds(
    config: Option<Seq<char>>,
    events: Seq<EventView>,
    status: i32,
    exe: Seq<char>,
    dir: Seq<char>,
    result: ExecutionResultView,
    n: nat,
)
    requires
        6 <= n <= events.len(),
        events[0] == (EventView::LoggerInitialized { outcome: Ok(()) }),
        events[1] == (EventView::ElevationAttempted { status }),
        elevation_granted(status),
        events[2] == (EventView::SelfPathReported { outcome: Ok(exe) }),
        path_parent(exe) == Some(dir),
        events[3] == (EventView::ScriptProbed { exists: true }),
        events[4] == (EventView::SpawnCompleted { outcome: Ok(result) }),
        events[5] == EventView::Concluded,
    ensures
        pending_action(config, state_after(config, events, 4)) == (ActionView::Spawn {
            path: path_join(dir, script_file_name()),
        }),
        record_for(config, state_after(config, events, 4), events[4]) == Some(
            LogRecordView::Child { result },
        ),
        record_for(config, state_after(config, events, 5), events[5]) == Some(
            LogRecordView::Completed,
        ),
        state_after(config, events, n) == StateView::Done,
        exit_status(state_after(config, events, n)) == Some(0i32),
{
    assert(state_after(config, events, 0) == StateView::Start);
    assert(state_after(config, events, 1) == StateView::LoggingReady);
    assert(state_after(config, events, 2) == StateView::PrivilegeElevated { candidate: None });
    let path = path_join(dir, script_file_name());
    assert(candidate_for(exe) == Ok::<Seq<char>, PathErrorView>(path));
    assert(state_after(config, events, 3) == StateView::PrivilegeElevated {
        candidate: Some(path),
    });
    assert(state_after(config, events, 4) == StateView::ScriptLocated { script: path });
    assert(state_after(config, events, 5) == StateView::ScriptExecuted);
    assert(state_after(config, events, 6) == StateView::Done);
    finished_run_stays(config, events, 6, n);
}

/// Whether two states are equal, or are both logger failures with the same
/// causes beneath them: the one place where the configuration shows in a
/// state.
pub open spec fn alike(a: StateView, b: StateView) -> bool {
    a == b || match (a, b) {
        (StateView::Failed { error: e }, StateView::Failed { error: f }) => {
            &&& e.failure is Logger
            &&& f.failure is Logger
            &&& e.causes == f.causes
        },
        _ => false,
    }
}

/// A run's exit code depends on nothing but what the outside reported: two
/// runs that are handed the same events, one after the other and under
/// whatever configuration, end with the same exit code.
pub proof fn same_events_same_exit(
    first: Option<Seq<char>>,
    second: Option<Seq<char>>,
    events: Seq<EventView>,
    n: nat,
)
    requires
        n <= events.len(),
    ensures
        alike(state_after(first, events, n), state_after(second, events, n)),
        exit_status(state_after(first, events, n)) == exit_status(
            state_after(second, events, n),
        ),
    decreases n,
{
    if n > 0 {
        same_events_same_exit(first, second, events, (n - 1) as nat);
    }
}

} // verus!
