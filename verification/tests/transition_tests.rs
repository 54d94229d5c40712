use arun::state::RunnerState;
use arun::transition::{transition, Operation};

use Operation::{Create, Pause, Remove, Start, Stop, Unpause};
use RunnerState::{Created, Dead, Exited, NonExist, Paused, Restarting, Running};

const ALL_STATES: [RunnerState; 7] = [NonExist, Created, Running, Restarting, Exited, Paused, Dead];

#[test]
fn idempotence_for_every_state() {
    for s in ALL_STATES {
        assert_eq!(transition(s, s), Vec::<Operation>::new());
    }
}

#[test]
fn table_target_nonexist() {
    assert_eq!(transition(Created, NonExist), vec![Remove]);
    assert_eq!(transition(Running, NonExist), vec![Stop, Remove]);
    assert_eq!(transition(Restarting, NonExist), vec![Stop, Remove]);
    assert_eq!(transition(Exited, NonExist), vec![Remove]);
    assert_eq!(transition(Paused, NonExist), vec![Remove]);
    assert_eq!(transition(Dead, NonExist), vec![Remove]);
}

#[test]
fn table_target_created() {
    assert_eq!(transition(NonExist, Created), vec![Create]);
    assert_eq!(transition(Running, Created), vec![Stop]);
    assert_eq!(transition(Restarting, Created), vec![Stop]);
    assert_eq!(transition(Exited, Created), vec![Remove, Create]);
    assert_eq!(transition(Paused, Created), vec![Remove, Create]);
    assert_eq!(transition(Dead, Created), vec![Create]);
}

#[test]
fn table_target_running() {
    assert_eq!(transition(NonExist, Running), vec![Create, Start]);
    assert_eq!(transition(Created, Running), vec![Start]);
    assert_eq!(transition(Restarting, Running), Vec::<Operation>::new());
    assert_eq!(transition(Exited, Running), vec![Remove, Create, Start]);
    assert_eq!(transition(Paused, Running), vec![Unpause]);
    assert_eq!(transition(Dead, Running), vec![Remove, Create, Start]);
}

#[test]
fn table_target_exited() {
    assert_eq!(transition(NonExist, Exited), vec![Create, Start, Stop]);
    assert_eq!(transition(Created, Exited), vec![Start, Stop]);
    assert_eq!(transition(Running, Exited), vec![Stop]);
    assert_eq!(transition(Restarting, Exited), vec![Stop]);
    assert_eq!(transition(Paused, Exited), vec![Stop]);
    assert_eq!(transition(Dead, Exited), vec![Remove, Create, Start, Stop]);
}

#[test]
fn table_target_paused() {
    assert_eq!(transition(NonExist, Paused), vec![Create, Start, Pause]);
    assert_eq!(transition(Created, Paused), vec![Start, Pause]);
    assert_eq!(transition(Running, Paused), vec![Pause]);
    assert_eq!(transition(Restarting, Paused), vec![Pause]);
    assert_eq!(transition(Exited, Paused), vec![Start, Pause]);
    assert_eq!(transition(Dead, Paused), vec![Remove, Create, Start, Pause]);
}

#[test]
fn observed_only_targets_plan_nothing() {
    for s in ALL_STATES {
        assert_eq!(transition(s, Restarting), Vec::<Operation>::new());
        assert_eq!(transition(s, Dead), Vec::<Operation>::new());
    }
}

#[test]
fn dead_state_removes_before_creating() {
    for target in [NonExist, Running, Exited, Paused] {
        let ops = transition(Dead, target);
        for (i, op) in ops.iter().enumerate() {
            if *op == Create {
                assert!(ops[..i].contains(&Remove));
            }
        }
    }
}

#[test]
fn missing_workload_to_running_creates_then_starts() {
    // No runtime entity matches the identity, so the observed state is
    // NonExist; asking for Running must create and then start.
    assert_eq!(transition(NonExist, Running), vec![Create, Start]);
}

#[test]
fn paused_workload_to_nonexist_removes() {
    assert_eq!(transition(Paused, NonExist), vec![Remove]);
}
