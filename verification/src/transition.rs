//! The transition decision table: for a pair of current and target states,
//! the ordered sequence of runtime operations that converges the one toward
//! the other.

use vstd::prelude::*;
use crate::state::RunnerState;

verus! {

/// The coarse operations the container runtime exposes.
#[derive(Clone, Copy, Debug, PartialEq, Eq, Structural)]
pub enum Operation {
    Create,
    Start,
    Stop,
    Pause,
    Unpause,
    Remove,
}

/// The state a workload is in directly after an operation succeeds.
pub open spec fn op_effect(op: Operation) -> RunnerState {
    match op {
        Operation::Create => RunnerState::Created,
        Operation::Start => RunnerState::Running,
        Operation::Stop => RunnerState::Exited,
        Operation::Pause => RunnerState::Paused,
        Operation::Unpause => RunnerState::Running,
        Operation::Remove => RunnerState::NonExist,
    }
}

/// Whether the runtime accepts an operation in a given state: a container
/// can only be created while none exists, started from `Created` or
/// `Exited`, stopped while it runs, restarts or is paused, paused while it
/// runs or restarts, unpaused from `Paused`, and removed while it exists.
pub open spec fn op_applicable(s: RunnerState, op: Operation) -> bool {
    match op {
        Operation::Create => s is NonExist,
        Operation::Start => s is Created || s is Exited,
        Operation::Stop => s is Running || s is Restarting || s is Paused,
        Operation::Pause => s is Running || s is Restarting,
        Operation::Unpause => s is Paused,
        Operation::Remove => !(s is NonExist),
    }
}

/// The state reached by applying a sequence of operations in order, each
/// replacing the state by its direct effect.
pub open spec fn ops_result(s: RunnerState, ops: Seq<Operation>) -> RunnerState
    decreases ops.len(),
{
    if ops.len() == 0 {
        s
    } else {
        ops_result(op_effect(ops[0]), ops.drop_first())
    }
}

/// Whether every operation of the sequence is applicable in the state the
/// preceding operations have produced.
pub open spec fn ops_applicable(s: RunnerState, ops: Seq<Operation>) -> bool
    decreases ops.len(),
{
    if ops.len() == 0 {
        true
    } else {
        op_applicable(s, ops[0]) && ops_applicable(op_effect(ops[0]), ops.drop_first())
    }
}

/// The decision table.  For each pair of current and target state it gives
/// the ordered operation sequence the controller issues.  `Restarting` and
/// `Dead` are never chosen as targets; asked for anyway, the engine issues
/// nothing and leaves the workload to converge on its own.
pub open spec fn transition_seq(current: RunnerState, target: RunnerState) -> Seq<Operation> {
    if current == target {
        seq![]
    } else {
        match target {
            RunnerState::NonExist => match current {
                RunnerState::Created => seq![Operation::Remove],
                RunnerState::Running => seq![Operation::Stop, Operation::Remove],
                RunnerState::Restarting => seq![Operation::Stop, Operation::Remove],
                RunnerState::Exited => seq![Operation::Remove],
                RunnerState::Paused => seq![Operation::Remove],
                RunnerState::Dead => seq![Operation::Remove],
                _ => seq![],
            },
            RunnerState::Created => match current {
                RunnerState::NonExist => seq![Operation::Create],
                RunnerState::Running => seq![Operation::Stop],
                RunnerState::Restarting => seq![Operation::Stop],
                RunnerState::Exited => seq![Operation::Remove, Operation::Create],
                RunnerState::Paused => seq![Operation::Remove, Operation::Create],
                RunnerState::Dead => seq![Operation::Create],
                _ => seq![],
            },
            RunnerState::Running => match current {
                RunnerState::NonExist => seq![Operation::Create, Operation::Start],
                RunnerState::Created => seq![Operation::Start],
                RunnerState::Restarting => seq![],
                RunnerState::Exited => seq![Operation::Remove, Operation::Create, Operation::Start],
                RunnerState::Paused => seq![Operation::Unpause],
                RunnerState::Dead => seq![Operation::Remove, Operation::Create, Operation::Start],
                _ => seq![],
            },
            RunnerState::Exited => match current {
                RunnerState::NonExist => seq![Operation::Create, Operation::Start, Operation::Stop],
                RunnerState::Created => seq![Operation::Start, Operation::Stop],
                RunnerState::Running => seq![Operation::Stop],
                RunnerState::Restarting => seq![Operation::Stop],
                RunnerState::Paused => seq![Operation::Stop],
                RunnerState::Dead => seq![
                    Operation::Remove,
                    Operation::Create,
                    Operation::Start,
                    Operation::Stop,
                ],
                _ => seq![],
            },
            RunnerState::Paused => match current {
                RunnerState::NonExist => seq![Operation::Create, Operation::Start, Operation::Pause],
                RunnerState::Created => seq![Operation::Start, Operation::Pause],
                RunnerState::Running => seq![Operation::Pause],
                RunnerState::Restarting => seq![Operation::Pause],
                RunnerState::Exited => seq![Operation::Start, Operation::Pause],
                RunnerState::Dead => seq![
                    Operation::Remove,
                    Operation::Create,
                    Operation::Start,
                    Operation::Pause,
                ],
                _ => seq![],
            },
            _ => seq![],
        }
    }
}

/// Computes the decision table's operation sequence for a pair of states.
pub fn transition(current: RunnerState, target: RunnerState) -> (r: Vec<Operation>)
    ensures
        r@ == transition_seq(current, target),
{
    let mut ops: Vec<Operation> = Vec::new();
    if current == target {
        assert(ops@ =~= transition_seq(current, target));
        return ops;
    }
    match target {
        RunnerState::NonExist => match current {
            RunnerState::Created => ops.push(Operation::Remove),
            RunnerState::Running => {
                ops.push(Operation::Stop);
                ops.push(Operation::Remove);
            }
            RunnerState::Restarting => {
                ops.push(Operation::Stop);
                ops.push(Operation::Remove);
            }
            RunnerState::Exited => ops.push(Operation::Remove),
            RunnerState::Paused => ops.push(Operation::Remove),
            RunnerState::Dead => ops.push(Operation::Remove),
            _ => {}
        },
        RunnerState::Created => match current {
            RunnerState::NonExist => ops.push(Operation::Create),
            RunnerState::Running => ops.push(Operation::Stop),
            RunnerState::Restarting => ops.push(Operation::Stop),
            RunnerState::Exited => {
                ops.push(Operation::Remove);
                ops.push(Operation::Create);
            }
            RunnerState::Paused => {
                ops.push(Operation::Remove);
                ops.push(Operation::Create);
            }
            RunnerState::Dead => ops.push(Operation::Create),
            _ => {}
        },
        RunnerState::Running => match current {
            RunnerState::NonExist => {
                ops.push(Operation::Create);
                ops.push(Operation::Start);
            }
            RunnerState::Created => ops.push(Operation::Start),
            RunnerState::Exited => {
                ops.push(Operation::Remove);
                ops.push(Operation::Create);
                ops.push(Operation::Start);
            }
            RunnerState::Paused => ops.push(Operation::Unpause),
            RunnerState::Dead => {
                ops.push(Operation::Remove);
                ops.push(Operation::Create);
                ops.push(Operation::Start);
            }
            _ => {}
        },
        RunnerState::Exited => match current {
            RunnerState::NonExist => {
                ops.push(Operation::Create);
                ops.push(Operation::Start);
                ops.push(Operation::Stop);
            }
            RunnerState::Created => {
                ops.push(Operation::Start);
                ops.push(Operation::Stop);
            }
            RunnerState::Running => ops.push(Operation::Stop),
            RunnerState::Restarting => ops.push(Operation::Stop),
            RunnerState::Paused => ops.push(Operation::Stop),
            RunnerState::Dead => {
                ops.push(Operation::Remove);
                ops.push(Operation::Create);
                ops.push(Operation::Start);
                ops.push(Operation::Stop);
            }
            _ => {}
        },
        RunnerState::Paused => match current {
            RunnerState::NonExist => {
                ops.push(Operation::Create);
                ops.push(Operation::Start);
                ops.push(Operation::Pause);
            }
            RunnerState::Created => {
                ops.push(Operation::Start);
                ops.push(Operation::Pause);
            }
            RunnerState::Running => ops.push(Operation::Pause),
            RunnerState::Restarting => ops.push(Operation::Pause),
            RunnerState::Exited => {
                ops.push(Operation::Start);
                ops.push(Operation::Pause);
            }
            RunnerState::Dead => {
                ops.push(Operation::Remove);
                ops.push(Operation::Create);
                ops.push(Operation::Start);
                ops.push(Operation::Pause);
            }
            _ => {}
        },
        _ => {}
    }
    assert(ops@ =~= transition_seq(current, target));
    ops
}

/// Appending an operation to any sequence makes that operation's effect the
/// final state.
pub proof fn lemma_ops_result_push(s: RunnerState, t: Seq<Operation>, op: Operation)
    ensures
        ops_result(s, t.push(op)) == op_effect(op),
    decreases t.len(),
{
    if t.len() == 0 {
        assert(t.push(op)[0] == op);
        assert(t.push(op).drop_first() =~= Seq::<Operation>::empty());
        assert(ops_result(s, t.push(op)) == ops_result(
            op_effect(op),
            Seq::<Operation>::empty(),
        ));
    } else {
        assert(t.push(op)[0] == t[0]);
        assert(t.push(op).drop_first() =~= t.drop_first().push(op));
        lemma_ops_result_push(op_effect(t[0]), t.drop_first(), op);
        assert(ops_result(s, t.push(op)) == ops_result(
            op_effect(t[0]),
            t.drop_first().push(op),
        ));
    }
}

/// A state already at its target needs no work: the decision table is empty
/// on the diagonal.
pub proof fn lemma_transition_idempotent(s: RunnerState)
    ensures
        transition_seq(s, s) =~= Seq::<Operation>::empty(),
{
}

/// For every reachable pairing of an observed state other than `Restarting`
/// with a state the operator can choose as a target, the table yields a
/// non-empty sequence of operations that the runtime accepts step by step
/// and whose last effect is the target.  The two cells that steer toward
/// `Created` from `Running` and from `Dead` deliberately under- and
/// over-shoot and are left out.
pub proof fn lemma_transition_complete(current: RunnerState, target: RunnerState)
    requires
        !(current is Restarting),
        target is NonExist || target is Created || target is Running || target is Exited
            || target is Paused,
        current != target,
        !(current is Running && target is Created),
        !(current is Dead && target is Created),
    ensures
        transition_seq(current, target).len() > 0,
        ops_applicable(current, transition_seq(current, target)),
        ops_result(current, transition_seq(current, target)) == target,
{
    let ops = transition_seq(current, target);
    assert(ops_applicable(current, ops) && ops_result(current, ops) == target) by {
        reveal_with_fuel(ops_result, 5);
        reveal_with_fuel(ops_applicable, 5);
    }
}

/// Out of `Dead` the workload's remains are always cleared away first:
/// wherever the table's way out of `Dead` creates a container, a removal
/// stands earlier in the sequence.  The one cell that targets `Created`
/// breaks this and is left out.
pub proof fn lemma_dead_removes_before_create(target: RunnerState)
    requires
        !(target is Created),
    ensures
        forall|i: int|
            0 <= i < transition_seq(RunnerState::Dead, target).len()
                && transition_seq(RunnerState::Dead, target)[i] is Create ==> exists|j: int|
                0 <= j < i && transition_seq(RunnerState::Dead, target)[j] is Remove,
{
    let ops = transition_seq(RunnerState::Dead, target);
    assert forall|i: int| 0 <= i < ops.len() && ops[i] is Create implies exists|j: int|
        0 <= j < i && ops[j] is Remove by {
        assert(ops[0] is Remove);
    }
}

} // verus!
