//! Convenience drivers around the step loop: run for a bounded number of
//! steps, stopping early at the first environment call if asked. Unbounded
//! driving belongs to the embedding program, which owns the decision when
//! to stop.
use vstd::prelude::*;

verus! {

use crate::sys::{System, step_post};
use crate::trap::{Exception, Trap, TrapCause};

/// Whether an exception is one of the three environment calls.
pub open spec fn is_ecall(ex: Exception) -> bool {
    ex == Exception::EcallFromM || ex == Exception::EcallFromS || ex == Exception::EcallFromU
}

/// Whether a step's outcome is an environment call (always recovered by the
/// trap engine, but the early-stopping driver ends on it).
pub open spec fn ecall_stop(r: Result<(), Trap>) -> bool {
    match r {
        Ok(_) => false,
        Err(t) => match t.cause {
            TrapCause::Exception(ex) => is_ecall(ex),
            TrapCause::Interrupt(_) => false,
        },
    }
}

/// `k` whole steps chain `o` to `n`: each intermediate pair is related by
/// the step relation, with whatever result each step had.
pub open spec fn steps(o: System, n: System, k: nat) -> bool
    decreases k,
{
    if k == 0 {
        n == o
    } else {
        exists|mid: System, r: Result<(), Trap>|
            #![trigger step_post(mid, n, r)]
            steps(o, mid, (k - 1) as nat) && step_post(mid, n, r)
    }
}

/// `k` whole steps chain `o` to `n` and none of them raised an environment
/// call.
pub open spec fn steps_without_ecall(o: System, n: System, k: nat) -> bool
    decreases k,
{
    if k == 0 {
        n == o
    } else {
        exists|mid: System, r: Result<(), Trap>|
            #![trigger step_post(mid, n, r)]
            steps_without_ecall(o, mid, (k - 1) as nat) && step_post(mid, n, r) && !ecall_stop(r)
    }
}

/// Step exactly `repeat` times, delivering traps along the way.
pub fn run_for(sys: &mut System, repeat: usize)
    requires
        old(sys).wf(),
    ensures
        final(sys).wf(),
        steps(*old(sys), *final(sys), repeat as nat),
{
    let mut i: usize = 0;
    while i < repeat
        invariant
            i <= repeat,
            sys.wf(),
            steps(*old(sys), *sys, i as nat),
        decreases repeat - i,
    {
        let ghost pre = *sys;
        let r = sys.step();
        proof {
            assert(step_post(pre, *sys, r));
        }
        i = i + 1;
    }
}

/// Step at most `repeat` times, stopping early at the first environment
/// call. An `Err` names the environment call that some step within the
/// bound raised, with no earlier step raising one and the final state the
/// one right after its delivery; `Ok` means all `repeat` steps ran without
/// an environment call.
#[verifier::rlimit(100)]
pub fn run_for_or_until_ecall(sys: &mut System, repeat: usize) -> (r: Result<(), Exception>)
    requires
        old(sys).wf(),
    ensures
        final(sys).wf(),
        r matches Err(ex) ==> is_ecall(ex) && exists|k: nat, mid: System, t: Trap|
            #![trigger steps_without_ecall(*old(sys), mid, k), step_post(mid, *final(sys), Err::<(), Trap>(t))]
            {
                &&& k < repeat
                &&& steps_without_ecall(*old(sys), mid, k)
                &&& step_post(mid, *final(sys), Err::<(), Trap>(t))
                &&& t.cause == TrapCause::Exception(ex)
            },
        r is Ok ==> steps_without_ecall(*old(sys), *final(sys), repeat as nat),
{
    let mut i: usize = 0;
    while i < repeat
        invariant
            i <= repeat,
            sys.wf(),
            steps_without_ecall(*old(sys), *sys, i as nat),
        decreases repeat - i,
    {
        let ghost pre = *sys;
        let res = sys.step();
        proof {
            assert(step_post(pre, *sys, res));
        }
        match res {
            Err(trap) => {
                match trap.cause {
                    TrapCause::Exception(ex) => {
                        if matches!(ex, Exception::EcallFromM) || matches!(
                            ex,
                            Exception::EcallFromS,
                        ) || matches!(ex, Exception::EcallFromU) {
                            return Err(ex);
                        }
                    }
                    TrapCause::Interrupt(_) => {}
                }
            }
            Ok(()) => {}
        }
        i = i + 1;
    }
    Ok(())
}

} // verus!
