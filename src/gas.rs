//! Worst-case gas budgeting for a route.
//!
//! A route either runs to completion or aborts while acquiring locks, never
//! both, and at the time the chain is started it is not known which. The
//! budget attached to the first call therefore covers the larger of the two
//! paths.

use vstd::prelude::*;

use crate::events::GasCost;

verus! {

/// Gas for a token ledger's transfer.
pub const GAS_COST_TRANSFER: GasCost = 15_500;

/// Gas for a token ledger's approval.
pub const GAS_COST_APPROVE: GasCost = 15_500;

/// Gas for a swap pool's deposit.
pub const GAS_COST_DEPOSIT: GasCost = 20_000;

/// Gas for a swap pool's withdrawal, including the ledger transfer it makes.
pub const GAS_COST_WITHDRAW: GasCost = 25_000;

/// Gas for acquiring a lock at a swap-lock contract.
pub const GAS_COST_ACQUIRE_SWAP_LOCK: GasCost = 20_000;

/// Gas for executing a lock at a swap-lock contract.
pub const GAS_COST_EXECUTE_LOCK: GasCost = 20_000;

/// Gas for cancelling a lock at a swap-lock contract.
pub const GAS_COST_CANCEL_LOCK: GasCost = 12_000;

/// Gas for the router's own work in the step that starts the lock chain.
pub const INTERNAL_GAS_COST_START_LOCK_CHAIN_CALLBACK: GasCost = 1500;

/// Gas for the router's own work in the step that records an acquired lock.
pub const INTERNAL_GAS_COST_LOCK_ROUTE_CALLBACK: GasCost = 1500;

/// Gas for the router's own work in the step after an approval.
pub const INTERNAL_GAS_COST_APPROVE_CALLBACK: GasCost = 1500;

/// Gas for the router's own work in the step after a deposit.
pub const INTERNAL_GAS_COST_DEPOSIT_CALLBACK: GasCost = 1500;

/// Gas for the router's own work in the step after a lock execution.
pub const INTERNAL_GAS_COST_RECEIVE_OUTPUT_AMOUNT_CALLBACK: GasCost = 1500;

/// Gas for the router's own work in the step after a withdrawal.
pub const INTERNAL_GAS_COST_EXECUTE_ROUTE_CALLBACK: GasCost = 1500;

/// Gas for the final step of an aborted route, which reports the failure.
pub const INTERNAL_GAS_COST_CANCEL_LOCK_ERROR_CALLBACK: GasCost = 1500;

/// Cost of acquiring one lock, the router's step included.
pub open spec fn acquire_lock_cost() -> int {
    GAS_COST_ACQUIRE_SWAP_LOCK + INTERNAL_GAS_COST_LOCK_ROUTE_CALLBACK
}

/// Cost of executing one acquired lock: approve, deposit, execute and
/// withdraw, each with the router's following step.
pub open spec fn execute_lock_cost() -> int {
    GAS_COST_APPROVE + INTERNAL_GAS_COST_APPROVE_CALLBACK + GAS_COST_DEPOSIT
        + INTERNAL_GAS_COST_DEPOSIT_CALLBACK + GAS_COST_EXECUTE_LOCK
        + INTERNAL_GAS_COST_RECEIVE_OUTPUT_AMOUNT_CALLBACK + GAS_COST_WITHDRAW
        + INTERNAL_GAS_COST_EXECUTE_ROUTE_CALLBACK
}

/// Cost of starting the chain and acquiring a lock `n + 1` times.
pub open spec fn acquire_path_cost(n: nat) -> int {
    INTERNAL_GAS_COST_START_LOCK_CHAIN_CALLBACK + (n + 1) * acquire_lock_cost()
}

/// Cost of a route of `n` hops that completes: every lock acquired, every
/// lock executed, and the final transfer to the user.
pub open spec fn happy_path_cost(n: nat) -> int {
    acquire_path_cost(n) + n * execute_lock_cost() + GAS_COST_TRANSFER
}

/// Cost of a route of `n` hops that aborts: every lock acquired, `n + 1`
/// cancellations, and the step that reports the failure.
pub open spec fn abort_path_cost(n: nat) -> int {
    acquire_path_cost(n) + (n + 1) * GAS_COST_CANCEL_LOCK
        + INTERNAL_GAS_COST_CANCEL_LOCK_ERROR_CALLBACK
}

/// The budget for a route of `n` hops: the larger of the two paths.
pub open spec fn gas_budget(n: nat) -> int {
    if happy_path_cost(n) >= abort_path_cost(n) {
        happy_path_cost(n)
    } else {
        abort_path_cost(n)
    }
}

/// Given the number of swaps on a route, the least gas with which the route
/// is sure to reach a terminal state, whether it completes or aborts.
pub fn calculate_min_total_gas_cost(number_of_swaps: usize) -> (r: GasCost)
    requires
        gas_budget(number_of_swaps as nat) <= GasCost::MAX,
    ensures
        r == gas_budget(number_of_swaps as nat),
{
    let ghost n = number_of_swaps as nat;
    proof {
        lemma_path_costs_positive(n);
    }
    let number_of_swaps = number_of_swaps as u64;
    let acquire_lock_cost = GAS_COST_ACQUIRE_SWAP_LOCK + INTERNAL_GAS_COST_LOCK_ROUTE_CALLBACK;
    let cancel_locks_cost = (number_of_swaps + 1) * GAS_COST_CANCEL_LOCK
        + INTERNAL_GAS_COST_CANCEL_LOCK_ERROR_CALLBACK;
    let execute_lock_cost = GAS_COST_APPROVE + INTERNAL_GAS_COST_APPROVE_CALLBACK
        + GAS_COST_DEPOSIT + INTERNAL_GAS_COST_DEPOSIT_CALLBACK + GAS_COST_EXECUTE_LOCK
        + INTERNAL_GAS_COST_RECEIVE_OUTPUT_AMOUNT_CALLBACK + GAS_COST_WITHDRAW
        + INTERNAL_GAS_COST_EXECUTE_ROUTE_CALLBACK;
    let total_acquire_cost = INTERNAL_GAS_COST_START_LOCK_CHAIN_CALLBACK + (number_of_swaps + 1)
        * acquire_lock_cost;
    let total_execute_cost = number_of_swaps * execute_lock_cost + GAS_COST_TRANSFER;
    let happy = total_acquire_cost + total_execute_cost;
    let abort = total_acquire_cost + cancel_locks_cost;
    if happy >= abort {
        happy
    } else {
        abort
    }
}

proof fn lemma_path_costs_positive(n: nat)
    ensures
        (n + 1) * acquire_lock_cost() <= acquire_path_cost(n),
        (n + 1) * GAS_COST_CANCEL_LOCK <= abort_path_cost(n) - acquire_path_cost(n),
        n * execute_lock_cost() <= happy_path_cost(n) - acquire_path_cost(n),
        n <= (n + 1) * acquire_lock_cost(),
        0 <= n * execute_lock_cost(),
        0 <= (n + 1) * GAS_COST_CANCEL_LOCK,
{
    assert(0 <= n * execute_lock_cost()) by (nonlinear_arith);
    assert(0 <= (n + 1) * GAS_COST_CANCEL_LOCK) by (nonlinear_arith);
    assert(n <= (n + 1) * acquire_lock_cost()) by (nonlinear_arith)
        requires
            acquire_lock_cost() >= 1,
    ;
}

/// For routes of up to a million hops the budget fits a [`GasCost`] with
/// room to spare.
pub proof fn lemma_gas_budget_fits(n: nat)
    requires
        n <= 1_000_000,
    ensures
        0 < gas_budget(n) <= 1_000_000_000_000,
{
    lemma_path_costs_positive(n);
    assert((n + 1) * acquire_lock_cost() <= 1_000_001 * acquire_lock_cost()) by (nonlinear_arith)
        requires
            n <= 1_000_000,
            acquire_lock_cost() >= 0,
    ;
    assert(n * execute_lock_cost() <= 1_000_000 * execute_lock_cost()) by (nonlinear_arith)
        requires
            n <= 1_000_000,
            execute_lock_cost() >= 0,
    ;
    assert((n + 1) * GAS_COST_CANCEL_LOCK <= 1_000_001 * GAS_COST_CANCEL_LOCK) by (nonlinear_arith)
        requires
            n <= 1_000_000,
    ;
}

/// The budget grows strictly with the length of the route, and covers both
/// the path that completes and the path that cancels every lock.
pub proof fn lemma_gas_budget_monotone(n: nat)
    ensures
        gas_budget(n + 1) > gas_budget(n),
        gas_budget(n) >= abort_path_cost(n),
        gas_budget(n) >= happy_path_cost(n),
{
    assert((n + 2) * acquire_lock_cost() == (n + 1) * acquire_lock_cost() + acquire_lock_cost())
        by (nonlinear_arith);
    assert((n + 1) * execute_lock_cost() == n * execute_lock_cost() + execute_lock_cost())
        by (nonlinear_arith);
    assert((n + 2) * GAS_COST_CANCEL_LOCK == (n + 1) * GAS_COST_CANCEL_LOCK + GAS_COST_CANCEL_LOCK)
        by (nonlinear_arith);
}

} // verus!
