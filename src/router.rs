//! The router's state and its step handlers.
//!
//! Each handler is one host invocation: it takes the persisted state and what
//! the previous batch of calls reported, and returns the next batch. The
//! outcome of every handler is stated as a function of the route store alone
//! (`*_outcome` below); only [`route_swap`] reads the pool registry. A handler
//! that fails changes nothing, as the host reverts a failed invocation.

use vstd::prelude::*;

use crate::address::Address;
use crate::error::RouterError;
use crate::events::{
    EventBatch, EventBatchView, GasCost, Interaction, RouteId, RouterCallback, TokenAmount,
};
use crate::gas::{calculate_min_total_gas_cost, gas_budget, lemma_gas_budget_fits};
use crate::interact::{MPC20Contract, SwapContract, SwapLockContract};
use crate::permission::Permission;
use crate::route::{
    lemma_amount_update_keeps_hops, new_route, remaining_hops, route_wf, with_next_amount_in, AcquiredLiquidityLockInformation, AcquiredLockInfo,
    PendingWithdrawInfo, RouteInformation, RouteView, SwapContractInfo, WantedLockInfo,
};
use crate::store::{RouteTracker, TrackerView};
use crate::validate::{
    lemma_validated_route_chains, validate_route_and_add_info, validated_route, MAX_ROUTE_LENGTH,
};

verus! {

/// The persisted state of the router.
pub struct RouterState {
    /// Who may add pools to the registry.
    pub permission_add_swap: Permission,
    /// The pool registry.
    pub swap_contracts: Vec<SwapContractInfo>,
    /// The routes in flight.
    pub route_tracker: RouteTracker,
}

impl RouterState {
    pub open spec fn wf(&self) -> bool {
        self.route_tracker.wf()
    }
}

/// What a step returns when it succeeds: the new route store and the batch
/// it issues.
pub type StepOutcome = Result<(TrackerView, EventBatchView), RouterError>;

/// The cancellation of each of `locks`, in order.
pub open spec fn cancel_calls(locks: Seq<AcquiredLockInfo>) -> Seq<Interaction> {
    Seq::new(
        locks.len(),
        |i: int|
            Interaction::CancelLock { pool: locks[i].swap_info.swap_address, lock_id: locks[i].lock_id },
    )
}

/// Compensation for `route`: cancel every acquired lock, refund the input
/// to the user, and continue with the step that reports the failure.
pub open spec fn cancel_route_batch(route: RouteView) -> EventBatchView {
    EventBatchView {
        calls: cancel_calls(route.locks_waiting_for_execution).push(
            Interaction::Transfer {
                token: route.initial_token_in,
                receiver: route.user,
                amount: route.initial_amount_in,
            },
        ),
        callback: Some(RouterCallback::CouldNotAcquireLockError),
        callback_cost: None,
    }
}

/// Request the lock `lock`, continuing with the lock step of `route_id`.
pub open spec fn acquire_lock_batch(lock: WantedLockInfo, route_id: RouteId) -> EventBatchView {
    EventBatchView {
        calls: seq![
            Interaction::AcquireSwapLock {
                pool: lock.swap_info.swap_address,
                token_in: lock.swap_info.token_in,
                amount_in: lock.amount_in,
                amount_out_minimum: lock.amount_out_minimum,
            },
        ],
        callback: Some(RouterCallback::LockRoute { route_id }),
        callback_cost: None,
    }
}

/// Approve the pool of `lock` for the input token at the largest amount,
/// continuing with a deposit of `amount`.
pub open spec fn approve_batch(lock: AcquiredLockInfo, route_id: RouteId, amount: TokenAmount) -> EventBatchView {
    EventBatchView {
        calls: seq![
            Interaction::Approve {
                token: lock.swap_info.token_in,
                spender: lock.swap_info.swap_address,
                amount: TokenAmount::MAX,
            },
        ],
        callback: Some(RouterCallback::Approve { route_id, last_output: amount }),
        callback_cost: None,
    }
}

/// Deposit `amount` of the input token of `lock` into its pool.
pub open spec fn deposit_batch(lock: AcquiredLockInfo, route_id: RouteId, amount: TokenAmount) -> EventBatchView {
    EventBatchView {
        calls: seq![
            Interaction::Deposit {
                pool: lock.swap_info.swap_address,
                token: lock.swap_info.token_in,
                amount,
            },
        ],
        callback: Some(RouterCallback::Deposit { route_id }),
        callback_cost: None,
    }
}

/// Execute `lock`.
pub open spec fn execute_lock_batch(lock: AcquiredLockInfo, route_id: RouteId) -> EventBatchView {
    EventBatchView {
        calls: seq![
            Interaction::ExecuteLockSwap { pool: lock.swap_info.swap_address, lock_id: lock.lock_id },
        ],
        callback: Some(RouterCallback::ReceiveOutputAmount { route_id }),
        callback_cost: None,
    }
}

/// Withdraw `amount` as `withdraw` says, and wait for the tokens.
pub open spec fn withdraw_batch(withdraw: PendingWithdrawInfo, route_id: RouteId, amount: TokenAmount) -> EventBatchView {
    EventBatchView {
        calls: seq![
            Interaction::Withdraw {
                pool: withdraw.swap_address,
                token: withdraw.withdraw_token,
                amount,
                wait_for_callback: true,
            },
        ],
        callback: Some(RouterCallback::ExecuteRoute { route_id, last_output: amount }),
        callback_cost: None,
    }
}

/// Pay the route's output to its user; nothing follows.
pub open spec fn final_transfer_batch(route: RouteView) -> EventBatchView {
    EventBatchView {
        calls: seq![
            Interaction::Transfer {
                token: route.final_token_out,
                receiver: route.user,
                amount: route.final_received_amount,
            },
        ],
        callback: None,
        callback_cost: None,
    }
}

/// `route` once its next wanted lock was granted as `info`: the lock moves
/// to the back of the acquired queue, and the next wanted lock puts in what
/// the granted one yields.
pub open spec fn after_lock_acquired(route: RouteView, info: AcquiredLiquidityLockInformation) -> RouteView {
    with_next_amount_in(
        RouteView {
            locks_wanted: route.locks_wanted.drop_first(),
            locks_waiting_for_execution: route.locks_waiting_for_execution.push(
                AcquiredLockInfo { swap_info: route.locks_wanted[0].swap_info, lock_id: info.lock_id },
            ),
            ..route
        },
        info.amount_out,
    )
}

/// Outcome of [`route_swap`].
pub open spec fn route_swap_outcome(
    registry: Seq<SwapContractInfo>,
    tracker: TrackerView,
    sender: Address,
    contract_address: Address,
    swap_route: Seq<Address>,
    token_in: Address,
    token_out: Address,
    amount_in: TokenAmount,
    amount_out_minimum: TokenAmount,
) -> StepOutcome {
    match validated_route(swap_route, registry, token_in, token_out) {
        Err(e) => Err(e),
        Ok(hops) => if tracker.next_route_id == RouteId::MAX {
            Err(RouterError::RouteIdsExhausted)
        } else {
            let route_id = tracker.next_route_id;
            Ok(
                (
                    TrackerView {
                        next_route_id: (route_id + 1) as RouteId,
                        routes: tracker.routes.insert(
                            route_id,
                            new_route(hops, amount_in, amount_out_minimum, sender),
                        ),
                    },
                    EventBatchView {
                        calls: seq![
                            Interaction::TransferFrom {
                                token: token_in,
                                sender,
                                receiver: contract_address,
                                amount: amount_in,
                            },
                        ],
                        callback: Some(RouterCallback::StartLockChain { route_id }),
                        callback_cost: Some(gas_budget(hops.len()) as GasCost),
                    },
                ),
            )
        },
    }
}

/// Outcome of [`start_lock_chain_callback`].
pub open spec fn start_lock_chain_outcome(tracker: TrackerView, success: bool, route_id: RouteId) -> StepOutcome {
    if !success {
        Err(RouterError::CouldNotTakeControlOfTokens)
    } else if !tracker.routes.contains_key(route_id) {
        Err(RouterError::UnknownRoute { route_id })
    } else if tracker.routes[route_id].locks_wanted.len() == 0 {
        Err(RouterError::NoWantedLock)
    } else {
        Ok((tracker, acquire_lock_batch(tracker.routes[route_id].locks_wanted[0], route_id)))
    }
}

/// Outcome of [`lock_route_callback`].
pub open spec fn lock_route_outcome(
    tracker: TrackerView,
    success: bool,
    acquired: Option<AcquiredLiquidityLockInformation>,
    route_id: RouteId,
) -> StepOutcome {
    if !tracker.routes.contains_key(route_id) {
        Err(RouterError::UnknownRoute { route_id })
    } else {
        let route = tracker.routes[route_id];
        if !success {
            Ok(
                (
                    TrackerView { routes: tracker.routes.remove(route_id), ..tracker },
                    cancel_route_batch(route),
                ),
            )
        } else if acquired is Some && route.locks_wanted.len() == 0 {
            Err(RouterError::NoWantedLock)
        } else {
            let next = match acquired {
                Some(info) => after_lock_acquired(route, info),
                None => route,
            };
            let tracker_next = TrackerView { routes: tracker.routes.insert(route_id, next), ..tracker };
            if next.locks_wanted.len() > 0 {
                Ok((tracker_next, acquire_lock_batch(next.locks_wanted[0], route_id)))
            } else if next.locks_waiting_for_execution.len() > 0 {
                Ok(
                    (
                        tracker_next,
                        approve_batch(
                            next.locks_waiting_for_execution[0],
                            route_id,
                            route.initial_amount_in,
                        ),
                    ),
                )
            } else {
                Err(RouterError::NoPendingLock)
            }
        }
    }
}

/// Outcome of [`approve_callback`].
pub open spec fn approve_outcome(tracker: TrackerView, route_id: RouteId, last_output: TokenAmount) -> StepOutcome {
    if !tracker.routes.contains_key(route_id) {
        Err(RouterError::UnknownRoute { route_id })
    } else if tracker.routes[route_id].locks_waiting_for_execution.len() == 0 {
        Err(RouterError::NoPendingLock)
    } else {
        Ok(
            (
                tracker,
                deposit_batch(
                    tracker.routes[route_id].locks_waiting_for_execution[0],
                    route_id,
                    last_output,
                ),
            ),
        )
    }
}

/// Outcome of [`deposit_callback`].
pub open spec fn deposit_outcome(tracker: TrackerView, route_id: RouteId) -> StepOutcome {
    if !tracker.routes.contains_key(route_id) {
        Err(RouterError::UnknownRoute { route_id })
    } else {
        let route = tracker.routes[route_id];
        if route.locks_waiting_for_execution.len() == 0 {
            Err(RouterError::NoPendingLock)
        } else {
            let lock = route.locks_waiting_for_execution[0];
            let next = RouteView {
                locks_waiting_for_execution: route.locks_waiting_for_execution.drop_first(),
                pending_withdraw: Some(
                    PendingWithdrawInfo {
                        swap_address: lock.swap_info.swap_address,
                        withdraw_token: lock.swap_info.token_out,
                    },
                ),
                ..route
            };
            Ok(
                (
                    TrackerView { routes: tracker.routes.insert(route_id, next), ..tracker },
                    execute_lock_batch(lock, route_id),
                ),
            )
        }
    }
}

/// Outcome of [`receive_output_amount_callback`].
pub open spec fn receive_output_amount_outcome(
    tracker: TrackerView,
    route_id: RouteId,
    received_amount: TokenAmount,
) -> StepOutcome {
    if !tracker.routes.contains_key(route_id) {
        Err(RouterError::UnknownRoute { route_id })
    } else {
        let route = tracker.routes[route_id];
        match route.pending_withdraw {
            None => Err(RouterError::NoPendingWithdraw),
            Some(withdraw) => {
                let next = RouteView {
                    final_received_amount: received_amount,
                    pending_withdraw: None,
                    ..route
                };
                Ok(
                    (
                        TrackerView { routes: tracker.routes.insert(route_id, next), ..tracker },
                        withdraw_batch(withdraw, route_id, received_amount),
                    ),
                )
            },
        }
    }
}

/// Outcome of [`execute_route_callback`]: approve the next lock, or, when
/// every lock has been executed, pay the user and retire the route.
pub open spec fn execute_route_outcome(tracker: TrackerView, route_id: RouteId, last_output: TokenAmount) -> StepOutcome {
    if !tracker.routes.contains_key(route_id) {
        Err(RouterError::UnknownRoute { route_id })
    } else {
        let route = tracker.routes[route_id];
        if route.locks_waiting_for_execution.len() > 0 {
            Ok((tracker, approve_batch(route.locks_waiting_for_execution[0], route_id, last_output)))
        } else {
            Ok(
                (
                    TrackerView { routes: tracker.routes.remove(route_id), ..tracker },
                    final_transfer_batch(route),
                ),
            )
        }
    }
}

/// Whether a step that returned `r` from `old` to `new` did what `outcome`
/// says: on success the store and the batch are as stated; on failure the
/// error is the stated one and nothing changed.
pub open spec fn step_matches(
    outcome: StepOutcome,
    old: &RouterState,
    new: &RouterState,
    r: Result<EventBatch, RouterError>,
) -> bool {
    &&& new.wf()
    &&& new.permission_add_swap == old.permission_add_swap
    &&& new.swap_contracts@ == old.swap_contracts@
    &&& match r {
        Ok(batch) => outcome == Ok::<(TrackerView, EventBatchView), RouterError>(
            (new.route_tracker@, batch@),
        ),
        Err(e) => outcome == Err::<(TrackerView, EventBatchView), RouterError>(e)
            && new.route_tracker@ == old.route_tracker@,
    }
}

/// `batch` followed by the calls and the continuation of `more`; the gas
/// budget of `batch` stays.
pub open spec fn followed_by(batch: EventBatchView, more: EventBatchView) -> EventBatchView {
    EventBatchView { calls: batch.calls + more.calls, callback: more.callback, ..batch }
}

proof fn lemma_fresh_batch_followed_by(more: EventBatchView)
    requires
        more.callback_cost is None,
    ensures
        followed_by(
            EventBatchView { calls: seq![], callback: None, callback_cost: None },
            more,
        ) == more,
{
    assert(seq![] + more.calls =~= more.calls);
}

/// Issues the compensation of `route`: a cancellation of each acquired lock
/// in order, a refund of the input to the user, and a continuation that
/// reports the route as failed.
fn build_events_cancel_route(batch: &mut EventBatch, route: &RouteInformation)
    ensures
        final(batch)@ == followed_by(old(batch)@, cancel_route_batch(route@)),
{
    let ghost locks = route@.locks_waiting_for_execution;
    let mut i: usize = 0;
    while i < route.locks_waiting_for_execution.len()
        invariant
            locks == route@.locks_waiting_for_execution,
            0 <= i <= locks.len(),
            batch@.calls =~= old(batch)@.calls + cancel_calls(locks.take(i as int)),
            batch@.callback == old(batch)@.callback,
            batch@.callback_cost == old(batch)@.callback_cost,
        decreases locks.len() - i,
    {
        let lock = &route.locks_waiting_for_execution[i];
        SwapLockContract::at_address(lock.swap_info.swap_address).cancel_lock(batch, lock.lock_id);
        proof {
            assert(cancel_calls(locks.take(i + 1)) =~= cancel_calls(locks.take(i as int)).push(
                cancel_calls(locks)[i as int],
            ));
        }
        i = i + 1;
    }
    proof {
        assert(locks.take(locks.len() as int) =~= locks);
    }
    MPC20Contract::at_address(route.initial_token_in).transfer(
        batch,
        &route.user,
        route.initial_amount_in,
    );
    batch.with_callback(RouterCallback::CouldNotAcquireLockError);
    proof {
        assert(batch@.calls =~= old(batch)@.calls + cancel_route_batch(route@).calls);
    }
}

/// Issues a request for the lock `lock_info`, continuing with the lock step
/// of `route_id`.
fn build_acquire_lock_events(batch: &mut EventBatch, lock_info: &WantedLockInfo, route_id: RouteId)
    ensures
        final(batch)@ == followed_by(old(batch)@, acquire_lock_batch(*lock_info, route_id)),
{
    SwapLockContract::at_address(lock_info.swap_info.swap_address).acquire_swap_lock(
        batch,
        &lock_info.swap_info.token_in,
        lock_info.amount_in,
        lock_info.amount_out_minimum,
    );
    batch.with_callback(RouterCallback::LockRoute { route_id });
    proof {
        assert(batch@.calls =~= old(batch)@.calls + acquire_lock_batch(*lock_info, route_id).calls);
    }
}

/// Issues the approval that starts the execution of `pending_lock`,
/// continuing with a deposit of `approval_amount`.
fn build_execute_approve_events(
    batch: &mut EventBatch,
    pending_lock: &AcquiredLockInfo,
    route_id: RouteId,
    approval_amount: TokenAmount,
)
    ensures
        final(batch)@ == followed_by(
            old(batch)@,
            approve_batch(*pending_lock, route_id, approval_amount),
        ),
{
    build_max_approve_event_for_execute(batch, pending_lock);
    batch.with_callback(RouterCallback::Approve { route_id, last_output: approval_amount });
    proof {
        assert(batch@.calls =~= old(batch)@.calls + approve_batch(
            *pending_lock,
            route_id,
            approval_amount,
        ).calls);
    }
}

/// Issues an approval of the largest possible amount of the lock's input
/// token to its pool. Ledgers without relative approvals can then be used
/// too, at the price of a standing allowance.
fn build_max_approve_event_for_execute(batch: &mut EventBatch, pending_lock: &AcquiredLockInfo)
    ensures
        final(batch)@ == (EventBatchView {
            calls: old(batch)@.calls.push(
                Interaction::Approve {
                    token: pending_lock.swap_info.token_in,
                    spender: pending_lock.swap_info.swap_address,
                    amount: TokenAmount::MAX,
                },
            ),
            ..old(batch)@
        }),
{
    MPC20Contract::at_address(pending_lock.swap_info.token_in).approve(
        batch,
        &pending_lock.swap_info.swap_address,
        TokenAmount::MAX,
    );
}

proof fn lemma_acquired_lock_keeps_hops(route: RouteView, info: AcquiredLiquidityLockInformation)
    requires
        route.locks_wanted.len() > 0,
    ensures
        remaining_hops(after_lock_acquired(route, info)) == remaining_hops(route),
        after_lock_acquired(route, info).final_token_out == route.final_token_out,
{
    let moved = RouteView {
        locks_wanted: route.locks_wanted.drop_first(),
        locks_waiting_for_execution: route.locks_waiting_for_execution.push(
            AcquiredLockInfo { swap_info: route.locks_wanted[0].swap_info, lock_id: info.lock_id },
        ),
        ..route
    };
    lemma_amount_update_keeps_hops(moved, info.amount_out);
    assert(remaining_hops(moved) =~= remaining_hops(route));
}

proof fn lemma_executed_lock_keeps_invariant(route: RouteView, next: RouteView)
    requires
        route_wf(route),
        route.locks_waiting_for_execution.len() > 0,
        next.locks_waiting_for_execution == route.locks_waiting_for_execution.drop_first(),
        next.locks_wanted == route.locks_wanted,
        next.final_token_out == route.final_token_out,
    ensures
        route_wf(next),
{
    assert(remaining_hops(next) =~= remaining_hops(route).drop_first());
}

/// A router with the pools `swap_contracts` in its registry and no route in
/// flight.
pub fn initialize(permission_add_swap: Permission, swap_contracts: Vec<SwapContractInfo>) -> (r:
    RouterState)
    ensures
        r.wf(),
        r.permission_add_swap == permission_add_swap,
        r.swap_contracts@ == swap_contracts@,
        r.route_tracker@ == (TrackerView { next_route_id: 0, routes: Map::empty() }),
{
    RouterState { permission_add_swap, swap_contracts, route_tracker: RouteTracker::new() }
}

/// Starts a swap of `amount_in` of `token_in` into at least
/// `amount_out_minimum` of `token_out` for `sender`, through the pools of
/// `swap_route`.
///
/// The route is validated against the registry first; a route that fails
/// validation allocates no id and issues nothing. Otherwise the route is
/// stored under the next id, and the batch pulls the input into the
/// router's custody (`contract_address`) and carries the whole gas budget of
/// the route to the step that starts acquiring locks.
pub fn route_swap(
    state: &mut RouterState,
    sender: Address,
    contract_address: Address,
    swap_route: &Vec<Address>,
    token_in: Address,
    token_out: Address,
    amount_in: TokenAmount,
    amount_out_minimum: TokenAmount,
) -> (r: Result<EventBatch, RouterError>)
    requires
        old(state).wf(),
    ensures
        step_matches(
            route_swap_outcome(
                old(state).swap_contracts@,
                old(state).route_tracker@,
                sender,
                contract_address,
                swap_route@,
                token_in,
                token_out,
                amount_in,
                amount_out_minimum,
            ),
            old(state),
            final(state),
            r,
        ),
        swap_route@.len() > MAX_ROUTE_LENGTH ==> r == Err::<EventBatch, RouterError>(
            RouterError::RouteTooLong { length: swap_route.len() },
        ) && final(state).route_tracker@ == old(state).route_tracker@,
{
    let route = match validate_route_and_add_info(swap_route, &state.swap_contracts, token_in, token_out) {
        Ok(route) => route,
        Err(e) => return Err(e),
    };
    if state.route_tracker.next_route_id == RouteId::MAX {
        return Err(RouterError::RouteIdsExhausted);
    }
    proof {
        lemma_validated_route_chains(swap_route@, state.swap_contracts@, token_in, token_out);
        lemma_gas_budget_fits(route@.len());
    }
    let route_length = route.len();
    let route_id = state.route_tracker.add_route(route, amount_in, amount_out_minimum, sender);

    let mut batch = EventBatch::new();
    MPC20Contract::at_address(token_in).transfer_from(
        &mut batch,
        &sender,
        &contract_address,
        amount_in,
    );
    let total_cost = calculate_min_total_gas_cost(route_length);
    batch.with_callback(RouterCallback::StartLockChain { route_id });
    batch.with_cost(total_cost);
    proof {
        assert(batch@.calls =~= seq![
            Interaction::TransferFrom {
                token: token_in,
                sender,
                receiver: contract_address,
                amount: amount_in,
            },
        ]);
    }
    Ok(batch)
}

/// Runs once the custody transfer of route `route_id` has completed: when it
/// succeeded, requests the route's first lock. A failed transfer moved no
/// funds, so the route ends there with nothing to undo.
pub fn start_lock_chain_callback(state: &RouterState, success: bool, route_id: RouteId) -> (r: Result<
    EventBatch,
    RouterError,
>)
    requires
        state.wf(),
    ensures
        step_matches(start_lock_chain_outcome(state.route_tracker@, success, route_id), state, state, r),
{
    if !success {
        return Err(RouterError::CouldNotTakeControlOfTokens);
    }
    let route = match state.route_tracker.get_route(route_id) {
        Some(route) => route,
        None => return Err(RouterError::UnknownRoute { route_id }),
    };
    let lock_info = match route.peek_next_wanted_lock() {
        Some(lock_info) => lock_info,
        None => return Err(RouterError::NoWantedLock),
    };
    let mut batch = EventBatch::new();
    build_acquire_lock_events(&mut batch, lock_info, route_id);
    proof {
        lemma_fresh_batch_followed_by(acquire_lock_batch(*lock_info, route_id));
    }
    Ok(batch)
}

/// Runs once a lock request of route `route_id` has completed.
///
/// When the request failed, issues the compensation: every lock acquired so
/// far is cancelled, in order of acquisition, the input is refunded to the
/// user, and the route is retired. When it succeeded, the granted lock
/// (`acquired`, as the pool reported it) joins the acquired locks and fixes
/// what the next hop puts in; then the next lock is requested, or, once
/// every lock is held, execution starts with the route's input amount.
pub fn lock_route_callback(
    state: &mut RouterState,
    success: bool,
    acquired: Option<AcquiredLiquidityLockInformation>,
    route_id: RouteId,
) -> (r: Result<EventBatch, RouterError>)
    requires
        old(state).wf(),
    ensures
        step_matches(
            lock_route_outcome(old(state).route_tracker@, success, acquired, route_id),
            old(state),
            final(state),
            r,
        ),
{
    let ghost old_tracker = state.route_tracker@;
    let mut route = match state.route_tracker.take_route(route_id) {
        Some(route) => route,
        None => return Err(RouterError::UnknownRoute { route_id }),
    };
    let ghost fetched = route@;
    let mut batch = EventBatch::new();
    if !success {
        // A lock could not be acquired: undo what was done and retire the route.
        build_events_cancel_route(&mut batch, &route);
        proof {
            lemma_fresh_batch_followed_by(cancel_route_batch(fetched));
        }
        return Ok(batch);
    }
    if let Some(info) = acquired {
        match route.pop_next_wanted_lock() {
            Some(wanted) => {
                // The next hop puts in what the lock just granted yields.
                route.update_next_wanted_lock_amount_in(info.amount_out);
                route.update_next_pending_lock_id(wanted.swap_info, info.lock_id);
                proof {
                    assert(route@ == after_lock_acquired(fetched, info));
                    lemma_acquired_lock_keeps_hops(fetched, info);
                }
            },
            None => {
                state.route_tracker.put_route(route_id, route);
                proof {
                    assert(state.route_tracker@.routes =~= old_tracker.routes);
                }
                return Err(RouterError::NoWantedLock);
            },
        }
    }
    let ghost next = route@;
    assert(route_wf(next));
    if route.locks_wanted.len() > 0 {
        build_acquire_lock_events(&mut batch, &route.locks_wanted[0], route_id);
        proof {
            lemma_fresh_batch_followed_by(acquire_lock_batch(next.locks_wanted[0], route_id));
        }
    } else if route.locks_waiting_for_execution.len() > 0 {
        build_execute_approve_events(
            &mut batch,
            &route.locks_waiting_for_execution[0],
            route_id,
            route.initial_amount_in,
        );
        proof {
            lemma_fresh_batch_followed_by(
                approve_batch(next.locks_waiting_for_execution[0], route_id, fetched.initial_amount_in),
            );
        }
    } else {
        state.route_tracker.put_route(route_id, route);
        proof {
            assert(state.route_tracker@.routes =~= old_tracker.routes);
        }
        return Err(RouterError::NoPendingLock);
    }
    state.route_tracker.put_route(route_id, route);
    proof {
        assert(state.route_tracker@.routes =~= old_tracker.routes.insert(route_id, next));
    }
    Ok(batch)
}

/// Runs once the approval for the next lock of route `route_id` has
/// completed: deposits `last_output` of the lock's input token into its pool.
pub fn approve_callback(state: &RouterState, route_id: RouteId, last_output: TokenAmount) -> (r:
    Result<EventBatch, RouterError>)
    requires
        state.wf(),
    ensures
        step_matches(approve_outcome(state.route_tracker@, route_id, last_output), state, state, r),
{
    let route = match state.route_tracker.get_route(route_id) {
        Some(route) => route,
        None => return Err(RouterError::UnknownRoute { route_id }),
    };
    let pending_lock = match route.peek_next_pending_lock() {
        Some(pending_lock) => pending_lock,
        None => return Err(RouterError::NoPendingLock),
    };
    let mut batch = EventBatch::new();
    SwapContract::at_address(pending_lock.swap_info.swap_address).deposit(
        &mut batch,
        &pending_lock.swap_info.token_in,
        last_output,
    );
    batch.with_callback(RouterCallback::Deposit { route_id });
    proof {
        assert(batch@.calls =~= deposit_batch(*pending_lock, route_id, last_output).calls);
    }
    Ok(batch)
}

/// Runs once the deposit for the next lock of route `route_id` has
/// completed: executes that lock, and records the withdrawal of its output
/// that is to follow.
pub fn deposit_callback(state: &mut RouterState, route_id: RouteId) -> (r: Result<
    EventBatch,
    RouterError,
>)
    requires
        old(state).wf(),
    ensures
        step_matches(deposit_outcome(old(state).route_tracker@, route_id), old(state), final(state), r),
{
    let ghost old_tracker = state.route_tracker@;
    let mut route = match state.route_tracker.take_route(route_id) {
        Some(route) => route,
        None => return Err(RouterError::UnknownRoute { route_id }),
    };
    let pending_lock = match route.take_next_pending_lock() {
        Some(pending_lock) => pending_lock,
        None => {
            state.route_tracker.put_route(route_id, route);
            proof {
                assert(state.route_tracker@.routes =~= old_tracker.routes);
            }
            return Err(RouterError::NoPendingLock);
        },
    };
    let mut batch = EventBatch::new();
    SwapLockContract::at_address(pending_lock.swap_info.swap_address).execute_lock(
        &mut batch,
        pending_lock.lock_id,
    );
    batch.with_callback(RouterCallback::ReceiveOutputAmount { route_id });
    route.update_pending_withdraw(
        PendingWithdrawInfo {
            swap_address: pending_lock.swap_info.swap_address,
            withdraw_token: pending_lock.swap_info.token_out,
        },
    );
    let ghost next = route@;
    proof {
        lemma_executed_lock_keeps_invariant(old_tracker.routes[route_id], next);
    }
    state.route_tracker.put_route(route_id, route);
    proof {
        assert(state.route_tracker@.routes =~= old_tracker.routes.insert(route_id, next));
        assert(batch@.calls =~= execute_lock_batch(pending_lock, route_id).calls);
    }
    Ok(batch)
}

/// Runs once the execution of a lock of route `route_id` has completed, the
/// pool reporting `received_amount` as its output: records that amount and
/// withdraws it from the pool, waiting for the tokens to arrive.
pub fn receive_output_amount_callback(
    state: &mut RouterState,
    route_id: RouteId,
    received_amount: TokenAmount,
) -> (r: Result<EventBatch, RouterError>)
    requires
        old(state).wf(),
    ensures
        step_matches(
            receive_output_amount_outcome(old(state).route_tracker@, route_id, received_amount),
            old(state),
            final(state),
            r,
        ),
{
    let ghost old_tracker = state.route_tracker@;
    let mut route = match state.route_tracker.take_route(route_id) {
        Some(route) => route,
        None => return Err(RouterError::UnknownRoute { route_id }),
    };
    let pending_withdraw = match route.take_pending_withdraw() {
        Some(pending_withdraw) => pending_withdraw,
        None => {
            state.route_tracker.put_route(route_id, route);
            proof {
                assert(state.route_tracker@.routes =~= old_tracker.routes);
            }
            return Err(RouterError::NoPendingWithdraw);
        },
    };
    route.update_final_amount_out(received_amount);
    let ghost next = route@;
    state.route_tracker.put_route(route_id, route);

    let mut batch = EventBatch::new();
    SwapContract::at_address(pending_withdraw.swap_address).withdraw(
        &mut batch,
        &pending_withdraw.withdraw_token,
        received_amount,
        true,
    );
    batch.with_callback(RouterCallback::ExecuteRoute { route_id, last_output: received_amount });
    proof {
        assert(state.route_tracker@.routes =~= old_tracker.routes.insert(route_id, next));
        assert(batch@.calls =~= withdraw_batch(pending_withdraw, route_id, received_amount).calls);
    }
    Ok(batch)
}

/// Runs once the withdrawal after a lock of route `route_id` has completed,
/// `last_output` tokens having arrived: starts executing the next acquired
/// lock with that amount, or, when none is left, pays the route's output to
/// its user and retires the route.
pub fn execute_route_callback(state: &mut RouterState, route_id: RouteId, last_output: TokenAmount) -> (r:
    Result<EventBatch, RouterError>)
    requires
        old(state).wf(),
    ensures
        step_matches(
            execute_route_outcome(old(state).route_tracker@, route_id, last_output),
            old(state),
            final(state),
            r,
        ),
{
    let ghost old_tracker = state.route_tracker@;
    let route = match state.route_tracker.take_route(route_id) {
        Some(route) => route,
        None => return Err(RouterError::UnknownRoute { route_id }),
    };
    let ghost fetched = route@;
    let mut batch = EventBatch::new();
    match route.peek_next_pending_lock() {
        Some(pending_lock) => {
            build_execute_approve_events(&mut batch, pending_lock, route_id, last_output);
            proof {
                lemma_fresh_batch_followed_by(approve_batch(*pending_lock, route_id, last_output));
            }
        },
        None => {
            // Every lock has been executed: pay the user, and the route is done.
            MPC20Contract::at_address(route.final_token_out).transfer(
                &mut batch,
                &route.user,
                route.final_received_amount,
            );
            proof {
                assert(batch@.calls =~= final_transfer_batch(fetched).calls);
            }
            return Ok(batch);
        },
    }
    state.route_tracker.put_route(route_id, route);
    proof {
        assert(state.route_tracker@.routes =~= old_tracker.routes);
    }
    Ok(batch)
}

/// The last step of a compensated route: it always fails, so that the route
/// is reported as failed while the cancellations and the refund issued
/// before it stand.
pub fn could_not_acquire_lock_error(state: &RouterState) -> (r: Result<EventBatch, RouterError>)
    ensures
        r == Err::<EventBatch, RouterError>(RouterError::CouldNotAcquireAllLocks),
{
    Err(RouterError::CouldNotAcquireAllLocks)
}

/// Adds the pool at `swap_address`, trading `token_a_address` against
/// `token_b_address`, to the registry, if `sender` may do so. Routes in
/// flight are not affected.
pub fn add_swap_contract(
    state: &mut RouterState,
    sender: &Address,
    swap_address: Address,
    token_a_address: Address,
    token_b_address: Address,
) -> (r: Result<(), RouterError>)
    requires
        old(state).wf(),
    ensures
        final(state).wf(),
        final(state).permission_add_swap == old(state).permission_add_swap,
        final(state).route_tracker@ == old(state).route_tracker@,
        r is Ok <==> old(state).permission_add_swap.permits(*sender),
        r is Err ==> r == Err::<(), RouterError>(RouterError::PermissionDenied)
            && final(state).swap_contracts@ == old(state).swap_contracts@,
        r is Ok ==> final(state).swap_contracts@ == old(state).swap_contracts@.push(
            SwapContractInfo { swap_address, token_a_address, token_b_address },
        ),
{
    if !state.permission_add_swap.is_permitted(sender) {
        return Err(RouterError::PermissionDenied);
    }
    state.swap_contracts.push(SwapContractInfo { swap_address, token_a_address, token_b_address });
    Ok(())
}

/// The route id that a successful [`route_swap`] hands out: the one its
/// continuation carries.
pub open spec fn issued_route_id(outcome: StepOutcome) -> RouteId {
    outcome->Ok_0.1.callback->Some_0->StartLockChain_route_id
}

/// A successful [`route_swap`] hands out the counter's value and raises the
/// counter by one; no other step moves the counter.
pub proof fn lemma_route_counter_moves_only_on_registration(
    registry: Seq<SwapContractInfo>,
    tracker: TrackerView,
    sender: Address,
    contract_address: Address,
    swap_route: Seq<Address>,
    token_in: Address,
    token_out: Address,
    amount_in: TokenAmount,
    amount_out_minimum: TokenAmount,
    success: bool,
    acquired: Option<AcquiredLiquidityLockInformation>,
    route_id: RouteId,
    amount: TokenAmount,
)
    ensures
        ({
            let o = route_swap_outcome(
                registry,
                tracker,
                sender,
                contract_address,
                swap_route,
                token_in,
                token_out,
                amount_in,
                amount_out_minimum,
            );
            o is Ok ==> issued_route_id(o) == tracker.next_route_id && o->Ok_0.0.next_route_id
                == tracker.next_route_id + 1
        }),
        start_lock_chain_outcome(tracker, success, route_id) is Ok ==> start_lock_chain_outcome(
            tracker,
            success,
            route_id,
        )->Ok_0.0.next_route_id == tracker.next_route_id,
        lock_route_outcome(tracker, success, acquired, route_id) is Ok ==> lock_route_outcome(
            tracker,
            success,
            acquired,
            route_id,
        )->Ok_0.0.next_route_id == tracker.next_route_id,
        approve_outcome(tracker, route_id, amount) is Ok ==> approve_outcome(
            tracker,
            route_id,
            amount,
        )->Ok_0.0.next_route_id == tracker.next_route_id,
        deposit_outcome(tracker, route_id) is Ok ==> deposit_outcome(
            tracker,
            route_id,
        )->Ok_0.0.next_route_id == tracker.next_route_id,
        receive_output_amount_outcome(tracker, route_id, amount) is Ok
            ==> receive_output_amount_outcome(tracker, route_id, amount)->Ok_0.0.next_route_id
            == tracker.next_route_id,
        execute_route_outcome(tracker, route_id, amount) is Ok ==> execute_route_outcome(
            tracker,
            route_id,
            amount,
        )->Ok_0.0.next_route_id == tracker.next_route_id,
{
}

/// Route ids grow strictly: when a later successful [`route_swap`] starts
/// from a counter no lower than the one an earlier successful call left
/// behind, it hands out a larger id. Failed calls and every other step
/// leave the counter alone, and retiring a route does not lower it, so this
/// holds over the whole life of the router.
pub proof fn lemma_route_ids_strictly_increase(
    registry_1: Seq<SwapContractInfo>,
    before_1: TrackerView,
    sender_1: Address,
    contract_1: Address,
    route_1: Seq<Address>,
    token_in_1: Address,
    token_out_1: Address,
    amount_in_1: TokenAmount,
    minimum_1: TokenAmount,
    registry_2: Seq<SwapContractInfo>,
    before_2: TrackerView,
    sender_2: Address,
    contract_2: Address,
    route_2: Seq<Address>,
    token_in_2: Address,
    token_out_2: Address,
    amount_in_2: TokenAmount,
    minimum_2: TokenAmount,
)
    requires
        route_swap_outcome(
            registry_1,
            before_1,
            sender_1,
            contract_1,
            route_1,
            token_in_1,
            token_out_1,
            amount_in_1,
            minimum_1,
        ) is Ok,
        route_swap_outcome(
            registry_2,
            before_2,
            sender_2,
            contract_2,
            route_2,
            token_in_2,
            token_out_2,
            amount_in_2,
            minimum_2,
        ) is Ok,
        route_swap_outcome(
            registry_1,
            before_1,
            sender_1,
            contract_1,
            route_1,
            token_in_1,
            token_out_1,
            amount_in_1,
            minimum_1,
        )->Ok_0.0.next_route_id <= before_2.next_route_id,
    ensures
        issued_route_id(
            route_swap_outcome(
                registry_1,
                before_1,
                sender_1,
                contract_1,
                route_1,
                token_in_1,
                token_out_1,
                amount_in_1,
                minimum_1,
            ),
        ) < issued_route_id(
            route_swap_outcome(
                registry_2,
                before_2,
                sender_2,
                contract_2,
                route_2,
                token_in_2,
                token_out_2,
                amount_in_2,
                minimum_2,
            ),
        ),
{
}

/// A registered route carries the hops it was validated with: one wanted
/// lock per hop, in order, each naming the hop resolved from the registry at
/// registration.
pub proof fn lemma_route_keeps_validated_hops(
    registry: Seq<SwapContractInfo>,
    tracker: TrackerView,
    sender: Address,
    contract_address: Address,
    swap_route: Seq<Address>,
    token_in: Address,
    token_out: Address,
    amount_in: TokenAmount,
    amount_out_minimum: TokenAmount,
)
    requires
        route_swap_outcome(
            registry,
            tracker,
            sender,
            contract_address,
            swap_route,
            token_in,
            token_out,
            amount_in,
            amount_out_minimum,
        ) is Ok,
    ensures
        ({
            let hops = validated_route(swap_route, registry, token_in, token_out)->Ok_0;
            let stored = route_swap_outcome(
                registry,
                tracker,
                sender,
                contract_address,
                swap_route,
                token_in,
                token_out,
                amount_in,
                amount_out_minimum,
            )->Ok_0.0.routes[tracker.next_route_id];
            &&& stored.locks_wanted.len() == hops.len()
            &&& forall|i: int| 0 <= i < hops.len() ==> #[trigger] stored.locks_wanted[i].swap_info == hops[i]
            &&& stored.locks_waiting_for_execution.len() == 0
        }),
{
}

/// Registry isolation: two routers whose route stores agree run every step
/// of a route alike, whatever their pool registries hold. Since an edit of
/// the registry leaves the route store as it was (see
/// [`add_swap_contract`]), a route runs on the hops it captured when it was
/// validated, even where the registry has changed since.
pub proof fn lemma_steps_ignore_registry(
    before: &RouterState,
    after: &RouterState,
    success: bool,
    acquired: Option<AcquiredLiquidityLockInformation>,
    route_id: RouteId,
    amount: TokenAmount,
)
    requires
        before.route_tracker@ == after.route_tracker@,
    ensures
        start_lock_chain_outcome(before.route_tracker@, success, route_id)
            == start_lock_chain_outcome(after.route_tracker@, success, route_id),
        lock_route_outcome(before.route_tracker@, success, acquired, route_id)
            == lock_route_outcome(after.route_tracker@, success, acquired, route_id),
        approve_outcome(before.route_tracker@, route_id, amount) == approve_outcome(
            after.route_tracker@,
            route_id,
            amount,
        ),
        deposit_outcome(before.route_tracker@, route_id) == deposit_outcome(
            after.route_tracker@,
            route_id,
        ),
        receive_output_amount_outcome(before.route_tracker@, route_id, amount)
            == receive_output_amount_outcome(after.route_tracker@, route_id, amount),
        execute_route_outcome(before.route_tracker@, route_id, amount) == execute_route_outcome(
            after.route_tracker@,
            route_id,
            amount,
        ),
{
}

} // verus!
