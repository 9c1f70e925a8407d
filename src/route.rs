//! The data of routes in flight: resolved hops, the two lock queues of a
//! route, and the store that maps route ids to their progress records.

use vstd::prelude::*;

use std::collections::VecDeque;

use crate::address::Address;
use crate::events::{LiquidityLockId, RouteId, TokenAmount};

verus! {

/// One resolved leg of a route: where to swap, and in which direction.
#[derive(Clone, Copy, Debug, PartialEq, Eq)]
pub struct SwapInformation {
    /// The pool to swap at.
    pub swap_address: Address,
    /// The token put into the pool.
    pub token_in: Address,
    /// The token taken out of the pool.
    pub token_out: Address,
}

/// A pool known to the router, with the two tokens it trades.
#[derive(Clone, Copy, Debug, PartialEq, Eq)]
pub struct SwapContractInfo {
    /// The pool's address.
    pub swap_address: Address,
    /// The token the pool calls its A token.
    pub token_a_address: Address,
    /// The token the pool calls its B token.
    pub token_b_address: Address,
}

/// A hop whose lock is still to be acquired.
#[derive(Clone, Copy, Debug, PartialEq, Eq)]
pub struct WantedLockInfo {
    /// The hop the lock is for.
    pub swap_info: SwapInformation,
    /// How much of `swap_info.token_in` goes in.
    pub amount_in: TokenAmount,
    /// The least amount of `swap_info.token_out` that must come out.
    pub amount_out_minimum: TokenAmount,
}

/// A hop whose lock was acquired and is still to be executed.
#[derive(Clone, Copy, Debug, PartialEq, Eq)]
pub struct AcquiredLockInfo {
    /// The hop the lock is for.
    pub swap_info: SwapInformation,
    /// The lock's id at the pool.
    pub lock_id: LiquidityLockId,
}

/// What a pool reports for a lock it granted.
#[derive(Clone, Copy, Debug, PartialEq, Eq, Structural)]
pub struct AcquiredLiquidityLockInformation {
    /// The lock's id at the pool.
    pub lock_id: LiquidityLockId,
    /// The amount the exchange is guaranteed to yield.
    pub amount_out: TokenAmount,
}

/// A withdrawal that follows the execution of a lock.
#[derive(Clone, Copy, Debug, PartialEq, Eq)]
pub struct PendingWithdrawInfo {
    /// The pool that holds the output.
    pub swap_address: Address,
    /// The token to withdraw.
    pub withdraw_token: Address,
}

/// The progress record of one route.
pub struct RouteInformation {
    /// The user the route runs for.
    pub user: Address,
    /// The amount put into the route.
    pub initial_amount_in: TokenAmount,
    /// The token put into the route.
    pub initial_token_in: Address,
    /// The amount that came out of the latest executed lock.
    pub final_received_amount: TokenAmount,
    /// The token that comes out of the route.
    pub final_token_out: Address,
    /// Locks still to be acquired, front first.
    pub locks_wanted: VecDeque<WantedLockInfo>,
    /// Locks acquired and still to be executed, in order of acquisition.
    pub locks_waiting_for_execution: VecDeque<AcquiredLockInfo>,
    /// The withdrawal that follows the lock executed last, if any.
    pub pending_withdraw: Option<PendingWithdrawInfo>,
}

/// The mathematical content of a [`RouteInformation`].
pub ghost struct RouteView {
    pub user: Address,
    pub initial_amount_in: TokenAmount,
    pub initial_token_in: Address,
    pub final_received_amount: TokenAmount,
    pub final_token_out: Address,
    pub locks_wanted: Seq<WantedLockInfo>,
    pub locks_waiting_for_execution: Seq<AcquiredLockInfo>,
    pub pending_withdraw: Option<PendingWithdrawInfo>,
}

impl View for RouteInformation {
    type V = RouteView;

    open spec fn view(&self) -> RouteView {
        RouteView {
            user: self.user,
            initial_amount_in: self.initial_amount_in,
            initial_token_in: self.initial_token_in,
            final_received_amount: self.final_received_amount,
            final_token_out: self.final_token_out,
            locks_wanted: self.locks_wanted@,
            locks_waiting_for_execution: self.locks_waiting_for_execution@,
            pending_withdraw: self.pending_withdraw,
        }
    }
}

/// The wanted locks of a fresh route over `route`: the first carries the
/// route's input amount, the last its minimum output, all others zero.
pub open spec fn initial_wanted_locks(
    route: Seq<SwapInformation>,
    amount_in: TokenAmount,
    amount_out_minimum: TokenAmount,
) -> Seq<WantedLockInfo> {
    Seq::new(
        route.len(),
        |i: int|
            WantedLockInfo {
                swap_info: route[i],
                amount_in: if i == 0 {
                    amount_in
                } else {
                    0
                },
                amount_out_minimum: if i == route.len() - 1 {
                    amount_out_minimum
                } else {
                    0
                },
            },
    )
}

/// The record of a fresh route over the non-empty `route`.
pub open spec fn new_route(
    route: Seq<SwapInformation>,
    initial_amount_in: TokenAmount,
    amount_out_minimum: TokenAmount,
    user: Address,
) -> RouteView {
    RouteView {
        user,
        initial_amount_in,
        initial_token_in: route[0].token_in,
        final_received_amount: 0,
        final_token_out: route.last().token_out,
        locks_wanted: initial_wanted_locks(route, initial_amount_in, amount_out_minimum),
        locks_waiting_for_execution: seq![],
        pending_withdraw: None,
    }
}

/// `route` with the amount put into its next wanted lock set to `amount_in`;
/// unchanged when no lock is wanted.
pub open spec fn with_next_amount_in(route: RouteView, amount_in: TokenAmount) -> RouteView {
    if route.locks_wanted.len() == 0 {
        route
    } else {
        RouteView {
            locks_wanted: route.locks_wanted.update(
                0,
                WantedLockInfo { amount_in, ..route.locks_wanted[0] },
            ),
            ..route
        }
    }
}

impl RouteInformation {
    /// Readies a route over the hops of `route` for `user`: one wanted lock per
    /// hop, in order, the first putting in `initial_amount_in` and the last
    /// asking for at least `amount_out_minimum`.
    pub fn new(
        route: Vec<SwapInformation>,
        initial_amount_in: TokenAmount,
        amount_out_minimum: TokenAmount,
        user: Address,
    ) -> (r: Self)
        requires
            route.len() > 0,
        ensures
            r@ == new_route(route@, initial_amount_in, amount_out_minimum, user),
    {
        let initial_token_in = route[0].token_in;
        let final_token_out = route[route.len() - 1].token_out;
        let n = route.len();
        let mut locks_wanted: VecDeque<WantedLockInfo> = VecDeque::with_capacity(n);
        let mut i: usize = 0;
        while i < n
            invariant
                n == route.len(),
                0 <= i <= n,
                locks_wanted@ =~= initial_wanted_locks(
                    route@,
                    initial_amount_in,
                    amount_out_minimum,
                ).take(i as int),
            decreases n - i,
        {
            let amount_in = if i == 0 {
                initial_amount_in
            } else {
                0
            };
            let amount_out = if i == n - 1 {
                amount_out_minimum
            } else {
                0
            };
            locks_wanted.push_back(
                WantedLockInfo { swap_info: route[i], amount_in, amount_out_minimum: amount_out },
            );
            i = i + 1;
        }
        proof {
            assert(locks_wanted@ =~= initial_wanted_locks(
                route@,
                initial_amount_in,
                amount_out_minimum,
            ));
        }
        let locks_waiting_for_execution: VecDeque<AcquiredLockInfo> = VecDeque::new();
        assert(locks_waiting_for_execution@ =~= seq![]);
        RouteInformation {
            user,
            initial_amount_in,
            initial_token_in,
            final_received_amount: 0,
            final_token_out,
            locks_wanted,
            locks_waiting_for_execution,
            pending_withdraw: None,
        }
    }

    /// Removes and returns the next lock to acquire; `None` when none is left.
    pub fn pop_next_wanted_lock(&mut self) -> (r: Option<WantedLockInfo>)
        ensures
            old(self)@.locks_wanted.len() == 0 ==> r is None && final(self)@ == old(self)@,
            old(self)@.locks_wanted.len() > 0 ==> r == Some(old(self)@.locks_wanted[0])
                && final(self)@ == (RouteView {
                locks_wanted: old(self)@.locks_wanted.drop_first(),
                ..old(self)@
            }),
    {
        let r = self.locks_wanted.pop_front();
        proof {
            if r is Some {
                assert(self@ =~= (RouteView {
                    locks_wanted: old(self)@.locks_wanted.drop_first(),
                    ..old(self)@
                }));
            }
        }
        r
    }

    /// The next lock to acquire; `None` when none is left.
    pub fn peek_next_wanted_lock(&self) -> (r: Option<&WantedLockInfo>)
        ensures
            self@.locks_wanted.len() == 0 ==> r is None,
            self@.locks_wanted.len() > 0 ==> r == Some(&self@.locks_wanted[0]),
    {
        if self.locks_wanted.len() == 0 {
            None
        } else {
            Some(&self.locks_wanted[0])
        }
    }

    /// Records a newly acquired lock `lock_id` for the hop `swap_info`, behind
    /// the locks acquired before it.
    pub fn update_next_pending_lock_id(&mut self, swap_info: SwapInformation, lock_id: LiquidityLockId)
        ensures
            final(self)@ == (RouteView {
                locks_waiting_for_execution: old(self)@.locks_waiting_for_execution.push(
                    AcquiredLockInfo { swap_info, lock_id },
                ),
                ..old(self)@
            }),
    {
        self.locks_waiting_for_execution.push_back(AcquiredLockInfo { swap_info, lock_id });
    }

    /// Sets the amount put into the next wanted lock to `amount_in`, if any
    /// lock is wanted.
    pub fn update_next_wanted_lock_amount_in(&mut self, amount_in: TokenAmount)
        ensures
            final(self)@ == with_next_amount_in(old(self)@, amount_in),
    {
        if let Some(lock) = self.locks_wanted.pop_front() {
            self.locks_wanted.push_front(WantedLockInfo { amount_in, ..lock });
            proof {
                assert(self@.locks_wanted =~= old(self)@.locks_wanted.update(
                    0,
                    WantedLockInfo { amount_in, ..old(self)@.locks_wanted[0] },
                ));
            }
        }
    }

    /// The next lock to execute; `None` when none is left.
    pub fn peek_next_pending_lock(&self) -> (r: Option<&AcquiredLockInfo>)
        ensures
            self@.locks_waiting_for_execution.len() == 0 ==> r is None,
            self@.locks_waiting_for_execution.len() > 0 ==> r == Some(
                &self@.locks_waiting_for_execution[0],
            ),
    {
        if self.locks_waiting_for_execution.len() == 0 {
            None
        } else {
            Some(&self.locks_waiting_for_execution[0])
        }
    }

    /// Removes and returns the next lock to execute; `None` when none is left.
    pub fn take_next_pending_lock(&mut self) -> (r: Option<AcquiredLockInfo>)
        ensures
            old(self)@.locks_waiting_for_execution.len() == 0 ==> r is None && final(self)@ == old(
                self,
            )@,
            old(self)@.locks_waiting_for_execution.len() > 0 ==> r == Some(
                old(self)@.locks_waiting_for_execution[0],
            ) && final(self)@ == (RouteView {
                locks_waiting_for_execution: old(self)@.locks_waiting_for_execution.drop_first(),
                ..old(self)@
            }),
    {
        let r = self.locks_waiting_for_execution.pop_front();
        proof {
            if r is Some {
                assert(self@ =~= (RouteView {
                    locks_waiting_for_execution: old(
                        self,
                    )@.locks_waiting_for_execution.drop_first(),
                    ..old(self)@
                }));
            }
        }
        r
    }

    /// Records the withdrawal that follows the lock just executed.
    pub fn update_pending_withdraw(&mut self, pending_withdraw: PendingWithdrawInfo)
        ensures
            final(self)@ == (RouteView { pending_withdraw: Some(pending_withdraw), ..old(self)@ }),
    {
        self.pending_withdraw = Some(pending_withdraw);
    }

    /// Removes and returns the pending withdrawal, if any.
    pub fn take_pending_withdraw(&mut self) -> (r: Option<PendingWithdrawInfo>)
        ensures
            r == old(self)@.pending_withdraw,
            final(self)@ == (RouteView { pending_withdraw: None, ..old(self)@ }),
    {
        self.pending_withdraw.take()
    }

    /// Records `amount_out` as the amount the route has produced so far.
    pub fn update_final_amount_out(&mut self, amount_out: TokenAmount)
        ensures
            final(self)@ == (RouteView { final_received_amount: amount_out, ..old(self)@ }),
    {
        self.final_received_amount = amount_out;
    }
}

/// Whether each of `hops` takes in what the one before it puts out.
pub open spec fn hops_chain(hops: Seq<SwapInformation>) -> bool {
    forall|i: int| 0 <= i < hops.len() - 1 ==> #[trigger] hops[i].token_out == hops[i + 1].token_in
}

/// The hops of `route` still to run: those with an acquired lock, in order,
/// then those whose lock is still wanted.
pub open spec fn remaining_hops(route: RouteView) -> Seq<SwapInformation> {
    route.locks_waiting_for_execution.map_values(|l: AcquiredLockInfo| l.swap_info)
        + route.locks_wanted.map_values(|w: WantedLockInfo| w.swap_info)
}

/// The invariant of a route in flight: the hops still to run chain, and the
/// last of them puts out the route's output token.
pub open spec fn route_wf(route: RouteView) -> bool {
    &&& hops_chain(remaining_hops(route))
    &&& remaining_hops(route).len() > 0 ==> remaining_hops(route).last().token_out
        == route.final_token_out
}

/// A fresh route runs exactly the hops it was made from.
pub proof fn lemma_new_route_hops(
    route: Seq<SwapInformation>,
    initial_amount_in: TokenAmount,
    amount_out_minimum: TokenAmount,
    user: Address,
)
    requires
        route.len() > 0,
    ensures
        remaining_hops(new_route(route, initial_amount_in, amount_out_minimum, user)) == route,
{
    let r = new_route(route, initial_amount_in, amount_out_minimum, user);
    assert(remaining_hops(r) =~= route);
}

/// Setting the amount of the next wanted lock leaves the hops as they are.
pub proof fn lemma_amount_update_keeps_hops(route: RouteView, amount_in: TokenAmount)
    ensures
        remaining_hops(with_next_amount_in(route, amount_in)) == remaining_hops(route),
        with_next_amount_in(route, amount_in).final_token_out == route.final_token_out,
{
    assert(remaining_hops(with_next_amount_in(route, amount_in)) =~= remaining_hops(route));
}

} // verus!
