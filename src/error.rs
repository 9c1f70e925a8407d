use vstd::prelude::*;

use crate::events::RouteId;

verus! {

/// Why a router operation was refused.
#[derive(Clone, Copy, Debug, PartialEq, Eq, Structural)]
pub enum RouterError {
    /// The route names no pool.
    EmptyRoute,
    /// The route names more pools than a route may have.
    RouteTooLong { length: usize },
    /// The pool at this position of the route is not in the registry.
    UnknownSwapAddress { hop_index: usize },
    /// Neither token of the pool at this position is the token that arrives there.
    TokenMismatch { hop_index: usize },
    /// The route ends in another token than the one asked for.
    OutputTokenMismatch,
    /// No route with this id is in flight.
    UnknownRoute { route_id: RouteId },
    /// The user's tokens could not be taken into custody.
    CouldNotTakeControlOfTokens,
    /// A lock could not be acquired; the route was cancelled and refunded.
    CouldNotAcquireAllLocks,
    /// The route has no lock left to acquire where one was expected.
    NoWantedLock,
    /// The route has no acquired lock left where one was expected.
    NoPendingLock,
    /// The route has no withdrawal pending where one was expected.
    NoPendingWithdraw,
    /// Every route id has been handed out.
    RouteIdsExhausted,
    /// The sender may not change the pool registry.
    PermissionDenied,
}

} // verus!
