use vstd::prelude::*;

use crate::address::Address;

verus! {

/// An amount of some fungible token.
pub type TokenAmount = u128;

/// Identifier of a price lock held at a swap-lock contract.
pub type LiquidityLockId = u128;

/// Handle of a route in flight.
pub type RouteId = u128;

/// An amount of metered computation.
pub type GasCost = u64;

/// One outgoing call to another contract.
#[derive(Clone, Copy, Debug, PartialEq, Eq)]
pub enum Interaction {
    /// Token ledger: move `amount` from the caller to `receiver`.
    Transfer { token: Address, receiver: Address, amount: TokenAmount },
    /// Token ledger: move `amount` from `sender` to `receiver`, within an allowance.
    TransferFrom { token: Address, sender: Address, receiver: Address, amount: TokenAmount },
    /// Token ledger: let `spender` move up to `amount` of the caller's tokens.
    Approve { token: Address, spender: Address, amount: TokenAmount },
    /// Token ledger: change the allowance of `spender` by `delta`.
    ApproveRelative { token: Address, spender: Address, delta: i128 },
    /// Swap pool: credit the caller's pool balance with `amount` of `token`.
    Deposit { pool: Address, token: Address, amount: TokenAmount },
    /// Swap pool: pay `amount` of `token` out of the caller's pool balance.
    Withdraw { pool: Address, token: Address, amount: TokenAmount, wait_for_callback: bool },
    /// Swap lock: reserve a priced exchange of `amount_in` of `token_in`.
    AcquireSwapLock {
        pool: Address,
        token_in: Address,
        amount_in: TokenAmount,
        amount_out_minimum: TokenAmount,
    },
    /// Swap lock: perform a reserved exchange.
    ExecuteLockSwap { pool: Address, lock_id: LiquidityLockId },
    /// Swap lock: release a reservation without performing it.
    CancelLock { pool: Address, lock_id: LiquidityLockId },
}

impl Interaction {
    /// The dispatch code of the called operation at the target contract.
    pub fn shortname(&self) -> (r: u32)
        ensures
            self is Transfer ==> r == 0x01,
            self is TransferFrom ==> r == 0x03,
            self is Approve ==> r == 0x05,
            self is ApproveRelative ==> r == 0x07,
            self is Deposit ==> r == 0x01,
            self is Withdraw ==> r == 0x03,
            self is AcquireSwapLock ==> r == 0x07,
            self is ExecuteLockSwap ==> r == 0x08,
            self is CancelLock ==> r == 0x09,
    {
        match self {
            Interaction::Transfer { .. } => 0x01,
            Interaction::TransferFrom { .. } => 0x03,
            Interaction::Approve { .. } => 0x05,
            Interaction::ApproveRelative { .. } => 0x07,
            Interaction::Deposit { .. } => 0x01,
            Interaction::Withdraw { .. } => 0x03,
            Interaction::AcquireSwapLock { .. } => 0x07,
            Interaction::ExecuteLockSwap { .. } => 0x08,
            Interaction::CancelLock { .. } => 0x09,
        }
    }
}

/// A continuation of the router: the step that runs once every call of its
/// batch has completed.
#[derive(Clone, Copy, Debug, PartialEq, Eq, Structural)]
pub enum RouterCallback {
    /// Custody of the input tokens was requested.
    StartLockChain { route_id: RouteId },
    /// A lock was requested.
    LockRoute { route_id: RouteId },
    /// A withdrawal of `last_output` tokens was requested.
    ExecuteRoute { route_id: RouteId, last_output: TokenAmount },
    /// An approval was requested; `last_output` tokens are to be deposited next.
    Approve { route_id: RouteId, last_output: TokenAmount },
    /// A deposit was requested.
    Deposit { route_id: RouteId },
    /// The execution of a lock was requested.
    ReceiveOutputAmount { route_id: RouteId },
    /// Compensation was issued; the route is to be reported as failed.
    CouldNotAcquireLockError,
}

impl RouterCallback {
    /// The dispatch code of the continuation at the router.
    pub fn shortname(&self) -> (r: u32)
        ensures
            self is StartLockChain ==> r == 0x20,
            self is LockRoute ==> r == 0x03,
            self is ExecuteRoute ==> r == 0x04,
            self is Approve ==> r == 0x15,
            self is Deposit ==> r == 0x16,
            self is ReceiveOutputAmount ==> r == 0x05,
            self is CouldNotAcquireLockError ==> r == 0x07,
    {
        match self {
            RouterCallback::StartLockChain { .. } => 0x20,
            RouterCallback::LockRoute { .. } => 0x03,
            RouterCallback::ExecuteRoute { .. } => 0x04,
            RouterCallback::Approve { .. } => 0x15,
            RouterCallback::Deposit { .. } => 0x16,
            RouterCallback::ReceiveOutputAmount { .. } => 0x05,
            RouterCallback::CouldNotAcquireLockError => 0x07,
        }
    }
}

/// What one step issues: outgoing calls, applied in order, and at most one
/// continuation that runs after all of them, with an optional gas budget.
pub struct EventBatch {
    pub calls: Vec<Interaction>,
    pub callback: Option<RouterCallback>,
    pub callback_cost: Option<GasCost>,
}

/// The mathematical content of an [`EventBatch`].
pub ghost struct EventBatchView {
    pub calls: Seq<Interaction>,
    pub callback: Option<RouterCallback>,
    pub callback_cost: Option<GasCost>,
}

impl View for EventBatch {
    type V = EventBatchView;

    open spec fn view(&self) -> EventBatchView {
        EventBatchView {
            calls: self.calls@,
            callback: self.callback,
            callback_cost: self.callback_cost,
        }
    }
}

impl EventBatch {
    /// An empty batch: no calls and no continuation.
    pub fn new() -> (r: EventBatch)
        ensures
            r@ == (EventBatchView { calls: seq![], callback: None, callback_cost: None }),
    {
        EventBatch { calls: Vec::new(), callback: None, callback_cost: None }
    }

    /// Appends an outgoing call.
    pub fn call(&mut self, interaction: Interaction)
        ensures
            final(self)@ == (EventBatchView { calls: old(self)@.calls.push(interaction), ..old(self)@ }),
    {
        self.calls.push(interaction);
    }

    /// Sets the continuation of the batch.
    pub fn with_callback(&mut self, callback: RouterCallback)
        ensures
            final(self)@ == (EventBatchView { callback: Some(callback), ..old(self)@ }),
    {
        self.callback = Some(callback);
    }

    /// Sets the gas budget handed to the continuation.
    pub fn with_cost(&mut self, cost: GasCost)
        ensures
            final(self)@ == (EventBatchView { callback_cost: Some(cost), ..old(self)@ }),
    {
        self.callback_cost = Some(cost);
    }
}

} // verus!
