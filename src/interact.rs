//! Builders for the calls the router makes to its collaborators: token
//! ledgers, swap pools and swap-lock contracts.

use vstd::prelude::*;

use crate::address::Address;
use crate::events::{EventBatch, EventBatchView, Interaction, LiquidityLockId, TokenAmount};

verus! {

/// A token ledger contract.
pub struct MPC20Contract {
    pub contract_address: Address,
}

/// A swap pool contract.
pub struct SwapContract {
    pub contract_address: Address,
}

/// A swap pool contract that also sells price locks.
pub struct SwapLockContract {
    pub swap_address: Address,
}

/// `batch` with `call` appended to its calls, and nothing else changed.
pub open spec fn appended(batch: EventBatchView, call: Interaction) -> EventBatchView {
    EventBatchView { calls: batch.calls.push(call), ..batch }
}

impl MPC20Contract {
    /// The ledger at `contract_address`.
    pub fn at_address(contract_address: Address) -> (r: Self)
        ensures
            r.contract_address == contract_address,
    {
        MPC20Contract { contract_address }
    }

    /// Issues a transfer of `amount` tokens from the caller to `receiver`.
    pub fn transfer(&self, batch: &mut EventBatch, receiver: &Address, amount: TokenAmount)
        ensures
            final(batch)@ == appended(
                old(batch)@,
                Interaction::Transfer { token: self.contract_address, receiver: *receiver, amount },
            ),
    {
        batch.call(
            Interaction::Transfer { token: self.contract_address, receiver: *receiver, amount },
        );
    }

    /// Issues a transfer of `amount` tokens from `sender` to `receiver`, which
    /// needs an allowance from `sender` to the caller.
    pub fn transfer_from(
        &self,
        batch: &mut EventBatch,
        sender: &Address,
        receiver: &Address,
        amount: TokenAmount,
    )
        ensures
            final(batch)@ == appended(
                old(batch)@,
                Interaction::TransferFrom {
                    token: self.contract_address,
                    sender: *sender,
                    receiver: *receiver,
                    amount,
                },
            ),
    {
        batch.call(
            Interaction::TransferFrom {
                token: self.contract_address,
                sender: *sender,
                receiver: *receiver,
                amount,
            },
        );
    }

    /// Issues an approval letting `approved` move up to `approval_amount` of
    /// the caller's tokens.
    pub fn approve(&self, batch: &mut EventBatch, approved: &Address, approval_amount: TokenAmount)
        ensures
            final(batch)@ == appended(
                old(batch)@,
                Interaction::Approve {
                    token: self.contract_address,
                    spender: *approved,
                    amount: approval_amount,
                },
            ),
    {
        batch.call(
            Interaction::Approve {
                token: self.contract_address,
                spender: *approved,
                amount: approval_amount,
            },
        );
    }

    /// Issues a change by `approval_amount` of the allowance of `approved`.
    pub fn approve_relative(&self, batch: &mut EventBatch, approved: &Address, approval_amount: i128)
        ensures
            final(batch)@ == appended(
                old(batch)@,
                Interaction::ApproveRelative {
                    token: self.contract_address,
                    spender: *approved,
                    delta: approval_amount,
                },
            ),
    {
        batch.call(
            Interaction::ApproveRelative {
                token: self.contract_address,
                spender: *approved,
                delta: approval_amount,
            },
        );
    }
}

impl SwapContract {
    /// The pool at `contract_address`.
    pub fn at_address(contract_address: Address) -> (r: Self)
        ensures
            r.contract_address == contract_address,
    {
        SwapContract { contract_address }
    }

    /// Issues a deposit of `amount` of `token` into the pool.
    pub fn deposit(&self, batch: &mut EventBatch, token: &Address, amount: TokenAmount)
        ensures
            final(batch)@ == appended(
                old(batch)@,
                Interaction::Deposit { pool: self.contract_address, token: *token, amount },
            ),
    {
        batch.call(Interaction::Deposit { pool: self.contract_address, token: *token, amount });
    }

    /// Issues a withdrawal of `amount` of `token` from the pool. With
    /// `wait_for_callback`, the continuation of the batch runs only after the
    /// tokens have arrived.
    pub fn withdraw(
        &self,
        batch: &mut EventBatch,
        token: &Address,
        amount: TokenAmount,
        wait_for_callback: bool,
    )
        ensures
            final(batch)@ == appended(
                old(batch)@,
                Interaction::Withdraw {
                    pool: self.contract_address,
                    token: *token,
                    amount,
                    wait_for_callback,
                },
            ),
    {
        batch.call(
            Interaction::Withdraw {
                pool: self.contract_address,
                token: *token,
                amount,
                wait_for_callback,
            },
        );
    }
}

impl SwapLockContract {
    /// The swap-lock contract at `swap_address`.
    pub fn at_address(swap_address: Address) -> (r: Self)
        ensures
            r.swap_address == swap_address,
    {
        SwapLockContract { swap_address }
    }

    /// Issues a request for a lock on an exchange of `amount_in` of
    /// `token_in` that yields at least `amount_out_minimum`.
    pub fn acquire_swap_lock(
        &self,
        batch: &mut EventBatch,
        token_in: &Address,
        amount_in: TokenAmount,
        amount_out_minimum: TokenAmount,
    )
        ensures
            final(batch)@ == appended(
                old(batch)@,
                Interaction::AcquireSwapLock {
                    pool: self.swap_address,
                    token_in: *token_in,
                    amount_in,
                    amount_out_minimum,
                },
            ),
    {
        batch.call(
            Interaction::AcquireSwapLock {
                pool: self.swap_address,
                token_in: *token_in,
                amount_in,
                amount_out_minimum,
            },
        );
    }

    /// Issues the execution of the lock `lock_id`.
    pub fn execute_lock(&self, batch: &mut EventBatch, lock_id: LiquidityLockId)
        ensures
            final(batch)@ == appended(
                old(batch)@,
                Interaction::ExecuteLockSwap { pool: self.swap_address, lock_id },
            ),
    {
        batch.call(Interaction::ExecuteLockSwap { pool: self.swap_address, lock_id });
    }

    /// Issues the cancellation of the lock `lock_id`.
    pub fn cancel_lock(&self, batch: &mut EventBatch, lock_id: LiquidityLockId)
        ensures
            final(batch)@ == appended(
                old(batch)@,
                Interaction::CancelLock { pool: self.swap_address, lock_id },
            ),
    {
        batch.call(Interaction::CancelLock { pool: self.swap_address, lock_id });
    }
}

} // verus!
