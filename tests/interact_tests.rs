use swap_router::{
    Address, AddressType, EventBatch, Interaction, MPC20Contract, RouterCallback, SwapContract,
    SwapLockContract,
};

fn addr(n: u8) -> Address {
    Address { address_type: AddressType::PublicContract, identifier: [n; 20] }
}

#[test]
fn token_calls_are_appended_in_order() {
    let token = MPC20Contract::at_address(addr(1));
    let mut batch = EventBatch::new();
    token.transfer(&mut batch, &addr(2), 10);
    token.transfer_from(&mut batch, &addr(3), &addr(4), 20);
    token.approve(&mut batch, &addr(5), 30);
    token.approve_relative(&mut batch, &addr(6), -40);
    assert_eq!(
        batch.calls,
        vec![
            Interaction::Transfer { token: addr(1), receiver: addr(2), amount: 10 },
            Interaction::TransferFrom {
                token: addr(1),
                sender: addr(3),
                receiver: addr(4),
                amount: 20,
            },
            Interaction::Approve { token: addr(1), spender: addr(5), amount: 30 },
            Interaction::ApproveRelative { token: addr(1), spender: addr(6), delta: -40 },
        ]
    );
    assert_eq!(batch.callback, None);
    assert_eq!(batch.callback_cost, None);
}

#[test]
fn pool_and_lock_calls_name_their_contract() {
    let mut batch = EventBatch::new();
    SwapContract::at_address(addr(7)).deposit(&mut batch, &addr(1), 5);
    SwapContract::at_address(addr(7)).withdraw(&mut batch, &addr(2), 6, true);
    let locks = SwapLockContract::at_address(addr(8));
    locks.acquire_swap_lock(&mut batch, &addr(1), 100, 90);
    locks.execute_lock(&mut batch, 3);
    locks.cancel_lock(&mut batch, 4);
    batch.with_callback(RouterCallback::Deposit { route_id: 9 });
    batch.with_cost(1234);
    assert_eq!(
        batch.calls,
        vec![
            Interaction::Deposit { pool: addr(7), token: addr(1), amount: 5 },
            Interaction::Withdraw { pool: addr(7), token: addr(2), amount: 6, wait_for_callback: true },
            Interaction::AcquireSwapLock {
                pool: addr(8),
                token_in: addr(1),
                amount_in: 100,
                amount_out_minimum: 90,
            },
            Interaction::ExecuteLockSwap { pool: addr(8), lock_id: 3 },
            Interaction::CancelLock { pool: addr(8), lock_id: 4 },
        ]
    );
    assert_eq!(batch.callback, Some(RouterCallback::Deposit { route_id: 9 }));
    assert_eq!(batch.callback_cost, Some(1234));
}
