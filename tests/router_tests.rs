use swap_router::gas::{
    GAS_COST_ACQUIRE_SWAP_LOCK, GAS_COST_CANCEL_LOCK, INTERNAL_GAS_COST_CANCEL_LOCK_ERROR_CALLBACK,
    INTERNAL_GAS_COST_LOCK_ROUTE_CALLBACK, INTERNAL_GAS_COST_START_LOCK_CHAIN_CALLBACK,
};
use swap_router::{
    add_swap_contract, approve_callback, calculate_min_total_gas_cost,
    could_not_acquire_lock_error, deposit_callback, execute_route_callback, initialize,
    lock_route_callback, receive_output_amount_callback, route_swap, start_lock_chain_callback,
    validate_route_and_add_info, AcquiredLiquidityLockInformation, Address, AddressType,
    EventBatch, Interaction, Permission, RouterCallback, RouterError, RouterState,
    SwapContractInfo, SwapInformation, MAX_ROUTE_LENGTH,
};

fn addr(n: u8) -> Address {
    Address { address_type: AddressType::PublicContract, identifier: [n; 20] }
}

fn account(n: u8) -> Address {
    Address { address_type: AddressType::Account, identifier: [n; 20] }
}

const TOKEN_A: u8 = 1;
const TOKEN_B: u8 = 2;
const TOKEN_C: u8 = 3;
const POOL_1: u8 = 11;
const POOL_2: u8 = 12;
const ROUTER: u8 = 99;
const USER: u8 = 42;

fn pool(swap: u8, a: u8, b: u8) -> SwapContractInfo {
    SwapContractInfo {
        swap_address: addr(swap),
        token_a_address: addr(a),
        token_b_address: addr(b),
    }
}

fn registry() -> Vec<SwapContractInfo> {
    vec![pool(POOL_1, TOKEN_A, TOKEN_B), pool(POOL_2, TOKEN_B, TOKEN_C)]
}

fn router() -> RouterState {
    initialize(Permission::Anybody, registry())
}

fn start_a_to_c(state: &mut RouterState) -> Result<EventBatch, RouterError> {
    route_swap(
        state,
        account(USER),
        addr(ROUTER),
        &vec![addr(POOL_1), addr(POOL_2)],
        addr(TOKEN_A),
        addr(TOKEN_C),
        100,
        90,
    )
}

fn lock(lock_id: u128, amount_out: u128) -> Option<AcquiredLiquidityLockInformation> {
    Some(AcquiredLiquidityLockInformation { lock_id, amount_out })
}

fn hop(swap: u8, token_in: u8, token_out: u8) -> SwapInformation {
    SwapInformation {
        swap_address: addr(swap),
        token_in: addr(token_in),
        token_out: addr(token_out),
    }
}

#[test]
fn validated_hops_chain_from_input_to_output() {
    let hops = validate_route_and_add_info(
        &vec![addr(POOL_1), addr(POOL_2)],
        &registry(),
        addr(TOKEN_A),
        addr(TOKEN_C),
    )
    .unwrap();
    assert_eq!(hops, vec![hop(POOL_1, TOKEN_A, TOKEN_B), hop(POOL_2, TOKEN_B, TOKEN_C)]);
    assert_eq!(hops[0].token_in, addr(TOKEN_A));
    assert_eq!(hops[0].token_out, hops[1].token_in);
    assert_eq!(hops[1].token_out, addr(TOKEN_C));
}

#[test]
fn validated_hops_follow_pools_backwards() {
    let hops = validate_route_and_add_info(
        &vec![addr(POOL_2), addr(POOL_1)],
        &registry(),
        addr(TOKEN_C),
        addr(TOKEN_A),
    )
    .unwrap();
    assert_eq!(hops, vec![hop(POOL_2, TOKEN_C, TOKEN_B), hop(POOL_1, TOKEN_B, TOKEN_A)]);
}

#[test]
fn validation_uses_the_first_registry_entry() {
    let mut reg = registry();
    reg.push(pool(POOL_1, TOKEN_C, TOKEN_A));
    let hops =
        validate_route_and_add_info(&vec![addr(POOL_1)], &reg, addr(TOKEN_A), addr(TOKEN_B))
            .unwrap();
    assert_eq!(hops, vec![hop(POOL_1, TOKEN_A, TOKEN_B)]);
}

#[test]
fn validation_refuses_an_empty_route() {
    let r = validate_route_and_add_info(&vec![], &registry(), addr(TOKEN_A), addr(TOKEN_C));
    assert_eq!(r, Err(RouterError::EmptyRoute));
}

#[test]
fn validation_refuses_an_unknown_pool() {
    let r = validate_route_and_add_info(
        &vec![addr(POOL_1), addr(77)],
        &registry(),
        addr(TOKEN_A),
        addr(TOKEN_C),
    );
    assert_eq!(r, Err(RouterError::UnknownSwapAddress { hop_index: 1 }));
}

#[test]
fn validation_refuses_a_broken_chain() {
    let r = validate_route_and_add_info(
        &vec![addr(POOL_1), addr(POOL_1)],
        &registry(),
        addr(TOKEN_A),
        addr(TOKEN_C),
    );
    // The second hop receives B through pool 1 again, which gives back A, not C.
    assert_eq!(r, Err(RouterError::OutputTokenMismatch));
    let r = validate_route_and_add_info(
        &vec![addr(POOL_2)],
        &registry(),
        addr(TOKEN_A),
        addr(TOKEN_C),
    );
    assert_eq!(r, Err(RouterError::TokenMismatch { hop_index: 0 }));
}

#[test]
fn validation_refuses_the_wrong_output_token() {
    let r = validate_route_and_add_info(
        &vec![addr(POOL_1)],
        &registry(),
        addr(TOKEN_A),
        addr(TOKEN_C),
    );
    assert_eq!(r, Err(RouterError::OutputTokenMismatch));
}

#[test]
fn route_of_maximal_length_is_accepted() {
    let route = vec![addr(POOL_1); MAX_ROUTE_LENGTH];
    let r = validate_route_and_add_info(&route, &registry(), addr(TOKEN_A), addr(TOKEN_B));
    assert_eq!(r.unwrap().len(), MAX_ROUTE_LENGTH);
}

#[test]
fn too_long_route_is_rejected_before_an_id_is_allocated() {
    let mut state = router();
    let route = vec![addr(POOL_1); MAX_ROUTE_LENGTH + 1];
    let r = route_swap(
        &mut state,
        account(USER),
        addr(ROUTER),
        &route,
        addr(TOKEN_A),
        addr(TOKEN_A),
        100,
        1,
    );
    assert_eq!(r.err(), Some(RouterError::RouteTooLong { length: 6 }));
    assert_eq!(state.route_tracker.next_route_id, 0);
    assert!(state.route_tracker.active_routes.is_empty());
}

#[test]
fn route_ids_increase_and_failed_validation_consumes_none() {
    let mut state = router();
    let first = start_a_to_c(&mut state).unwrap();
    assert_eq!(first.callback, Some(RouterCallback::StartLockChain { route_id: 0 }));

    let refused = route_swap(
        &mut state,
        account(USER),
        addr(ROUTER),
        &vec![addr(77)],
        addr(TOKEN_A),
        addr(TOKEN_B),
        100,
        1,
    );
    assert_eq!(refused.err(), Some(RouterError::UnknownSwapAddress { hop_index: 0 }));
    assert_eq!(state.route_tracker.next_route_id, 1);

    // The second route registers and then fails while locking.
    let second = start_a_to_c(&mut state).unwrap();
    assert_eq!(second.callback, Some(RouterCallback::StartLockChain { route_id: 1 }));
    lock_route_callback(&mut state, false, None, 1).unwrap();

    let third = start_a_to_c(&mut state).unwrap();
    assert_eq!(third.callback, Some(RouterCallback::StartLockChain { route_id: 2 }));
}

#[test]
fn route_swap_takes_custody_with_the_whole_budget() {
    let mut state = router();
    let batch = start_a_to_c(&mut state).unwrap();
    assert_eq!(
        batch.calls,
        vec![Interaction::TransferFrom {
            token: addr(TOKEN_A),
            sender: account(USER),
            receiver: addr(ROUTER),
            amount: 100,
        }]
    );
    assert_eq!(batch.callback_cost, Some(calculate_min_total_gas_cost(2)));
    assert_eq!(batch.callback_cost, Some(254_500));
}

#[test]
fn end_to_end_swap_pays_out_in_the_final_token() {
    let mut state = router();
    start_a_to_c(&mut state).unwrap();

    let batch = start_lock_chain_callback(&state, true, 0).unwrap();
    assert_eq!(
        batch.calls,
        vec![Interaction::AcquireSwapLock {
            pool: addr(POOL_1),
            token_in: addr(TOKEN_A),
            amount_in: 100,
            amount_out_minimum: 0,
        }]
    );
    assert_eq!(batch.callback, Some(RouterCallback::LockRoute { route_id: 0 }));

    let batch = lock_route_callback(&mut state, true, lock(7, 100), 0).unwrap();
    assert_eq!(
        batch.calls,
        vec![Interaction::AcquireSwapLock {
            pool: addr(POOL_2),
            token_in: addr(TOKEN_B),
            amount_in: 100,
            amount_out_minimum: 90,
        }]
    );

    let batch = lock_route_callback(&mut state, true, lock(8, 100), 0).unwrap();
    assert_eq!(
        batch.calls,
        vec![Interaction::Approve { token: addr(TOKEN_A), spender: addr(POOL_1), amount: u128::MAX }]
    );
    assert_eq!(batch.callback, Some(RouterCallback::Approve { route_id: 0, last_output: 100 }));

    let batch = approve_callback(&state, 0, 100).unwrap();
    assert_eq!(
        batch.calls,
        vec![Interaction::Deposit { pool: addr(POOL_1), token: addr(TOKEN_A), amount: 100 }]
    );
    let batch = deposit_callback(&mut state, 0).unwrap();
    assert_eq!(batch.calls, vec![Interaction::ExecuteLockSwap { pool: addr(POOL_1), lock_id: 7 }]);
    let batch = receive_output_amount_callback(&mut state, 0, 100).unwrap();
    assert_eq!(
        batch.calls,
        vec![Interaction::Withdraw {
            pool: addr(POOL_1),
            token: addr(TOKEN_B),
            amount: 100,
            wait_for_callback: true,
        }]
    );
    assert_eq!(batch.callback, Some(RouterCallback::ExecuteRoute { route_id: 0, last_output: 100 }));

    let batch = execute_route_callback(&mut state, 0, 100).unwrap();
    assert_eq!(
        batch.calls,
        vec![Interaction::Approve { token: addr(TOKEN_B), spender: addr(POOL_2), amount: u128::MAX }]
    );
    let batch = approve_callback(&state, 0, 100).unwrap();
    assert_eq!(
        batch.calls,
        vec![Interaction::Deposit { pool: addr(POOL_2), token: addr(TOKEN_B), amount: 100 }]
    );
    let batch = deposit_callback(&mut state, 0).unwrap();
    assert_eq!(batch.calls, vec![Interaction::ExecuteLockSwap { pool: addr(POOL_2), lock_id: 8 }]);
    receive_output_amount_callback(&mut state, 0, 100).unwrap();

    let batch = execute_route_callback(&mut state, 0, 100).unwrap();
    assert_eq!(
        batch.calls,
        vec![Interaction::Transfer { token: addr(TOKEN_C), receiver: account(USER), amount: 100 }]
    );
    assert_eq!(batch.callback, None);
    assert!(state.route_tracker.active_routes.is_empty());
    assert_eq!(
        execute_route_callback(&mut state, 0, 100).err(),
        Some(RouterError::UnknownRoute { route_id: 0 })
    );
}

#[test]
fn failure_at_second_lock_cancels_first_and_refunds() {
    let mut state = router();
    start_a_to_c(&mut state).unwrap();
    start_lock_chain_callback(&state, true, 0).unwrap();
    lock_route_callback(&mut state, true, lock(7, 100), 0).unwrap();

    let batch = lock_route_callback(&mut state, false, None, 0).unwrap();
    assert_eq!(
        batch.calls,
        vec![
            Interaction::CancelLock { pool: addr(POOL_1), lock_id: 7 },
            Interaction::Transfer { token: addr(TOKEN_A), receiver: account(USER), amount: 100 },
        ]
    );
    assert_eq!(batch.callback, Some(RouterCallback::CouldNotAcquireLockError));
    assert_eq!(could_not_acquire_lock_error(&state).err(), Some(RouterError::CouldNotAcquireAllLocks));
    assert!(state.route_tracker.active_routes.is_empty());
}

#[test]
fn failure_at_first_lock_only_refunds() {
    let mut state = router();
    start_a_to_c(&mut state).unwrap();
    let batch = lock_route_callback(&mut state, false, None, 0).unwrap();
    assert_eq!(
        batch.calls,
        vec![Interaction::Transfer { token: addr(TOKEN_A), receiver: account(USER), amount: 100 }]
    );
}

#[test]
fn failed_custody_transfer_ends_the_route_without_calls() {
    let mut state = router();
    start_a_to_c(&mut state).unwrap();
    assert_eq!(
        start_lock_chain_callback(&state, false, 0).err(),
        Some(RouterError::CouldNotTakeControlOfTokens)
    );
}

#[test]
fn later_locks_put_in_what_the_previous_lock_yields() {
    let mut state = router();
    start_a_to_c(&mut state).unwrap();
    let batch = lock_route_callback(&mut state, true, lock(7, 250), 0).unwrap();
    assert_eq!(
        batch.calls,
        vec![Interaction::AcquireSwapLock {
            pool: addr(POOL_2),
            token_in: addr(TOKEN_B),
            amount_in: 250,
            amount_out_minimum: 90,
        }]
    );
}

#[test]
fn steps_refuse_what_the_route_does_not_hold() {
    let mut state = router();
    assert_eq!(
        start_lock_chain_callback(&state, true, 5).err(),
        Some(RouterError::UnknownRoute { route_id: 5 })
    );
    start_a_to_c(&mut state).unwrap();
    assert_eq!(approve_callback(&state, 0, 100).err(), Some(RouterError::NoPendingLock));
    assert_eq!(deposit_callback(&mut state, 0).err(), Some(RouterError::NoPendingLock));
    assert_eq!(
        receive_output_amount_callback(&mut state, 0, 1).err(),
        Some(RouterError::NoPendingWithdraw)
    );
    lock_route_callback(&mut state, true, lock(7, 100), 0).unwrap();
    lock_route_callback(&mut state, true, lock(8, 100), 0).unwrap();
    assert_eq!(
        lock_route_callback(&mut state, true, lock(9, 100), 0).err(),
        Some(RouterError::NoWantedLock)
    );
    // A refused step leaves the route as it was: execution still starts at pool 1.
    let batch = approve_callback(&state, 0, 100).unwrap();
    assert_eq!(
        batch.calls,
        vec![Interaction::Deposit { pool: addr(POOL_1), token: addr(TOKEN_A), amount: 100 }]
    );
}

#[test]
fn route_ids_run_out() {
    let mut state = router();
    state.route_tracker.next_route_id = u128::MAX;
    assert_eq!(start_a_to_c(&mut state).err(), Some(RouterError::RouteIdsExhausted));
}

#[test]
fn registry_edits_need_permission() {
    let mut state = initialize(Permission::Specific { addresses: vec![account(1)] }, registry());
    assert_eq!(
        add_swap_contract(&mut state, &account(2), addr(13), addr(TOKEN_A), addr(TOKEN_C)),
        Err(RouterError::PermissionDenied)
    );
    assert_eq!(state.swap_contracts.len(), 2);
    assert_eq!(
        add_swap_contract(&mut state, &account(1), addr(13), addr(TOKEN_A), addr(TOKEN_C)),
        Ok(())
    );
    assert_eq!(state.swap_contracts[2], pool(13, TOKEN_A, TOKEN_C));
    assert!(Permission::Anybody.is_permitted(&account(7)));
}

#[test]
fn registry_edit_does_not_touch_a_route_in_flight() {
    let mut state = router();
    start_a_to_c(&mut state).unwrap();
    lock_route_callback(&mut state, true, lock(7, 100), 0).unwrap();

    // Replace the registry wholesale: pool 2 now trades other tokens.
    state.swap_contracts = vec![pool(POOL_2, 50, 51)];
    add_swap_contract(&mut state, &account(1), addr(13), addr(TOKEN_A), addr(TOKEN_C)).unwrap();

    let batch = lock_route_callback(&mut state, true, lock(8, 100), 0).unwrap();
    assert_eq!(
        batch.calls,
        vec![Interaction::Approve { token: addr(TOKEN_A), spender: addr(POOL_1), amount: u128::MAX }]
    );
    approve_callback(&state, 0, 100).unwrap();
    deposit_callback(&mut state, 0).unwrap();
    receive_output_amount_callback(&mut state, 0, 100).unwrap();
    execute_route_callback(&mut state, 0, 100).unwrap();
    let batch = approve_callback(&state, 0, 100).unwrap();
    assert_eq!(
        batch.calls,
        vec![Interaction::Deposit { pool: addr(POOL_2), token: addr(TOKEN_B), amount: 100 }]
    );
    deposit_callback(&mut state, 0).unwrap();
    let batch = receive_output_amount_callback(&mut state, 0, 100).unwrap();
    assert_eq!(
        batch.calls,
        vec![Interaction::Withdraw {
            pool: addr(POOL_2),
            token: addr(TOKEN_C),
            amount: 100,
            wait_for_callback: true,
        }]
    );
    // A new route sees the edited registry.
    assert_eq!(start_a_to_c(&mut state).err(), Some(RouterError::UnknownSwapAddress { hop_index: 0 }));
}

fn abort_cost(n: u64) -> u64 {
    INTERNAL_GAS_COST_START_LOCK_CHAIN_CALLBACK
        + (n + 1) * (GAS_COST_ACQUIRE_SWAP_LOCK + INTERNAL_GAS_COST_LOCK_ROUTE_CALLBACK)
        + (n + 1) * GAS_COST_CANCEL_LOCK
        + INTERNAL_GAS_COST_CANCEL_LOCK_ERROR_CALLBACK
}

#[test]
fn gas_budget_grows_with_the_route() {
    for n in [1usize, 3, 5] {
        assert!(calculate_min_total_gas_cost(n + 1) > calculate_min_total_gas_cost(n));
        assert!(calculate_min_total_gas_cost(n) >= abort_cost(n as u64));
    }
}

#[test]
fn gas_budget_exact_values() {
    assert_eq!(calculate_min_total_gas_cost(0), 38_500);
    assert_eq!(calculate_min_total_gas_cost(2), 254_500);
    assert_eq!(abort_cost(2), 103_500);
}

#[test]
fn dispatch_codes() {
    let a = addr(1);
    assert_eq!(Interaction::Transfer { token: a, receiver: a, amount: 1 }.shortname(), 0x01);
    assert_eq!(
        Interaction::TransferFrom { token: a, sender: a, receiver: a, amount: 1 }.shortname(),
        0x03
    );
    assert_eq!(Interaction::Approve { token: a, spender: a, amount: 1 }.shortname(), 0x05);
    assert_eq!(Interaction::ApproveRelative { token: a, spender: a, delta: -1 }.shortname(), 0x07);
    assert_eq!(Interaction::Deposit { pool: a, token: a, amount: 1 }.shortname(), 0x01);
    assert_eq!(
        Interaction::Withdraw { pool: a, token: a, amount: 1, wait_for_callback: false }
            .shortname(),
        0x03
    );
    assert_eq!(
        Interaction::AcquireSwapLock { pool: a, token_in: a, amount_in: 1, amount_out_minimum: 1 }
            .shortname(),
        0x07
    );
    assert_eq!(Interaction::ExecuteLockSwap { pool: a, lock_id: 1 }.shortname(), 0x08);
    assert_eq!(Interaction::CancelLock { pool: a, lock_id: 1 }.shortname(), 0x09);
    assert_eq!(RouterCallback::StartLockChain { route_id: 0 }.shortname(), 0x20);
    assert_eq!(RouterCallback::LockRoute { route_id: 0 }.shortname(), 0x03);
    assert_eq!(RouterCallback::ExecuteRoute { route_id: 0, last_output: 0 }.shortname(), 0x04);
    assert_eq!(RouterCallback::Approve { route_id: 0, last_output: 0 }.shortname(), 0x15);
    assert_eq!(RouterCallback::Deposit { route_id: 0 }.shortname(), 0x16);
    assert_eq!(RouterCallback::ReceiveOutputAmount { route_id: 0 }.shortname(), 0x05);
    assert_eq!(RouterCallback::CouldNotAcquireLockError.shortname(), 0x07);
}

#[test]
fn addresses_compare_by_kind_and_bytes() {
    assert!(addr(1).same_as(&addr(1)));
    assert!(!addr(1).same_as(&addr(2)));
    assert!(!addr(1).same_as(&account(1)));
    let mut other = addr(1);
    other.identifier[19] = 0;
    assert!(addr(1) != other);
}
