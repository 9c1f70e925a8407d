//! A saga coordinator for multi-hop token swaps across independently owned
//! liquidity pools, together with a few small value types shared by the
//! neighbouring contracts.
//!
//! The router resolves a user's route against its pool registry, stores one
//! progress record per route, and advances that record one host invocation at
//! a time: every step handler takes the stored state and the result of the
//! previous outgoing call, and returns the next batch of outgoing calls. The
//! host side turns those batches into chain events.

pub mod address;
pub mod error;
pub mod events;
pub mod gas;
pub mod interact;
pub mod order_book;
pub mod permission;
pub mod pool_math;
pub mod route;
pub mod router;
pub mod staking;
pub mod store;
pub mod validate;

pub use address::{Address, AddressType};
pub use error::RouterError;
pub use events::{
    EventBatch, GasCost, Interaction, LiquidityLockId, RouteId, RouterCallback, TokenAmount,
};
pub use gas::calculate_min_total_gas_cost;
pub use interact::{MPC20Contract, SwapContract, SwapLockContract};
pub use order_book::{LimitOrderId, Priority};
pub use permission::Permission;
pub use pool_math::{
    calculate_swap_to_amount, u128_division_ceil, DepositToken, TokenSwapAmount, TokensInOut,
};
pub use route::{
    AcquiredLiquidityLockInformation, AcquiredLockInfo, PendingWithdrawInfo, RouteInformation,
    SwapContractInfo, SwapInformation, WantedLockInfo,
};
pub use router::{
    add_swap_contract, approve_callback, could_not_acquire_lock_error, deposit_callback,
    execute_route_callback, initialize, lock_route_callback, receive_output_amount_callback,
    route_swap, start_lock_chain_callback, RouterState,
};
pub use staking::{
    upgrade_pending_unlock_from_v1_to_current, PendingUnlock, PendingUnlockId, PendingUnlockV1,
};
pub use store::RouteTracker;
pub use validate::{validate_route_and_add_info, MAX_ROUTE_LENGTH};
