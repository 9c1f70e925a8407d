//! Route resolution: turning a list of pool addresses into a chain of hops
//! whose tokens line up, against a snapshot of the pool registry.

use vstd::prelude::*;

use crate::address::Address;
use crate::error::RouterError;
use crate::route::{SwapContractInfo, SwapInformation};

verus! {

/// The most hops a route may have: each hop spawns a bounded number of
/// chained calls, and the host caps the depth of a call chain.
pub const MAX_ROUTE_LENGTH: usize = 5;

/// The first pool of `registry` at address `address`, if any.
pub open spec fn known_pool(registry: Seq<SwapContractInfo>, address: Address) -> Option<
    SwapContractInfo,
>
    decreases registry.len(),
{
    if registry.len() == 0 {
        None
    } else if registry[0].swap_address == address {
        Some(registry[0])
    } else {
        known_pool(registry.drop_first(), address)
    }
}

/// The hop through `pool` that takes `current` in: from A to B when
/// `current` is the A token, else from B to A when it is the B token.
pub open spec fn orient(pool: SwapContractInfo, current: Address) -> Option<SwapInformation> {
    if current == pool.token_a_address {
        Some(
            SwapInformation {
                swap_address: pool.swap_address,
                token_in: pool.token_a_address,
                token_out: pool.token_b_address,
            },
        )
    } else if current == pool.token_b_address {
        Some(
            SwapInformation {
                swap_address: pool.swap_address,
                token_in: pool.token_b_address,
                token_out: pool.token_a_address,
            },
        )
    } else {
        None
    }
}

/// The token that arrives after `hops`, starting from `token_in`.
pub open spec fn current_token(hops: Seq<SwapInformation>, token_in: Address) -> Address {
    if hops.len() == 0 {
        token_in
    } else {
        hops.last().token_out
    }
}

/// The hops of the first `n` pools of `route`, starting from `token_in`, or
/// the error at the first pool that cannot be resolved.
pub open spec fn resolve_prefix(
    route: Seq<Address>,
    registry: Seq<SwapContractInfo>,
    token_in: Address,
    n: nat,
) -> Result<Seq<SwapInformation>, RouterError>
    decreases n,
{
    if n == 0 {
        Ok(seq![])
    } else {
        match resolve_prefix(route, registry, token_in, (n - 1) as nat) {
            Err(e) => Err(e),
            Ok(hops) => match known_pool(registry, route[n - 1]) {
                None => Err(RouterError::UnknownSwapAddress { hop_index: (n - 1) as usize }),
                Some(pool) => match orient(pool, current_token(hops, token_in)) {
                    None => Err(RouterError::TokenMismatch { hop_index: (n - 1) as usize }),
                    Some(hop) => Ok(hops.push(hop)),
                },
            },
        }
    }
}

/// The outcome of validating `route` from `token_in` to `token_out`.
pub open spec fn validated_route(
    route: Seq<Address>,
    registry: Seq<SwapContractInfo>,
    token_in: Address,
    token_out: Address,
) -> Result<Seq<SwapInformation>, RouterError> {
    if route.len() == 0 {
        Err(RouterError::EmptyRoute)
    } else if route.len() > MAX_ROUTE_LENGTH {
        Err(RouterError::RouteTooLong { length: route.len() as usize })
    } else {
        match resolve_prefix(route, registry, token_in, route.len()) {
            Err(e) => Err(e),
            Ok(hops) => if current_token(hops, token_in) == token_out {
                Ok(hops)
            } else {
                Err(RouterError::OutputTokenMismatch)
            },
        }
    }
}

/// Whether `hops` run from `token_in` to `token_out` through the pools of
/// `route`, each hop taking in what the one before put out.
pub open spec fn chains(
    hops: Seq<SwapInformation>,
    route: Seq<Address>,
    token_in: Address,
    token_out: Address,
) -> bool {
    &&& hops.len() == route.len()
    &&& hops.len() > 0
    &&& hops[0].token_in == token_in
    &&& hops.last().token_out == token_out
    &&& forall|i: int| 0 <= i < hops.len() - 1 ==> #[trigger] hops[i].token_out == hops[i + 1].token_in
    &&& forall|i: int| 0 <= i < hops.len() ==> #[trigger] hops[i].swap_address == route[i]
}

proof fn lemma_known_pool_address(registry: Seq<SwapContractInfo>, address: Address)
    ensures
        known_pool(registry, address) matches Some(pool) ==> pool.swap_address == address,
    decreases registry.len(),
{
    if registry.len() > 0 && registry[0].swap_address != address {
        lemma_known_pool_address(registry.drop_first(), address);
    }
}

proof fn lemma_error_persists(
    route: Seq<Address>,
    registry: Seq<SwapContractInfo>,
    token_in: Address,
    k: nat,
    n: nat,
)
    requires
        k <= n,
        resolve_prefix(route, registry, token_in, k) is Err,
    ensures
        resolve_prefix(route, registry, token_in, n) == resolve_prefix(route, registry, token_in, k),
    decreases n - k,
{
    if k < n {
        lemma_error_persists(route, registry, token_in, k, (n - 1) as nat);
    }
}

proof fn lemma_resolved_prefix_chains(
    route: Seq<Address>,
    registry: Seq<SwapContractInfo>,
    token_in: Address,
    n: nat,
)
    requires
        resolve_prefix(route, registry, token_in, n) is Ok,
    ensures
        ({
            let hops = resolve_prefix(route, registry, token_in, n)->Ok_0;
            &&& hops.len() == n
            &&& n > 0 ==> hops[0].token_in == token_in
            &&& forall|i: int| 0 <= i < n - 1 ==> #[trigger] hops[i].token_out == hops[i + 1].token_in
            &&& forall|i: int| 0 <= i < n ==> #[trigger] hops[i].swap_address == route[i]
        }),
    decreases n,
{
    if n > 0 {
        let m = (n - 1) as nat;
        lemma_resolved_prefix_chains(route, registry, token_in, m);
        lemma_known_pool_address(registry, route[n - 1]);
        let prev = resolve_prefix(route, registry, token_in, m)->Ok_0;
        let hops = resolve_prefix(route, registry, token_in, n)->Ok_0;
        assert(hops == prev.push(hops.last()));
        assert forall|i: int| 0 <= i < n - 1 implies #[trigger] hops[i].token_out == hops[i
            + 1].token_in by {
            if i < n - 2 {
                assert(prev[i].token_out == prev[i + 1].token_in);
            }
        }
        assert forall|i: int| 0 <= i < n implies #[trigger] hops[i].swap_address == route[i] by {
            if i < n - 1 {
                assert(prev[i].swap_address == route[i]);
            }
        }
    }
}

/// A validated route chains: it has one hop per pool, starts in the
/// requested input token, ends in the requested output token, and each hop
/// takes in the token the previous hop puts out.
pub proof fn lemma_validated_route_chains(
    route: Seq<Address>,
    registry: Seq<SwapContractInfo>,
    token_in: Address,
    token_out: Address,
)
    requires
        validated_route(route, registry, token_in, token_out) is Ok,
    ensures
        chains(validated_route(route, registry, token_in, token_out)->Ok_0, route, token_in, token_out),
{
    lemma_resolved_prefix_chains(route, registry, token_in, route.len());
}

/// The first registry entry for `address`, if any.
fn find_swap_contract(known_swap_contracts: &Vec<SwapContractInfo>, address: &Address) -> (r: Option<
    SwapContractInfo,
>)
    ensures
        r == known_pool(known_swap_contracts@, *address),
{
    let mut i: usize = 0;
    assert(known_swap_contracts@.subrange(0, known_swap_contracts@.len() as int)
        =~= known_swap_contracts@);
    while i < known_swap_contracts.len()
        invariant
            0 <= i <= known_swap_contracts.len(),
            known_pool(known_swap_contracts@, *address) == known_pool(
                known_swap_contracts@.subrange(i as int, known_swap_contracts@.len() as int),
                *address,
            ),
        decreases known_swap_contracts.len() - i,
    {
        let ghost rest = known_swap_contracts@.subrange(i as int, known_swap_contracts@.len() as int);
        assert(rest.drop_first() =~= known_swap_contracts@.subrange(
            i + 1,
            known_swap_contracts@.len() as int,
        ));
        if known_swap_contracts[i].swap_address.same_as(address) {
            return Some(known_swap_contracts[i]);
        }
        i = i + 1;
    }
    None
}

/// Resolves `swap_route` against the registry `known_swap_contracts` into the
/// hops of a route from `token_in` to `token_out`.
///
/// Refuses an empty route, one longer than [`MAX_ROUTE_LENGTH`], a pool that
/// is not in the registry, a pool that trades neither the token arriving at
/// it, and a route that ends in another token than `token_out`. Nothing is
/// changed or issued either way.
pub fn validate_route_and_add_info(
    swap_route: &Vec<Address>,
    known_swap_contracts: &Vec<SwapContractInfo>,
    token_in: Address,
    token_out: Address,
) -> (r: Result<Vec<SwapInformation>, RouterError>)
    ensures
        match r {
            Ok(hops) => validated_route(swap_route@, known_swap_contracts@, token_in, token_out)
                == Ok::<Seq<SwapInformation>, RouterError>(hops@),
            Err(e) => validated_route(swap_route@, known_swap_contracts@, token_in, token_out)
                == Err::<Seq<SwapInformation>, RouterError>(e),
        },
{
    if swap_route.len() == 0 {
        return Err(RouterError::EmptyRoute);
    }
    if swap_route.len() > MAX_ROUTE_LENGTH {
        return Err(RouterError::RouteTooLong { length: swap_route.len() });
    }
    let mut res: Vec<SwapInformation> = Vec::with_capacity(swap_route.len());
    let mut prev_output_token = token_in;
    let mut i: usize = 0;
    while i < swap_route.len()
        invariant
            0 <= i <= swap_route.len(),
            0 < swap_route.len() <= MAX_ROUTE_LENGTH,
            resolve_prefix(swap_route@, known_swap_contracts@, token_in, i as nat) == Ok::<
                Seq<SwapInformation>,
                RouterError,
            >(res@),
            prev_output_token == current_token(res@, token_in),
        decreases swap_route.len() - i,
    {
        let swap_info = match find_swap_contract(known_swap_contracts, &swap_route[i]) {
            Some(info) => info,
            None => {
                proof {
                    assert(resolve_prefix(swap_route@, known_swap_contracts@, token_in, (i + 1) as nat)
                        == Err::<Seq<SwapInformation>, RouterError>(RouterError::UnknownSwapAddress { hop_index: i }));
                    lemma_error_persists(
                        swap_route@,
                        known_swap_contracts@,
                        token_in,
                        (i + 1) as nat,
                        swap_route@.len(),
                    );
                }
                return Err(RouterError::UnknownSwapAddress { hop_index: i });
            },
        };
        let hop = if prev_output_token.same_as(&swap_info.token_a_address) {
            SwapInformation {
                swap_address: swap_info.swap_address,
                token_in: swap_info.token_a_address,
                token_out: swap_info.token_b_address,
            }
        } else if prev_output_token.same_as(&swap_info.token_b_address) {
            SwapInformation {
                swap_address: swap_info.swap_address,
                token_in: swap_info.token_b_address,
                token_out: swap_info.token_a_address,
            }
        } else {
            proof {
                assert(resolve_prefix(swap_route@, known_swap_contracts@, token_in, (i + 1) as nat)
                    == Err::<Seq<SwapInformation>, RouterError>(RouterError::TokenMismatch { hop_index: i }));
                lemma_error_persists(
                    swap_route@,
                    known_swap_contracts@,
                    token_in,
                    (i + 1) as nat,
                    swap_route@.len(),
                );
            }
            return Err(RouterError::TokenMismatch { hop_index: i });
        };
        prev_output_token = hop.token_out;
        res.push(hop);
        i = i + 1;
    }
    if !token_out.same_as(&prev_output_token) {
        return Err(RouterError::OutputTokenMismatch);
    }
    Ok(res)
}

} // verus!
