//! The route store: a counter that hands out route ids, and the progress
//! record of every route in flight, keyed by its id.
//!
//! Step handlers work on a record by fetching it out of the store, changing
//! it, and writing it back; no reference into the store outlives a step.

use vstd::prelude::*;

use std::collections::BTreeMap;

use crate::address::Address;
use crate::events::{RouteId, TokenAmount};
use crate::route::{
    hops_chain, lemma_new_route_hops, new_route, route_wf, RouteInformation, RouteView,
    SwapInformation,
};

verus! {

broadcast use vstd::std_specs::btree::group_btree_axioms, vstd::laws_cmp::group_laws_cmp;

/// Tracks the routes in flight.
pub struct RouteTracker {
    /// The id the next route gets.
    pub next_route_id: RouteId,
    /// The record of every route in flight.
    pub active_routes: BTreeMap<RouteId, RouteInformation>,
}

/// The mathematical content of a [`RouteTracker`].
pub ghost struct TrackerView {
    pub next_route_id: RouteId,
    pub routes: Map<RouteId, RouteView>,
}

impl View for RouteTracker {
    type V = TrackerView;

    open spec fn view(&self) -> TrackerView {
        TrackerView {
            next_route_id: self.next_route_id,
            routes: self.active_routes@.map_values(|r: RouteInformation| r@),
        }
    }
}

impl TrackerView {
    /// Every stored route has an id below the counter, so no id is handed out
    /// twice, and every stored route keeps the invariant of a route in flight.
    pub open spec fn wf(self) -> bool {
        &&& forall|id: RouteId| #[trigger] self.routes.contains_key(id) ==> id < self.next_route_id
        &&& forall|id: RouteId| #[trigger] self.routes.contains_key(id) ==> route_wf(self.routes[id])
    }
}

impl RouteTracker {
    pub open spec fn wf(&self) -> bool {
        self@.wf()
    }

    /// An empty store whose first route gets id 0.
    pub fn new() -> (r: Self)
        ensures
            r@ == (TrackerView { next_route_id: 0, routes: Map::empty() }),
            r.wf(),
    {
        let r = RouteTracker { next_route_id: 0, active_routes: BTreeMap::new() };
        assert(r@.routes =~= Map::empty());
        r
    }

    /// Hands out the next route id.
    fn next_route_id(&mut self) -> (r: RouteId)
        requires
            old(self).next_route_id < RouteId::MAX,
        ensures
            r == old(self).next_route_id,
            final(self).next_route_id == old(self).next_route_id + 1,
            final(self).active_routes == old(self).active_routes,
    {
        let res = self.next_route_id;
        self.next_route_id = self.next_route_id + 1;
        res
    }

    /// Stores a fresh route over the hops of `route` under a new id, and
    /// returns that id.
    pub fn add_route(
        &mut self,
        route: Vec<SwapInformation>,
        amount_in: TokenAmount,
        minimum_amount_out: TokenAmount,
        user: Address,
    ) -> (r: RouteId)
        requires
            old(self).wf(),
            route.len() > 0,
            hops_chain(route@),
            old(self).next_route_id < RouteId::MAX,
        ensures
            final(self).wf(),
            r == old(self).next_route_id,
            final(self)@ == (TrackerView {
                next_route_id: (r + 1) as RouteId,
                routes: old(self)@.routes.insert(
                    r,
                    new_route(route@, amount_in, minimum_amount_out, user),
                ),
            }),
    {
        proof {
            lemma_new_route_hops(route@, amount_in, minimum_amount_out, user);
        }
        let route_id = self.next_route_id();
        let route_info = RouteInformation::new(route, amount_in, minimum_amount_out, user);
        self.active_routes.insert(route_id, route_info);
        proof {
            assert(self@.routes =~= old(self)@.routes.insert(
                route_id,
                new_route(route@, amount_in, minimum_amount_out, user),
            ));
        }
        route_id
    }

    /// The record of route `route_id`, if it is in flight.
    pub fn get_route(&self, route_id: RouteId) -> (r: Option<&RouteInformation>)
        ensures
            match r {
                Some(route) => self@.routes.contains_key(route_id) && self@.routes[route_id]
                    == route@,
                None => !self@.routes.contains_key(route_id),
            },
    {
        self.active_routes.get(&route_id)
    }

    /// Takes the record of route `route_id` out of the store, to be changed
    /// and written back with [`Self::put_route`], or dropped once the route
    /// has ended.
    pub fn take_route(&mut self, route_id: RouteId) -> (r: Option<RouteInformation>)
        requires
            old(self).wf(),
        ensures
            final(self).wf(),
            final(self).next_route_id == old(self).next_route_id,
            match r {
                Some(route) => old(self)@.routes.contains_key(route_id) && old(self)@.routes[route_id]
                    == route@ && final(self)@.routes == old(self)@.routes.remove(route_id),
                None => !old(self)@.routes.contains_key(route_id) && final(self)@ == old(self)@,
            },
    {
        let r = self.active_routes.remove(&route_id);
        proof {
            assert(self@.routes =~= old(self)@.routes.remove(route_id));
            if r is Some {
                assert(old(self).active_routes@.contains_key(route_id));
                assert(old(self).active_routes@[route_id] == r->Some_0);
                assert(old(self)@.routes[route_id] == r->Some_0@);
            } else {
                assert(self@.routes =~= old(self)@.routes);
            }
        }
        r
    }

    /// Writes the record of route `route_id` back into the store.
    pub fn put_route(&mut self, route_id: RouteId, route: RouteInformation)
        requires
            old(self).wf(),
            route_id < old(self).next_route_id,
            route_wf(route@),
        ensures
            final(self).wf(),
            final(self)@ == (TrackerView {
                routes: old(self)@.routes.insert(route_id, route@),
                ..old(self)@
            }),
    {
        let ghost v = route@;
        self.active_routes.insert(route_id, route);
        proof {
            assert(self@.routes =~= old(self)@.routes.insert(route_id, v));
        }
    }
}

} // verus!
