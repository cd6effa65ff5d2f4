//! JSON-RPC routing table: method names to handlers.
//!
//! A router maps each method name to one handler; adding a name that is
//! already present replaces its handler, and extending a router with another
//! lets the other's handlers win for shared names.

use crate::text::str_eq;
use vstd::prelude::*;

verus! {

/// Errors of routing.
#[derive(Debug)]
pub enum Error {
    /// No handler carries the method name.
    RpcMethodUnknown(String),
}

/// The map that a list of routes denotes; later entries win.
pub open spec fn routes_map<H>(routes: Seq<(&'static str, H)>) -> Map<Seq<char>, H>
    decreases routes.len(),
{
    if routes.len() == 0 {
        Map::empty()
    } else {
        routes_map(routes.drop_last()).insert(routes.last().0@, routes.last().1)
    }
}

/// No method name occurs twice.
pub open spec fn names_unique<H>(routes: Seq<(&'static str, H)>) -> bool {
    forall|i: int, j: int|
        0 <= i < routes.len() && 0 <= j < routes.len() && i != j ==> routes[i].0@ != routes[j].0@
}

proof fn lemma_routes_map_dom<H>(routes: Seq<(&'static str, H)>, k: Seq<char>)
    ensures
        routes_map(routes).contains_key(k) <==> exists|i: int|
            0 <= i < routes.len() && #[trigger] routes[i].0@ == k,
    decreases routes.len(),
{
    if routes.len() > 0 {
        let init = routes.drop_last();
        lemma_routes_map_dom(init, k);
        if routes_map(routes).contains_key(k) {
            if routes.last().0@ != k {
                let i = choose|i: int| 0 <= i < init.len() && #[trigger] init[i].0@ == k;
                assert(routes[i].0@ == k);
            } else {
                assert(routes[routes.len() - 1].0@ == k);
            }
        } else {
            assert forall|i: int| 0 <= i < routes.len() implies #[trigger] routes[i].0@ != k by {
                if i < routes.len() - 1 {
                    assert(init[i] == routes[i]);
                }
            }
        }
    }
}

proof fn lemma_routes_map_index<H>(routes: Seq<(&'static str, H)>, i: int)
    requires
        names_unique(routes),
        0 <= i < routes.len(),
    ensures
        routes_map(routes).contains_key(routes[i].0@),
        routes_map(routes)[routes[i].0@] == routes[i].1,
    decreases routes.len(),
{
    let init = routes.drop_last();
    if i < routes.len() - 1 {
        assert(init[i] == routes[i]);
        lemma_routes_map_index(init, i);
    }
}

proof fn lemma_routes_map_update<H>(routes: Seq<(&'static str, H)>, i: int, name: &'static str, h: H)
    requires
        names_unique(routes),
        0 <= i < routes.len(),
        routes[i].0@ == name@,
    ensures
        names_unique(routes.update(i, (name, h))),
        routes_map(routes.update(i, (name, h))) == routes_map(routes).insert(name@, h),
{
    let new_routes = routes.update(i, (name, h));
    let m1 = routes_map(new_routes);
    let m2 = routes_map(routes).insert(name@, h);
    assert forall|k: Seq<char>| m1.contains_key(k) <==> m2.contains_key(k) by {
        lemma_routes_map_dom(new_routes, k);
        lemma_routes_map_dom(routes, k);
        if k == name@ {
            assert(new_routes[i].0@ == k);
        } else if m2.contains_key(k) {
            let j = choose|j: int| 0 <= j < routes.len() && #[trigger] routes[j].0@ == k;
            assert(new_routes[j].0@ == k);
        }
        if m1.contains_key(k) {
            let j = choose|j: int| 0 <= j < new_routes.len() && #[trigger] new_routes[j].0@ == k;
            if j != i {
                assert(routes[j].0@ == k);
            }
        }
    }
    assert forall|k: Seq<char>| #[trigger] m1.contains_key(k) implies m1[k] == m2[k] by {
        lemma_routes_map_dom(new_routes, k);
        let j = choose|j: int| 0 <= j < new_routes.len() && #[trigger] new_routes[j].0@ == k;
        lemma_routes_map_index(new_routes, j);
        if j != i {
            lemma_routes_map_index(routes, j);
        }
    }
    assert(m1 =~= m2);
}

proof fn lemma_routes_map_push<H>(routes: Seq<(&'static str, H)>, name: &'static str, h: H)
    requires
        names_unique(routes),
        !routes_map(routes).contains_key(name@),
    ensures
        names_unique(routes.push((name, h))),
        routes_map(routes.push((name, h))) == routes_map(routes).insert(name@, h),
{
    let p = routes.push((name, h));
    assert(p.drop_last() =~= routes);
    assert forall|i: int| 0 <= i < routes.len() implies #[trigger] routes[i].0@ != name@ by {
        lemma_routes_map_index(routes, i);
    }
    assert forall|i: int, j: int|
        0 <= i < p.len() && 0 <= j < p.len() && i != j implies p[i].0@ != p[j].0@ by {
        if i < routes.len() && j < routes.len() {
            assert(p[i] == routes[i] && p[j] == routes[j]);
        }
    }
}

/// The routing table of a JSON-RPC service: method name to handler.
pub struct RpcRouter<H> {
    route_by_name: Vec<(&'static str, H)>,
}

impl<H> RpcRouter<H> {
    #[verifier::type_invariant]
    spec fn wf(self) -> bool {
        names_unique(self.route_by_name@)
    }

    /// The handler of each method name.
    pub closed spec fn routes(self) -> Map<Seq<char>, H> {
        routes_map(self.route_by_name@)
    }
}

impl<H> View for RpcRouter<H> {
    type V = Map<Seq<char>, H>;

    open spec fn view(&self) -> Map<Seq<char>, H> {
        self.routes()
    }
}

impl<H> RpcRouter<H> {
    /// An empty router.
    pub fn new() -> (r: Self)
        ensures
            r@ == Map::<Seq<char>, H>::empty(),
    {
        RpcRouter { route_by_name: Vec::new() }
    }

    /// The index of the route named `name`, if any.
    fn position(&self, name: &str) -> (r: Option<usize>)
        ensures
            r matches Some(i) ==> i < self.route_by_name@.len() && self.route_by_name@[i as int].0@
                == name@,
            r is None ==> !self@.contains_key(name@),
    {
        let mut i: usize = 0;
        while i < self.route_by_name.len()
            invariant
                i <= self.route_by_name@.len(),
                forall|j: int| 0 <= j < i ==> #[trigger] self.route_by_name@[j].0@ != name@,
            decreases self.route_by_name@.len() - i,
        {
            if str_eq(self.route_by_name[i].0, name) {
                return Some(i);
            }
            i = i + 1;
        }
        proof {
            lemma_routes_map_dom(self.route_by_name@, name@);
        }
        None
    }

    /// Adds (or replaces) the handler of the method `name`.
    pub fn add_dyn(self, name: &'static str, dyn_handler: H) -> (r: Self)
        ensures
            r@ == self@.insert(name@, dyn_handler),
    {
        proof {
            use_type_invariant(&self);
        }
        let pos = self.position(name);
        let RpcRouter { route_by_name: mut routes } = self;
        let ghost old_routes = routes@;
        match pos {
            Some(i) => {
                proof {
                    lemma_routes_map_update(old_routes, i as int, name, dyn_handler);
                }
                routes.set(i, (name, dyn_handler));
            },
            None => {
                proof {
                    lemma_routes_map_push(old_routes, name, dyn_handler);
                }
                routes.push((name, dyn_handler));
            },
        }
        RpcRouter { route_by_name: routes }
    }

    /// Adds every route of `other_router`; its handlers replace those of the
    /// same method names.
    pub fn extend(self, other_router: RpcRouter<H>) -> (r: Self)
        ensures
            r@ == self@.union_prefer_right(other_router@),
    {
        proof {
            use_type_invariant(&other_router);
        }
        let ghost target = self@.union_prefer_right(other_router@);
        let RpcRouter { route_by_name: mut rest } = other_router;
        let mut acc = self;
        while rest.len() > 0
            invariant
                names_unique(rest@),
                acc@.union_prefer_right(routes_map(rest@)) == target,
            decreases rest@.len(),
        {
            let ghost before = rest@;
            let (name, handler) = rest.pop().unwrap();
            proof {
                assert(rest@ =~= before.drop_last());
                assert(names_unique(rest@)) by {
                    assert forall|i: int, j: int|
                        0 <= i < rest@.len() && 0 <= j < rest@.len() && i != j implies rest@[i].0@
                        != rest@[j].0@ by {
                        assert(rest@[i] == before[i] && rest@[j] == before[j]);
                    }
                }
                lemma_routes_map_dom(rest@, name@);
                assert(!routes_map(rest@).contains_key(name@)) by {
                    if routes_map(rest@).contains_key(name@) {
                        let i = choose|i: int| 0 <= i < rest@.len() && #[trigger] rest@[i].0@ == name@;
                        assert(before[i].0@ == before[before.len() - 1].0@);
                    }
                }
                assert(acc@.insert(name@, handler).union_prefer_right(routes_map(rest@))
                    =~= acc@.union_prefer_right(routes_map(before)));
            }
            acc = acc.add_dyn(name, handler);
        }
        proof {
            assert(acc@.union_prefer_right(routes_map(rest@)) =~= acc@);
        }
        acc
    }

    /// The handler of `method`, or `RpcMethodUnknown` with the method name.
    pub fn resolve(&self, method: &str) -> (r: Result<&H, Error>)
        ensures
            self@.contains_key(method@) ==> r == Ok::<&H, Error>(&self@[method@]),
            !self@.contains_key(method@) ==> (r matches Err(Error::RpcMethodUnknown(m))
                && m@ == method@),
    {
        proof {
            use_type_invariant(self);
        }
        match self.position(method) {
            Some(i) => {
                proof {
                    lemma_routes_map_index(self.route_by_name@, i as int);
                }
                Ok(&self.route_by_name[i].1)
            },
            None => Err(Error::RpcMethodUnknown(method.to_owned())),
        }
    }
}

/// A method that was added is found with the handler given last.
pub proof fn lemma_resolve_after_add<H>(router: Map<Seq<char>, H>, name: Seq<char>, handler: H)
    ensures
        router.insert(name, handler).contains_key(name),
        router.insert(name, handler)[name] == handler,
{
}

/// Extending keeps the handlers of the other router, and those of this
/// router for names the other does not carry.
pub proof fn lemma_extend_lookup<H>(
    router: Map<Seq<char>, H>,
    other: Map<Seq<char>, H>,
    name: Seq<char>,
)
    ensures
        other.contains_key(name) ==> router.union_prefer_right(other)[name] == other[name],
        !other.contains_key(name) && router.contains_key(name) ==> router.union_prefer_right(
            other,
        )[name] == router[name],
        router.union_prefer_right(other).contains_key(name) <==> (router.contains_key(name)
            || other.contains_key(name)),
{
}

} // verus!
