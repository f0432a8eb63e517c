//! How a backend is picked among those that are up.

use hashring::HashRing;
use rand::seq::SliceRandom;
use vstd::prelude::*;
use crate::client::peer::PeerInfo;

verus! {

/// The ways to pick a backend.
#[derive(Clone, Copy, PartialEq, Eq, Structural, Debug)]
pub enum Balance {
    RoundRobin,
    Random,
    LeastLoadedTime,
    UriHash,
    Frist,
}

/// A backend that is up: its place among all backends, and its load. The load
/// holds the bits of a number that is not negative, which order as the number.
#[derive(Clone, Copy, PartialEq, Eq, Structural, Debug)]
pub struct ConfigBackend {
    pub id: usize,
    pub cost: u64,
}

/// Picks one of the items for a peer.
pub trait LoadBalancingAlgorithm<T: Clone> {
    /// Whether the algorithm can pick among these items.
    spec fn ready(&self, items: Seq<T>) -> bool;

    /// The next item, which is one of those given.
    fn next_available_backend(&mut self, items: &[T], info: &PeerInfo) -> (r: Option<T>)
        requires
            old(self).ready(items@),
        ensures
            r matches Some(item) ==> exists|k: int|
                0 <= k < items@.len() && cloned(#[trigger] items@[k], item),
    ;
}

/// The item at `k`, if there is one.
fn item_at<T: Clone>(items: &[T], k: usize) -> (r: Option<T>)
    ensures
        match r {
            Some(item) => k < items@.len() && cloned(items@[k as int], item),
            None => k >= items@.len(),
        },
{
    if k < items.len() {
        Some(items[k].clone())
    } else {
        None
    }
}

/// Always picks the first item.
pub struct Frist;

impl<T: Clone> LoadBalancingAlgorithm<T> for Frist {
    open spec fn ready(&self, items: Seq<T>) -> bool {
        true
    }

    fn next_available_backend(&mut self, items: &[T], _info: &PeerInfo) -> (r: Option<T>)
        ensures
            match r {
                Some(item) => items@.len() > 0 && cloned(items@[0], item),
                None => items@.len() == 0,
            },
    {
        item_at(items, 0)
    }
}

/// Picks the items in turn.
pub struct RoundRobin {
    next_item_index: usize,
}

impl RoundRobin {
    /// The place of the item that comes next.
    pub closed spec fn index(&self) -> nat {
        self.next_item_index as nat
    }

    #[verifier::type_invariant]
    spec fn wf(self) -> bool {
        self.next_item_index < usize::MAX
    }

    /// Starts with the first item.
    pub fn new() -> (r: Self)
        ensures
            r.index() == 0,
    {
        RoundRobin { next_item_index: 0 }
    }
}

impl<T: Clone> LoadBalancingAlgorithm<T> for RoundRobin {
    open spec fn ready(&self, items: Seq<T>) -> bool {
        items.len() > 0
    }

    fn next_available_backend(&mut self, items: &[T], _info: &PeerInfo) -> (r: Option<T>)
        ensures
            match r {
                Some(item) => old(self).index() < items@.len() && cloned(
                    items@[old(self).index() as int],
                    item,
                ),
                None => old(self).index() >= items@.len(),
            },
            final(self).index() == (old(self).index() + 1) % items@.len(),
    {
        proof {
            use_type_invariant(&*self);
        }
        let next_backend_id: usize = self.next_item_index;
        let backend = item_at(items, next_backend_id);
        self.next_item_index = (next_backend_id + 1) % items.len();
        backend
    }
}

/// Picks any item.
pub struct Random;

/// Calls `SliceRandom::choose` with the generator of the thread: no item of no
/// items, and else one of them.
#[verifier::external_body]
fn choose_random<T>(items: &[T]) -> (r: Option<&T>)
    ensures
        match r {
            Some(item) => items@.contains(*item),
            None => items@.len() == 0,
        },
{
    items.choose(&mut rand::thread_rng())
}

impl<T: Clone> LoadBalancingAlgorithm<T> for Random {
    open spec fn ready(&self, items: Seq<T>) -> bool {
        true
    }

    fn next_available_backend(&mut self, items: &[T], _info: &PeerInfo) -> (r: Option<T>)
        ensures
            r is None <==> items@.len() == 0,
    {
        match choose_random(items) {
            Some(item) => {
                let r = item.clone();
                proof {
                    let k = choose|k: int| 0 <= k < items@.len() && items@[k] == *item;
                    assert(cloned(items@[k], r));
                }
                Some(r)
            },
            None => None,
        }
    }
}

/// Picks the item with the least load.
pub struct LeastLoadedTime;

/// The item at `k` has the least load, and no item before it has as little.
pub open spec fn is_least_loaded(items: Seq<ConfigBackend>, k: int) -> bool {
    &&& 0 <= k < items.len()
    &&& forall|j: int| 0 <= j < items.len() ==> items[k].cost <= (#[trigger] items[j]).cost
    &&& forall|j: int| 0 <= j < k ==> items[k].cost < (#[trigger] items[j]).cost
}

impl LoadBalancingAlgorithm<ConfigBackend> for LeastLoadedTime {
    open spec fn ready(&self, items: Seq<ConfigBackend>) -> bool {
        true
    }

    fn next_available_backend(&mut self, items: &[ConfigBackend], _info: &PeerInfo) -> (r: Option<
        ConfigBackend,
    >)
        ensures
            match r {
                Some(item) => exists|k: int|
                    #[trigger] is_least_loaded(items@, k) && item == items@[k],
                None => items@.len() == 0,
            },
    {
        let mut best: Option<usize> = None;
        let mut i: usize = 0;
        while i < items.len()
            invariant
                i <= items@.len(),
                match best {
                    Some(k) => k < i && is_least_loaded(items@.take(i as int), k as int),
                    None => i == 0,
                },
            decreases items@.len() - i,
        {
            let ghost before = items@.take(i as int);
            let ghost after = items@.take(i + 1);
            assert(forall|j: int| 0 <= j < i ==> #[trigger] after[j] == before[j]);
            assert(after[i as int] == items@[i as int]);
            match best {
                None => {
                    best = Some(i);
                },
                Some(k) => {
                    assert(before[k as int] == items@[k as int]);
                    if items[k].cost <= items[i].cost {
                        assert(is_least_loaded(after, k as int));
                    } else {
                        best = Some(i);
                        assert(is_least_loaded(after, i as int));
                    }
                },
            }
            i = i + 1;
        }
        assert(items@.take(i as int) =~= items@);
        match best {
            Some(k) => {
                assert(is_least_loaded(items@, k as int));
                Some(items[k])
            },
            None => None,
        }
    }
}

#[verifier::external_type_specification]
#[verifier::external_body]
#[verifier::reject_recursive_types(T)]
#[verifier::reject_recursive_types(S)]
pub struct ExHashRing<T, S>(hashring::HashRing<T, S>);

#[verifier::external_type_specification]
#[verifier::external_body]
pub struct ExHashBuilder(hashring::DefaultHashBuilder);

/// The points of a ring in order: the key of each and the node that it stands
/// for.
pub uninterp spec fn ring_points(ring: HashRing<usize>) -> Seq<(u64, usize)>;

/// The key that a ring gives to a text.
pub uninterp spec fn text_key(text: Seq<char>) -> u64;

/// The point at `i` answers for a key: it is at that key, or no point is and it is the
/// first one above, or where none is above the first of all.
pub open spec fn answers_for(points: Seq<(u64, usize)>, key: u64, i: int) -> bool {
    &&& 0 <= i < points.len()
    &&& points[i].0 == key || {
        &&& forall|j: int| 0 <= j < points.len() ==> (#[trigger] points[j]).0 != key
        &&& forall|j: int| 0 <= j < i ==> (#[trigger] points[j]).0 < key
        &&& points[i].0 > key || (i == 0 && forall|j: int|
            0 <= j < points.len() ==> (#[trigger] points[j]).0 < key)
    }
}

/// The node that a ring of these points has for a text.
pub uninterp spec fn ring_lookup(points: Seq<(u64, usize)>, text: Seq<char>) -> Option<usize>;

/// Calls `HashRing::new`: a ring without points.
#[verifier::external_body]
fn ring_new() -> (r: HashRing<usize>)
    ensures
        ring_points(r) == Seq::<(u64, usize)>::empty(),
{
    HashRing::new()
}

/// Calls `HashRing::add`: one more point for the node, at some key, and the
/// points stay in the order of their keys.
#[verifier::external_body]
fn ring_add(ring: &mut HashRing<usize>, node: usize)
    ensures
        exists|key: u64|
            ring_points(*final(ring)).to_multiset() == #[trigger] ring_points(
                *old(ring),
            ).to_multiset().insert((key, node)),
        forall|i: int, j: int|
            0 <= i < j < ring_points(*final(ring)).len() ==> (#[trigger] ring_points(
                *final(ring),
            )[i]).0 <= (#[trigger] ring_points(*final(ring))[j]).0,
{
    ring.add(node);
}

/// Calls `HashRing::get` with a text as the key: no node of an empty ring, and else
/// the node of a point that answers for the key of the text. Which one, where several
/// points are at one key, depends on the points and on the text alone.
#[verifier::external_body]
fn ring_get(ring: &HashRing<usize>, text: &str) -> (r: Option<usize>)
    ensures
        r == ring_lookup(ring_points(*ring), text@),
        match r {
            Some(node) => exists|i: int|
                answers_for(ring_points(*ring), text_key(text@), i) && (#[trigger] ring_points(
                    *ring,
                )[i]).1 == node,
            None => ring_points(*ring).len() == 0,
        },
{
    ring.get(&text).copied()
}

/// Picks an item by the host that the peer asks for.
pub struct UriHash {
    ring: HashRing<usize>,
}

/// The place of the item that a ring's node leads to among `len` items: that of
/// the node, the one after it where there are fewer items, and the first where
/// the ring has no node.
pub open spec fn uri_hash_index(node: Option<usize>, len: nat) -> nat {
    match node {
        Some(id) => if id < len {
            id as nat
        } else {
            (id + 1) as nat % len
        },
        None => 0,
    }
}

/// Picks the item that a ring's node leads to.
pub fn pick_by_node<T: Clone>(node: Option<usize>, items: &[T]) -> (r: Option<T>)
    requires
        node is Some ==> items@.len() > 0,
    ensures
        match r {
            Some(item) => uri_hash_index(node, items@.len()) < items@.len() && cloned(
                items@[uri_hash_index(node, items@.len()) as int],
                item,
            ),
            None => items@.len() == 0,
        },
{
    match node {
        Some(id) => {
            let len: usize = items.len();
            if id < len {
                return item_at(items, id);
            }
            proof {
                vstd::arithmetic::div_mod::lemma_add_mod_noop(id as int, 1, len as int);
                vstd::arithmetic::div_mod::lemma_mod_bound(id as int, len as int);
                vstd::arithmetic::div_mod::lemma_mod_bound((id % len) + 1, len as int);
                if len == 1 {
                    assert((id + 1) % 1 == 0);
                } else {
                    vstd::arithmetic::div_mod::lemma_small_mod(1, len as nat);
                }
            }
            let next: usize = if id % len + 1 == len {
                0
            } else {
                id % len + 1
            };
            proof {
                if id % len + 1 == len {
                    vstd::arithmetic::div_mod::lemma_mod_self_0(len as int);
                } else {
                    vstd::arithmetic::div_mod::lemma_small_mod((id % len + 1) as nat, len as nat);
                }
            }
            item_at(items, next)
        },
        None => item_at(items, 0),
    }
}

impl UriHash {
    /// The points of the ring.
    pub closed spec fn points(&self) -> Seq<(u64, usize)> {
        ring_points(self.ring)
    }

    /// Picks by a ring.
    pub fn new(ring: HashRing<usize>) -> (r: Self)
        ensures
            r.points() == ring_points(ring),
    {
        UriHash { ring }
    }

    /// Picks by a ring that has one point for each number below `len`.
    pub fn for_backends(len: usize) -> (r: Self)
        ensures
            r.points().len() == len,
            forall|i: int| 0 <= i < len ==> (#[trigger] r.points()[i]).1 < len,
            forall|id: usize| id < len ==> #[trigger] has_node(r.points(), id),
    {
        let mut ring = ring_new();
        let mut id: usize = 0;
        while id < len
            invariant
                id <= len,
                ring_points(ring).len() == id,
                forall|i: int| 0 <= i < id ==> (#[trigger] ring_points(ring)[i]).1 < id,
                forall|n: usize| n < id ==> #[trigger] has_node(ring_points(ring), n),
            decreases len - id,
        {
            let ghost before = ring_points(ring);
            ring_add(&mut ring, id);
            proof {
                lemma_ring_grows(before, ring_points(ring), id);
            }
            id = id + 1;
        }
        UriHash { ring }
    }
}

/// Some point stands for the node.
pub open spec fn has_node(points: Seq<(u64, usize)>, node: usize) -> bool {
    exists|i: int| 0 <= i < points.len() && (#[trigger] points[i]).1 == node
}

/// A text leads to the node of a point that answers for it, and to none only where the
/// ring has no points.
pub open spec fn leads_to_a_node(points: Seq<(u64, usize)>, text: Seq<char>) -> bool {
    match ring_lookup(points, text) {
        Some(node) => exists|i: int|
            answers_for(points, text_key(text), i) && (#[trigger] points[i]).1 == node,
        None => points.len() == 0,
    }
}

proof fn lemma_ring_grows(before: Seq<(u64, usize)>, after: Seq<(u64, usize)>, node: usize)
    requires
        exists|key: u64|
            after.to_multiset() == #[trigger] before.to_multiset().insert((key, node)),
    ensures
        after.len() == before.len() + 1,
        forall|i: int|
            0 <= i < after.len() ==> (#[trigger] after[i]).1 == node || has_node(
                before,
                after[i].1,
            ),
        has_node(after, node),
        forall|n: usize| has_node(before, n) ==> #[trigger] has_node(after, n),
{
    broadcast use vstd::multiset::group_multiset_axioms;

    before.to_multiset_ensures();
    after.to_multiset_ensures();
    let key = choose|key: u64|
        after.to_multiset() == #[trigger] before.to_multiset().insert((key, node));
    assert(after.to_multiset().contains((key, node)));
    assert(after.contains((key, node)));
    assert forall|i: int| 0 <= i < after.len() implies (#[trigger] after[i]).1 == node || has_node(
        before,
        after[i].1,
    ) by {
        assert(after.contains(after[i]));
        assert(after.to_multiset().contains(after[i]));
        if after[i].1 != node {
            assert(before.to_multiset().contains(after[i]));
            assert(before.contains(after[i]));
        }
    }
    assert forall|n: usize| has_node(before, n) implies #[trigger] has_node(after, n) by {
        let i = choose|i: int| 0 <= i < before.len() && (#[trigger] before[i]).1 == n;
        assert(before.contains(before[i]));
        assert(before.to_multiset().contains(before[i]));
        assert(after.to_multiset().contains(before[i]));
        assert(after.contains(before[i]));
    }
}

impl<T: Clone> LoadBalancingAlgorithm<T> for UriHash {
    open spec fn ready(&self, items: Seq<T>) -> bool {
        items.len() > 0 || self.points().len() == 0
    }

    fn next_available_backend(&mut self, items: &[T], info: &PeerInfo) -> (r: Option<T>)
        ensures
            final(self).points() == old(self).points(),
            ({
                let node = ring_lookup(old(self).points(), info.host());
                match r {
                    Some(item) => uri_hash_index(node, items@.len()) < items@.len() && cloned(
                        items@[uri_hash_index(node, items@.len()) as int],
                        item,
                    ),
                    None => items@.len() == 0,
                }
            }),
            leads_to_a_node(old(self).points(), info.host()),
    {
        let node: Option<usize> = ring_get(&self.ring, info.get_host());
        pick_by_node(node, items)
    }
}

/// The place of the next item after `k` picks in turn among `len` items, from
/// `start` on.
pub open spec fn turned(start: nat, len: nat, k: nat) -> nat
    decreases k,
{
    if k == 0 {
        start
    } else {
        (turned(start, len, (k - 1) as nat) + 1) % len
    }
}

/// Picking in turn among the same items comes to the places one after the other.
pub proof fn law_round_robin_goes_in_turn(start: nat, len: nat, k: nat)
    requires
        start < len,
    ensures
        turned(start, len, k) == (start + k) % len,
    decreases k,
{
    if k == 0 {
        vstd::arithmetic::div_mod::lemma_small_mod(start, len);
    } else {
        law_round_robin_goes_in_turn(start, len, (k - 1) as nat);
        vstd::arithmetic::div_mod::lemma_add_mod_noop(start + k - 1, 1, len as int);
        vstd::arithmetic::div_mod::lemma_mod_bound(start + k - 1, len as int);
        let a = (start + k - 1) % len as int;
        if len == 1 {
            assert(turned(start, len, k) == 0);
            assert((start + k) % 1 == 0);
        } else {
            vstd::arithmetic::div_mod::lemma_small_mod(1, len);
        }
    }
}

/// Among as many picks as there are items, each item is picked exactly once.
pub proof fn law_round_robin_is_fair(start: nat, len: nat, place: nat)
    requires
        start < len,
        place < len,
    ensures
        exists|k: nat| k < len && #[trigger] turned(start, len, k) == place,
        forall|j: nat, k: nat|
            j < len && k < len && #[trigger] turned(start, len, j) == #[trigger] turned(
                start,
                len,
                k,
            ) ==> j == k,
{
    let k = if place >= start {
        (place - start) as nat
    } else {
        (place + len - start) as nat
    };
    law_round_robin_goes_in_turn(start, len, k);
    if place >= start {
        vstd::arithmetic::div_mod::lemma_small_mod(place, len);
    } else {
        vstd::arithmetic::div_mod::lemma_mod_add_multiples_vanish(place as int, len as int);
        vstd::arithmetic::div_mod::lemma_small_mod(place, len);
    }
    assert(turned(start, len, k) == place);
    assert forall|j: nat, k: nat|
        j < len && k < len && #[trigger] turned(start, len, j) == #[trigger] turned(
            start,
            len,
            k,
        ) implies j == k by {
        lemma_turned_once_round(start, len, j);
        lemma_turned_once_round(start, len, k);
    }
}

proof fn lemma_turned_once_round(start: nat, len: nat, k: nat)
    requires
        start < len,
        k < len,
    ensures
        turned(start, len, k) == if start + k < len {
            start + k
        } else {
            (start + k - len) as nat
        },
{
    law_round_robin_goes_in_turn(start, len, k);
    if start + k < len {
        vstd::arithmetic::div_mod::lemma_small_mod(start + k, len);
    } else {
        vstd::arithmetic::div_mod::lemma_mod_add_multiples_vanish(start + k - len, len as int);
        vstd::arithmetic::div_mod::lemma_small_mod((start + k - len) as nat, len);
    }
}

/// The algorithm that is in use.
pub enum Balancer {
    RoundRobin(RoundRobin),
    Random(Random),
    LeastLoadedTime(LeastLoadedTime),
    UriHash(UriHash),
    Frist(Frist),
}

/// Whether `balancer` is an algorithm as it starts with a number of backends.
pub open spec fn set_up(balance: Balance, backends_len: usize, balancer: Balancer) -> bool {
    match balance {
        Balance::RoundRobin => balancer matches Balancer::RoundRobin(b) && b.index() == 0,
        Balance::Random => balancer is Random,
        Balance::LeastLoadedTime => balancer is LeastLoadedTime,
        Balance::UriHash => balancer matches Balancer::UriHash(b) && b.points().len()
            == backends_len && (forall|i: int|
            0 <= i < backends_len ==> (#[trigger] b.points()[i]).1 < backends_len) && (forall|
            id: usize,
        | id < backends_len ==> #[trigger] has_node(b.points(), id)),
        Balance::Frist => balancer is Frist,
    }
}

/// Sets an algorithm up for a number of backends.
pub fn populate_load_balance(balance: Balance, backends_len: usize) -> (r: Balancer)
    ensures
        set_up(balance, backends_len, r),
{
    match balance {
        Balance::RoundRobin => Balancer::RoundRobin(RoundRobin::new()),
        Balance::Random => Balancer::Random(Random),
        Balance::LeastLoadedTime => Balancer::LeastLoadedTime(LeastLoadedTime),
        Balance::UriHash => Balancer::UriHash(UriHash::for_backends(backends_len)),
        Balance::Frist => Balancer::Frist(Frist),
    }
}

/// Whether `after` and `item` are what an algorithm makes of a choice among
/// `items` for a host.
pub open spec fn balanced(
    before: Balancer,
    after: Balancer,
    items: Seq<ConfigBackend>,
    host: Seq<char>,
    item: Option<ConfigBackend>,
) -> bool {
    match before {
        Balancer::RoundRobin(b) => {
            &&& after matches Balancer::RoundRobin(a) && a.index() == (b.index() + 1) % items.len()
            &&& item == if b.index() < items.len() {
                Some(items[b.index() as int])
            } else {
                None
            }
        },
        Balancer::Random(_) => {
            &&& after is Random
            &&& item matches Some(x) && items.contains(x)
        },
        Balancer::LeastLoadedTime(_) => {
            &&& after is LeastLoadedTime
            &&& item matches Some(x) && exists|k: int|
                #[trigger] is_least_loaded(items, k) && x == items[k]
        },
        Balancer::UriHash(b) => {
            &&& after matches Balancer::UriHash(a) && a.points() == b.points()
            &&& leads_to_a_node(b.points(), host)
            &&& item == Some(
                items[uri_hash_index(ring_lookup(b.points(), host), items.len()) as int],
            )
        },
        Balancer::Frist(_) => {
            &&& after is Frist
            &&& item == Some(items[0])
        },
    }
}

impl Balancer {
    /// Picks one of the items for a peer. Only picking in turn can come to a
    /// place that has no item, after the items have become fewer.
    pub fn next_available_backend(&mut self, items: &[ConfigBackend], info: &PeerInfo) -> (r:
        Option<ConfigBackend>)
        requires
            items@.len() > 0,
        ensures
            balanced(*old(self), *final(self), items@, info.host(), r),
            r matches Some(item) ==> items@.contains(item),
            r is None ==> *old(self) is RoundRobin,
    {
        let r = match self {
            Balancer::RoundRobin(b) => b.next_available_backend(items, info),
            Balancer::Random(b) => b.next_available_backend(items, info),
            Balancer::LeastLoadedTime(b) => b.next_available_backend(items, info),
            Balancer::UriHash(b) => b.next_available_backend(items, info),
            Balancer::Frist(b) => b.next_available_backend(items, info),
        };
        r
    }
}

/// Of points in order, at most one place answers for a key where no two points are at
/// one key. A point more takes over only the texts that it answers for itself.
pub proof fn law_ring_is_consistent(
    points: Seq<(u64, usize)>,
    more: Seq<(u64, usize)>,
    at: int,
    key: u64,
    i: int,
    j: int,
)
    requires
        forall|a: int, b: int|
            0 <= a < b < more.len() ==> (#[trigger] more[a]).0 < (#[trigger] more[b]).0,
        0 <= at < more.len(),
        points == more.remove(at),
        answers_for(more, key, i),
        answers_for(points, key, j),
    ensures
        i != at ==> more[i] == points[j],
        forall|k: int| answers_for(more, key, k) ==> k == i,
{
    assert forall|a: int| 0 <= a < points.len() implies #[trigger] points[a] == more[if a < at {
        a
    } else {
        a + 1
    }] by {}
    assert forall|k: int| answers_for(more, key, k) implies k == i by {
        assert(more[k].0 <= more[i].0 || more[i].0 <= more[k].0);
    }
    if i != at {
        let there = if i < at {
            i
        } else {
            i - 1
        };
        assert(points[there] == more[i]);
        let here = if j < at {
            j
        } else {
            j + 1
        };
        assert(points[j] == more[here]);
        if here != i {
            assert(more[here].0 != more[i].0);
        }
    }
}

/// Picking by the host gives the same host the same item, as long as the items
/// stay the same.
pub proof fn law_same_host_same_item(
    first: Balancer,
    second: Balancer,
    third: Balancer,
    items: Seq<ConfigBackend>,
    host: Seq<char>,
    x: Option<ConfigBackend>,
    y: Option<ConfigBackend>,
)
    requires
        first is UriHash,
        items.len() > 0,
        balanced(first, second, items, host, x),
        balanced(second, third, items, host, y),
    ensures
        x == y,
        x matches Some(item) && items.contains(item),
{
    let points = first->UriHash_0.points();
    let k = uri_hash_index(ring_lookup(points, host), items.len());
    if let Some(id) = ring_lookup(points, host) {
        vstd::arithmetic::div_mod::lemma_mod_bound(id + 1, items.len() as int);
    }
    assert(items.contains(items[k as int]));
}

/// Picking by the host goes by the node that the ring has for it: to the item at the
/// place of the node, so that two hosts with different nodes get items at different
/// places, and where the items are too few to the place after the node, counted on
/// from the first item again. Where the ring has no node it is the first item.
pub proof fn law_host_goes_to_its_node(
    balancer: &mut Balancer,
    again: &mut Balancer,
    items: &[ConfigBackend],
    info: &PeerInfo,
    other: &PeerInfo,
    x: Option<ConfigBackend>,
    y: Option<ConfigBackend>,
)
    requires
        *old(balancer) is UriHash,
        *old(again) == *old(balancer),
        items@.len() > 0,
        call_ensures(Balancer::next_available_backend, (balancer, items, info), x),
        call_ensures(Balancer::next_available_backend, (again, items, other), y),
    ensures
        ({
            let points = (*old(balancer))->UriHash_0.points();
            let here = ring_lookup(points, info.host());
            let there = ring_lookup(points, other.host());
            &&& here matches Some(node) ==> (node < items@.len() ==> x == Some(
                items@[node as int],
            ))
            &&& here matches Some(node) ==> (node >= items@.len() ==> x == Some(
                items@[(node + 1) % items@.len() as int],
            ))
            &&& here is None ==> points.len() == 0 && x == Some(items@[0])
            &&& here matches Some(node) ==> exists|i: int|
                0 <= i < points.len() && (#[trigger] points[i]).1 == node
            &&& here == there ==> x == y
            &&& here matches Some(a) ==> (there matches Some(b) ==> (a < items@.len() && b
                < items@.len() && items@[a as int].id != items@[b as int].id ==> x != y))
            &&& *final(balancer) matches Balancer::UriHash(after) && after.points() == points
        }),
{
}

/// Picking in turn gives the item at the place that is next, whoever asks, and two picks
/// among the same items give neighbours, the first after the last. Only a place past the
/// items gives none.
pub proof fn law_picks_in_turn_are_neighbours(
    first: &mut Balancer,
    second: &mut Balancer,
    items: &[ConfigBackend],
    info: &PeerInfo,
    other: &PeerInfo,
    x: Option<ConfigBackend>,
    y: Option<ConfigBackend>,
)
    requires
        *old(first) is RoundRobin,
        *old(second) == *final(first),
        items@.len() > 0,
        call_ensures(Balancer::next_available_backend, (first, items, info), x),
        call_ensures(Balancer::next_available_backend, (second, items, other), y),
    ensures
        ({
            let place = (*old(first))->RoundRobin_0.index() as int;
            &&& place < items@.len() ==> x == Some(items@[place])
            &&& place + 1 < items@.len() ==> y == Some(items@[place + 1])
            &&& place + 1 == items@.len() ==> y == Some(items@[0])
            &&& x is None <==> place >= items@.len()
            &&& y is Some
        }),
{
    let place = (*old(first))->RoundRobin_0.index();
    vstd::arithmetic::div_mod::lemma_mod_bound(place as int + 1, items@.len() as int);
    if place + 1 < items@.len() {
        vstd::arithmetic::div_mod::lemma_small_mod(place + 1, items@.len());
    } else if place + 1 == items@.len() {
        vstd::arithmetic::div_mod::lemma_mod_self_0(items@.len() as int);
    }
}

/// Picking by load gives one of the items, and no item has a lower load. Of items with
/// the same load it is the one that stands first. It goes neither by the host nor by
/// what was picked before.
pub proof fn law_no_item_has_a_lower_load(
    first: &mut Balancer,
    second: &mut Balancer,
    items: &[ConfigBackend],
    info: &PeerInfo,
    other: &PeerInfo,
    x: Option<ConfigBackend>,
    y: Option<ConfigBackend>,
)
    requires
        *old(first) is LeastLoadedTime,
        *old(second) is LeastLoadedTime,
        items@.len() > 0,
        call_ensures(Balancer::next_available_backend, (first, items, info), x),
        call_ensures(Balancer::next_available_backend, (second, items, other), y),
    ensures
        x == y,
        x matches Some(item) && exists|k: int|
            0 <= k < items@.len() && #[trigger] items@[k] == item && forall|j: int|
                0 <= j < items@.len() ==> item.cost < (#[trigger] items@[j]).cost || (item.cost
                    == items@[j].cost && k <= j),
{
    let k = choose|k: int| #[trigger] is_least_loaded(items@, k) && x->0 == items@[k];
    let l = choose|l: int| #[trigger] is_least_loaded(items@, l) && y->0 == items@[l];
    assert(items@[k].cost <= items@[l].cost);
    assert(items@[l].cost <= items@[k].cost);
    assert(k == l);
    assert(items@[k] == x->0);
}

/// Picking the first always gives the first item, and picking any gives one of the items.
/// No choice changes the way in which the next one is made.
pub proof fn law_first_or_any(
    balancer: &mut Balancer,
    items: &[ConfigBackend],
    info: &PeerInfo,
    item: Option<ConfigBackend>,
)
    requires
        items@.len() > 0,
        call_ensures(Balancer::next_available_backend, (balancer, items, info), item),
    ensures
        *old(balancer) is Frist ==> item == Some(items@[0]),
        *old(balancer) is Random ==> item is Some && exists|k: int|
            0 <= k < items@.len() && #[trigger] items@[k] == item->0,
        *old(balancer) is Frist <==> *final(balancer) is Frist,
        *old(balancer) is Random <==> *final(balancer) is Random,
        *old(balancer) is RoundRobin <==> *final(balancer) is RoundRobin,
        *old(balancer) is LeastLoadedTime <==> *final(balancer) is LeastLoadedTime,
        *old(balancer) is UriHash <==> *final(balancer) is UriHash,
{
}

/// The algorithm that is set up is the one that was asked for. The first pick in turn is
/// the first item, and picking by the host can lead to every backend and to nothing else.
pub proof fn law_set_up_as_asked(
    balance: Balance,
    backends_len: usize,
    set: Balancer,
    balancer: &mut Balancer,
    items: &[ConfigBackend],
    info: &PeerInfo,
    item: Option<ConfigBackend>,
    id: usize,
)
    requires
        call_ensures(populate_load_balance, (balance, backends_len), set),
        *old(balancer) == set,
        items@.len() > 0,
        call_ensures(Balancer::next_available_backend, (balancer, items, info), item),
    ensures
        balance is RoundRobin <==> set is RoundRobin,
        balance is Random <==> set is Random,
        balance is LeastLoadedTime <==> set is LeastLoadedTime,
        balance is UriHash <==> set is UriHash,
        balance is Frist <==> set is Frist,
        balance is RoundRobin ==> item == Some(items@[0]),
        balance is UriHash ==> {
            let points = set->UriHash_0.points();
            &&& points.len() == backends_len
            &&& id < backends_len <==> exists|i: int|
                0 <= i < points.len() && (#[trigger] points[i]).1 == id
            &&& items@.len() == backends_len ==> exists|k: int|
                0 <= k < items@.len() && ring_lookup(points, info.host()) == Some(k as usize)
                    && item == Some(#[trigger] items@[k])
        },
{
    if balance is UriHash {
        let points = set->UriHash_0.points();
        assert(id < backends_len ==> has_node(points, id));
        if items@.len() == backends_len {
            let node = ring_lookup(points, info.host())->0;
            assert(node < backends_len);
            assert(items@[node as int] == item->0);
        }
    }
}

/// The item of a ring's node is the one at its place, and else the one after that place,
/// counted on from the first item again.
pub proof fn law_item_of_a_node(
    node: usize,
    items: &[ConfigBackend],
    x: Option<ConfigBackend>,
    y: Option<ConfigBackend>,
)
    requires
        items@.len() > 0,
        call_ensures(pick_by_node::<ConfigBackend>, (Some(node), items), x),
        call_ensures(pick_by_node::<ConfigBackend>, (None, items), y),
    ensures
        node < items@.len() ==> x == Some(items@[node as int]),
        node >= items@.len() ==> x == Some(items@[(node + 1) % items@.len() as int]),
        y == Some(items@[0]),
{
}

} // verus!
