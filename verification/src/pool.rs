//! A pool which lends out device objects and takes them back.
//!
//! Objects are kept per description. A lease takes the object which came back last; what is
//! on lease is never handed out a second time. The pool creates nothing itself: where it has
//! no object to lend, the caller has one created and hands it over.

use crate::error::DriverError;
use vstd::prelude::*;

verus! {

/// What a pool keys its objects by: a description which can be compared and copied. Two
/// descriptions are the same where their views are.
pub trait Description: View + Sized {
    /// Whether `other` describes the same objects as `self`.
    fn matches(&self, other: &Self) -> (same: bool)
        ensures
            same == (self@ == other@),
    ;

    /// A copy of this description.
    fn duplicate(&self) -> (copy: Self)
        ensures
            copy@ == self@,
    ;
}

/// An object on loan from a pool.
pub struct Lease<K> {
    /// The handle of the object.
    pub object: u64,
    /// The description under which the object was leased, and under which it goes back.
    pub info: K,
    /// The tag of the pool which the object belongs to.
    pub pool: u64,
}

struct Bucket<K> {
    info: K,
    items: Vec<u64>,
}

/// A pool of device objects, keyed by their descriptions.
pub struct HashPool<K: Description> {
    tag: u64,
    buckets: Vec<Bucket<K>>,
    leased: Vec<u64>,
}

/// Removing the element at `i` from a sequence without duplicates removes exactly that value
/// from the set of its elements.
proof fn lemma_remove_to_set(s: Seq<u64>, i: int)
    requires
        s.no_duplicates(),
        0 <= i < s.len(),
    ensures
        s.remove(i).no_duplicates(),
        s.remove(i).to_set() == s.to_set().remove(s[i]),
{
    let r = s.remove(i);
    assert forall|x: u64| r.to_set().contains(x) <==> s.to_set().remove(s[i]).contains(x) by {
        if r.contains(x) {
            let j = choose|j: int| 0 <= j < r.len() && r[j] == x;
            if j < i {
                assert(s[j] == x);
            } else {
                assert(s[j + 1] == x);
            }
        }
        if s.contains(x) && x != s[i] {
            let j = choose|j: int| 0 <= j < s.len() && s[j] == x;
            if j < i {
                assert(r[j] == x);
            } else {
                assert(r[j - 1] == x);
            }
        }
    }
    assert(r.to_set() =~= s.to_set().remove(s[i]));
}

/// Appending a value which a sequence without duplicates does not hold keeps it without
/// duplicates, and adds that value to the set of its elements.
proof fn lemma_push_to_set(s: Seq<u64>, x: u64)
    requires
        s.no_duplicates(),
        !s.contains(x),
    ensures
        s.push(x).no_duplicates(),
        s.push(x).to_set() == s.to_set().insert(x),
        forall|y: u64| s.push(x).contains(y) <==> (s.contains(y) || y == x),
{
    let p = s.push(x);
    assert forall|y: u64| p.contains(y) <==> (s.contains(y) || y == x) by {
        if s.contains(y) {
            let j = choose|j: int| 0 <= j < s.len() && s[j] == y;
            assert(p[j] == y);
        }
        if y == x {
            assert(p[s.len() as int] == y);
        }
    }
    assert(p.to_set() =~= s.to_set().insert(x));
}

/// Dropping the last element of a sequence without duplicates removes that value from it.
proof fn lemma_drop_last_contains(s: Seq<u64>)
    requires
        s.no_duplicates(),
        s.len() > 0,
    ensures
        s.drop_last().no_duplicates(),
        !s.drop_last().contains(s.last()),
        forall|y: u64| s.drop_last().contains(y) <==> (s.contains(y) && y != s.last()),
{
    let d = s.drop_last();
    assert forall|y: u64| d.contains(y) <==> (s.contains(y) && y != s.last()) by {
        if d.contains(y) {
            let j = choose|j: int| 0 <= j < d.len() && d[j] == y;
            assert(s[j] == y);
        }
        if s.contains(y) && y != s.last() {
            let j = choose|j: int| 0 <= j < s.len() && s[j] == y;
            assert(d[j] == y);
        }
    }
}

/// Two sequences without duplicates which share no value make one without duplicates, which
/// holds what either of them holds.
proof fn lemma_concat(a: Seq<u64>, b: Seq<u64>)
    requires
        a.no_duplicates(),
        b.no_duplicates(),
        forall|x: u64| a.contains(x) ==> !b.contains(x),
    ensures
        (a + b).no_duplicates(),
        forall|x: u64| (a + b).contains(x) <==> (a.contains(x) || b.contains(x)),
{
    let c = a + b;
    assert forall|x: u64| c.contains(x) <==> (a.contains(x) || b.contains(x)) by {
        if c.contains(x) {
            let j = choose|j: int| 0 <= j < c.len() && c[j] == x;
            if j < a.len() {
                assert(a[j] == x);
            } else {
                assert(b[j - a.len()] == x);
            }
        }
        if a.contains(x) {
            let j = choose|j: int| 0 <= j < a.len() && a[j] == x;
            assert(c[j] == x);
        }
        if b.contains(x) {
            let j = choose|j: int| 0 <= j < b.len() && b[j] == x;
            assert(c[a.len() + j] == x);
        }
    }
    assert forall|i: int, j: int| 0 <= i < a.len() && 0 <= j < b.len() implies a[i] != b[j] by {
        assert(a.contains(a[i]));
        assert(b.contains(b[j]));
    }
    vstd::seq_lib::lemma_no_dup_in_concat(a, b);
}

/// Looks for `object` in `list`.
fn position(list: &Vec<u64>, object: u64) -> (found: Option<usize>)
    ensures
        match found {
            Some(i) => i < list@.len() && list@[i as int] == object,
            None => !list@.contains(object),
        },
{
    let mut i: usize = 0;
    while i < list.len()
        invariant
            i <= list@.len(),
            forall|j: int| 0 <= j < i ==> list@[j] != object,
        decreases list@.len() - i,
    {
        if list[i] == object {
            return Some(i);
        }
        i += 1;
    }
    None
}

impl<K: Description> HashPool<K> {
    /// The tag which the pool puts on its leases.
    pub closed spec fn tag(&self) -> u64 {
        self.tag
    }

    spec fn has_bucket(&self, key: K::V) -> bool {
        exists|i: int| 0 <= i < self.buckets@.len() && (#[trigger] self.buckets@[i]).info@ == key
    }

    spec fn bucket_index(&self, key: K::V) -> int {
        choose|i: int| 0 <= i < self.buckets@.len() && (#[trigger] self.buckets@[i]).info@ == key
    }

    /// The objects which the pool can lend out under the description `key`, in the order in
    /// which they came in: the last one is lent out first.
    pub closed spec fn available(&self, key: K::V) -> Seq<u64> {
        if self.has_bucket(key) {
            self.buckets@[self.bucket_index(key)].items@
        } else {
            Seq::empty()
        }
    }

    /// The objects which are out on lease.
    pub closed spec fn leased(&self) -> Set<u64> {
        self.leased@.to_set()
    }

    /// Whether the pool holds `object`, on lease or not.
    pub open spec fn knows(&self, object: u64) -> bool {
        self.leased().contains(object) || exists|key: K::V|
            #[trigger] self.available(key).contains(object)
    }

    /// The invariant of the pool: no description is kept twice, and no object is held twice,
    /// neither among those which can be lent out nor among those on lease nor across the two.
    pub closed spec fn wf(&self) -> bool {
        &&& forall|i: int, j: int|
            0 <= i < j < self.buckets@.len() ==> (#[trigger] self.buckets@[i]).info@ != (
            #[trigger] self.buckets@[j]).info@
        &&& forall|i: int|
            0 <= i < self.buckets@.len() ==> (#[trigger] self.buckets@[i]).items@.no_duplicates()
        &&& forall|i: int, j: int, object: u64|
            0 <= i < j < self.buckets@.len()
                && (#[trigger] self.buckets@[i].items@.contains(object))
                    ==> !(#[trigger] self.buckets@[j].items@.contains(object))
        &&& self.leased@.no_duplicates()
        &&& forall|i: int, object: u64|
            0 <= i < self.buckets@.len() && (#[trigger] self.buckets@[i].items@.contains(object))
                ==> !self.leased@.contains(object)
    }

    spec fn held_below(&self, n: int, object: u64) -> bool {
        exists|a: int| 0 <= a < n && (#[trigger] self.buckets@[a].items@.contains(object))
    }

    proof fn lemma_available_at(&self, i: int)
        requires
            self.wf(),
            0 <= i < self.buckets@.len(),
        ensures
            self.has_bucket(self.buckets@[i].info@),
            self.available(self.buckets@[i].info@) == self.buckets@[i].items@,
    {
        let key = self.buckets@[i].info@;
        assert(self.has_bucket(key));
        let j = self.bucket_index(key);
        assert(self.buckets@[j].info@ == key);
        assert(j == i);
    }

    proof fn lemma_available_none(&self, key: K::V)
        requires
            forall|i: int| 0 <= i < self.buckets@.len()
                ==> (#[trigger] self.buckets@[i]).info@ != key,
        ensures
            self.available(key) == Seq::<u64>::empty(),
    {
    }

    /// What is on lease cannot be lent out, and what can be lent out under one description
    /// cannot be lent out a second time, under that description or another.
    pub proof fn lemma_exclusive(&self, key: K::V, other: K::V)
        requires
            self.wf(),
        ensures
            self.available(key).no_duplicates(),
            forall|object: u64| #[trigger]
                self.available(key).contains(object) ==> !self.leased().contains(object),
            key != other ==> forall|object: u64| #[trigger]
                self.available(key).contains(object) ==> !self.available(other).contains(object),
    {
        if self.has_bucket(key) {
            let i = self.bucket_index(key);
            assert(self.buckets@[i].info@ == key);
            if key != other && self.has_bucket(other) {
                let j = self.bucket_index(other);
                assert(self.buckets@[j].info@ == other);
                assert(i != j);
            }
        }
    }

    /// An empty pool with the given tag.
    pub fn new(tag: u64) -> (pool: Self)
        ensures
            pool.wf(),
            pool.tag() == tag,
            pool.leased() == Set::<u64>::empty(),
            forall|key: K::V| #[trigger] pool.available(key) == Seq::<u64>::empty(),
    {
        let pool = HashPool { tag, buckets: Vec::new(), leased: Vec::new() };
        assert(pool.leased@.to_set() =~= Set::<u64>::empty());
        pool
    }

    /// The tag which the pool puts on its leases.
    pub fn id(&self) -> (tag: u64)
        ensures
            tag == self.tag(),
    {
        self.tag
    }

    fn find_bucket(&self, info: &K) -> (found: Option<usize>)
        ensures
            match found {
                Some(i) => i < self.buckets@.len() && self.buckets@[i as int].info@ == info@,
                None => forall|i: int|
                    0 <= i < self.buckets@.len() ==> (#[trigger] self.buckets@[i]).info@ != info@,
            },
    {
        let mut i: usize = 0;
        while i < self.buckets.len()
            invariant
                i <= self.buckets@.len(),
                forall|j: int| 0 <= j < i ==> (#[trigger] self.buckets@[j]).info@ != info@,
            decreases self.buckets@.len() - i,
        {
            if self.buckets[i].info.matches(info) {
                return Some(i);
            }
            i += 1;
        }
        None
    }

    /// The number of objects which can be lent out under `info`.
    pub fn available_count(&self, info: &K) -> (count: usize)
        requires
            self.wf(),
        ensures
            count == self.available(info@).len(),
    {
        match self.find_bucket(info) {
            Some(i) => {
                proof {
                    self.lemma_available_at(i as int);
                }
                self.buckets[i].items.len()
            },
            None => {
                proof {
                    self.lemma_available_none(info@);
                }
                0
            },
        }
    }

    /// Whether `object` is out on lease.
    pub fn is_leased(&self, object: u64) -> (leased: bool)
        ensures
            leased == self.leased().contains(object),
    {
        position(&self.leased, object).is_some()
    }

    /// Whether the pool holds `object`, on lease or not.
    pub fn contains(&self, object: u64) -> (known: bool)
        requires
            self.wf(),
        ensures
            known == self.knows(object),
    {
        if position(&self.leased, object).is_some() {
            return true;
        }
        let mut i: usize = 0;
        while i < self.buckets.len()
            invariant
                self.wf(),
                i <= self.buckets@.len(),
                !self.leased().contains(object),
                forall|j: int| 0 <= j < i
                    ==> !(#[trigger] self.buckets@[j].items@.contains(object)),
            decreases self.buckets@.len() - i,
        {
            if position(&self.buckets[i].items, object).is_some() {
                proof {
                    self.lemma_available_at(i as int);
                    assert(self.available(self.buckets@[i as int].info@).contains(object));
                }
                return true;
            }
            i += 1;
        }
        proof {
            assert forall|key: K::V| !#[trigger] self.available(key).contains(object) by {
                if self.has_bucket(key) {
                    let j = self.bucket_index(key);
                    assert(!self.buckets@[j].items@.contains(object));
                }
            }
        }
        false
    }

    /// Lends out an object which matches `info`: the one which came back last. Where the pool
    /// has none, it returns `None` and stays as it is; the caller then has an object created
    /// and hands it to [`HashPool::lease_created`].
    pub fn lease(&mut self, info: &K) -> (lease: Option<Lease<K>>)
        requires
            old(self).wf(),
        ensures
            final(self).wf(),
            final(self).tag() == old(self).tag(),
            forall|key: K::V|
                key != info@ ==> #[trigger] final(self).available(key) == old(self).available(key),
            old(self).available(info@).len() == 0 ==> lease is None && final(self).available(info@)
                == old(self).available(info@) && final(self).leased() == old(self).leased(),
            old(self).available(info@).len() > 0 ==> lease is Some
                && lease->0.object == old(self).available(info@).last()
                    && lease->0.info@ == info@ && lease->0.pool == old(self).tag()
                        && final(self).available(info@) == old(self).available(info@).drop_last()
                && !old(self).leased().contains(lease->0.object)
                    && final(self).leased() == old(self).leased().insert(lease->0.object),
    {
        match self.find_bucket(info) {
            None => {
                proof {
                    self.lemma_available_none(info@);
                }
                None
            },
            Some(i) => {
                proof {
                    self.lemma_available_at(i as int);
                }
                if self.buckets[i].items.len() == 0 {
                    None
                } else {
                    let ghost before = *self;
                    let object = self.buckets[i].items.pop().unwrap();
                    proof {
                        lemma_drop_last_contains(before.buckets@[i as int].items@);
                        assert(self.buckets@
                            == before.buckets@.update(i as int, self.buckets@[i as int]));
                        assert(self.buckets@[i as int].info == before.buckets@[i as int].info);
                        assert(before.buckets@[i as int].items@.contains(object)) by {
                            assert(before.buckets@[i as int].items@[before.buckets@[i as int].items@.len()
                                - 1] == object);
                        }
                        assert(!before.leased@.contains(object));
                        lemma_push_to_set(before.leased@, object);
                    }
                    self.leased.push(object);
                    proof {
                        assert forall|a: int, b: int, o: u64|
                            0 <= a < b < self.buckets@.len()
                                && (#[trigger] self.buckets@[a].items@.contains(o))
                                    implies !(#[trigger] self.buckets@[b].items@.contains(o)) by {
                            assert(before.buckets@[a].items@.contains(o));
                            assert(!before.buckets@[b].items@.contains(o));
                        }
                        assert forall|a: int, o: u64|
                            0 <= a < self.buckets@.len()
                                && (#[trigger] self.buckets@[a].items@.contains(o))
                                    implies !self.leased@.contains(o) by {
                            assert(before.buckets@[a].items@.contains(o));
                            if a != i as int {
                                if i as int > a {
                                    assert(!before.buckets@[i as int].items@.contains(o));
                                } else {
                                    assert(!before.buckets@[i as int].items@.contains(o));
                                }
                            }
                        }
                        assert(self.wf());
                        self.lemma_available_at(i as int);
                        assert forall|key: K::V| key != info@ implies #[trigger] self.available(key)
                            == before.available(key) by {
                            if before.has_bucket(key) {
                                let j = before.bucket_index(key);
                                assert(self.buckets@[j].info@ == key);
                                self.lemma_available_at(j);
                            } else {
                                assert(!self.has_bucket(key)) by {
                                    if self.has_bucket(key) {
                                        let j = self.bucket_index(key);
                                        assert(before.buckets@[j].info@ == key);
                                    }
                                }
                            }
                        }
                    }
                    Some(Lease { object, info: info.duplicate(), pool: self.tag })
                }
            },
        }
    }

    /// Takes what the device returned when it was asked to create an object for `info`, after
    /// [`HashPool::lease`] had found none. A created object is put on lease at once. The
    /// error of the device is passed on unchanged. An object which the pool holds already is
    /// refused as invalid data, and the pool stays as it is.
    pub fn lease_created(&mut self, info: K, created: Result<u64, DriverError>) -> (lease: Result<
        Lease<K>,
        DriverError,
    >)
        requires
            old(self).wf(),
        ensures
            final(self).wf(),
            final(self).tag() == old(self).tag(),
            forall|key: K::V| #[trigger] final(self).available(key) == old(self).available(key),
            match created {
                Err(err) => lease == Err::<Lease<K>, DriverError>(err) && final(self).leased()
                    == old(self).leased(),
                Ok(object) => if old(self).knows(object) {
                    lease == Err::<Lease<K>, DriverError>(DriverError::InvalidData)
                        && final(self).leased() == old(self).leased()
                } else {
                    lease is Ok && lease->Ok_0.object == object && lease->Ok_0.info == info
                        && lease->Ok_0.pool == old(self).tag()
                            && final(self).leased() == old(self).leased().insert(object)
                },
            },
    {
        match created {
            Err(err) => Err(err),
            Ok(object) => {
                if self.contains(object) {
                    Err(DriverError::InvalidData)
                } else {
                    let ghost before = *self;
                    proof {
                        lemma_push_to_set(self.leased@, object);
                    }
                    self.leased.push(object);
                    proof {
                        assert forall|a: int, o: u64|
                            0 <= a < self.buckets@.len()
                                && (#[trigger] self.buckets@[a].items@.contains(o))
                                    implies !self.leased@.contains(o) by {
                            before.lemma_available_at(a);
                            assert(before.available(before.buckets@[a].info@).contains(o));
                        }
                        assert forall|key: K::V| #[trigger]
                            self.available(key) == before.available(key) by {
                            assert(self.has_bucket(key) == before.has_bucket(key));
                        }
                    }
                    Ok(Lease { object, info, pool: self.tag })
                }
            },
        }
    }

    /// Takes back a lease. An object which this pool has on lease goes back under its
    /// description and is the next to be lent out under it; the result is `None`. Any other
    /// object, such as one leased before the pool was cleared, is handed back to the caller,
    /// who destroys it; the pool stays as it is.
    pub fn release(&mut self, lease: Lease<K>) -> (destroy: Option<u64>)
        requires
            old(self).wf(),
        ensures
            final(self).wf(),
            final(self).tag() == old(self).tag(),
            forall|key: K::V|
                key != lease.info@ ==> #[trigger] final(self).available(key) == old(self).available(
                    key,
                ),
            if lease.pool == old(self).tag() && old(self).leased().contains(lease.object) {
                destroy is None && final(self).available(lease.info@) == old(self).available(
                    lease.info@,
                ).push(lease.object) && final(self).leased() == old(self).leased().remove(
                    lease.object,
                )
            } else {
                destroy == Some(lease.object)
                    && final(self).available(lease.info@) == old(self).available(lease.info@)
                        && final(self).leased() == old(self).leased()
            },
    {
        if lease.pool != self.tag {
            return Some(lease.object);
        }
        let at = match position(&self.leased, lease.object) {
            None => {
                return Some(lease.object);
            },
            Some(at) => at,
        };
        let ghost before = *self;
        let object = lease.object;
        proof {
            lemma_remove_to_set(self.leased@, at as int);
        }
        self.leased.remove(at);
        assert(!self.leased@.contains(object)) by {
            assert(self.leased@.to_set() == before.leased@.to_set().remove(object));
            assert(!self.leased@.to_set().contains(object));
        }
        assert forall|a: int| 0 <= a < self.buckets@.len()
            implies !(#[trigger] self.buckets@[a].items@.contains(object)) by {
            assert(before.leased@.contains(object));
        }
        assert forall|a: int, o: u64|
            0 <= a < self.buckets@.len()
                && (#[trigger] self.buckets@[a].items@.contains(o))
                    implies !self.leased@.contains(o) by {
            assert(!before.leased@.contains(o));
            if self.leased@.contains(o) {
                assert(self.leased@.to_set().contains(o));
            }
        }
        let ghost middle = *self;
        match self.find_bucket(&lease.info) {
            Some(i) => {
                proof {
                    before.lemma_available_at(i as int);
                    lemma_push_to_set(self.buckets@[i as int].items@, object);
                }
                self.buckets[i].items.push(object);
                proof {
                    assert(self.buckets@
                        == middle.buckets@.update(i as int, self.buckets@[i as int]));
                    assert(self.buckets@[i as int].info == middle.buckets@[i as int].info);
                    assert forall|a: int, b: int, o: u64|
                        0 <= a < b < self.buckets@.len()
                            && (#[trigger] self.buckets@[a].items@.contains(o))
                                implies !(#[trigger] self.buckets@[b].items@.contains(o)) by {
                        if o != object {
                            assert(middle.buckets@[a].items@.contains(o));
                            assert(!middle.buckets@[b].items@.contains(o));
                        }
                    }
                    assert forall|a: int, o: u64|
                        0 <= a < self.buckets@.len()
                            && (#[trigger] self.buckets@[a].items@.contains(o))
                                implies !self.leased@.contains(o) by {
                        if o != object {
                            assert(middle.buckets@[a].items@.contains(o));
                        }
                    }
                    assert(self.wf());
                    self.lemma_available_at(i as int);
                    assert forall|key: K::V| key != lease.info@ implies #[trigger] self.available(
                        key,
                    ) == before.available(key) by {
                        if before.has_bucket(key) {
                            let j = before.bucket_index(key);
                            assert(self.buckets@[j].info@ == key);
                            self.lemma_available_at(j);
                        } else {
                            assert(!self.has_bucket(key)) by {
                                if self.has_bucket(key) {
                                    let j = self.bucket_index(key);
                                    assert(before.buckets@[j].info@ == key);
                                }
                            }
                        }
                    }
                }
            },
            None => {
                proof {
                    before.lemma_available_none(lease.info@);
                }
                let mut items: Vec<u64> = Vec::new();
                items.push(object);
                let ghost key = lease.info@;
                self.buckets.push(Bucket { info: lease.info, items });
                proof {
                    let n = middle.buckets@.len() as int;
                    assert(self.buckets@[n].items@ =~= Seq::<u64>::empty().push(object));
                    assert(self.buckets@[n].info@ == key);
                    assert forall|a: int, b: int, o: u64|
                        0 <= a < b < self.buckets@.len()
                            && (#[trigger] self.buckets@[a].items@.contains(o))
                                implies !(#[trigger] self.buckets@[b].items@.contains(o)) by {
                        if b == n {
                            assert(middle.buckets@[a].items@.contains(o));
                            if self.buckets@[b].items@.contains(o) {
                                assert(o == object);
                            }
                        } else {
                            assert(middle.buckets@[a].items@.contains(o));
                            assert(!middle.buckets@[b].items@.contains(o));
                        }
                    }
                    assert forall|a: int, o: u64|
                        0 <= a < self.buckets@.len()
                            && (#[trigger] self.buckets@[a].items@.contains(o))
                                implies !self.leased@.contains(o) by {
                        if a == n {
                            assert(o == object);
                        } else {
                            assert(middle.buckets@[a].items@.contains(o));
                        }
                    }
                    assert(self.wf());
                    self.lemma_available_at(n);
                    assert forall|k: K::V| k != key implies #[trigger] self.available(k)
                        == before.available(k) by {
                        if before.has_bucket(k) {
                            let j = before.bucket_index(k);
                            assert(self.buckets@[j].info@ == k);
                            self.lemma_available_at(j);
                        } else {
                            assert(!self.has_bucket(k)) by {
                                if self.has_bucket(k) {
                                    let j = self.bucket_index(k);
                                    if j < n {
                                        assert(before.buckets@[j].info@ == k);
                                    }
                                }
                            }
                        }
                    }
                }
            },
        }
        None
    }

    /// Tears the pool down: it forgets every object. Those which could be lent out are
    /// returned, each once, for the caller to destroy. Those out on lease are destroyed by
    /// their holders, whom [`HashPool::release`] will hand them back to.
    pub fn clear(&mut self) -> (destroy: Vec<u64>)
        requires
            old(self).wf(),
        ensures
            final(self).wf(),
            final(self).tag() == old(self).tag(),
            final(self).leased() == Set::<u64>::empty(),
            forall|key: K::V| #[trigger] final(self).available(key) == Seq::<u64>::empty(),
            destroy@.no_duplicates(),
            forall|object: u64|
                destroy@.contains(object) <==> exists|key: K::V| #[trigger]
                    old(self).available(key).contains(object),
    {
        let ghost before = *self;
        let mut destroy: Vec<u64> = Vec::new();
        let mut i: usize = 0;
        while i < self.buckets.len()
            invariant
                *self == before,
                self.wf(),
                i <= self.buckets@.len(),
                destroy@.no_duplicates(),
                forall|object: u64| destroy@.contains(object)
                    <==> self.held_below(i as int, object),
            decreases self.buckets@.len() - i,
        {
            let ghost start = destroy@;
            let ghost items = self.buckets@[i as int].items@;
            proof {
                assert forall|object: u64| start.contains(object) implies !items.contains(
                    object,
                ) by {
                    let a = choose|a: int|
                        0 <= a < i && (#[trigger] self.buckets@[a].items@.contains(object));
                    assert(!self.buckets@[i as int].items@.contains(object));
                }
                lemma_concat(start, items);
            }
            destroy.extend_from_slice(self.buckets[i].items.as_slice());
            proof {
                assert(destroy@ == start + items);
                assert forall|object: u64|
                    destroy@.contains(object) <==> self.held_below(i + 1, object) by {
                    if start.contains(object) {
                        let a = choose|a: int|
                            0 <= a < i && (#[trigger] self.buckets@[a].items@.contains(object));
                        assert(0 <= a < i + 1 && self.buckets@[a].items@.contains(object));
                    }
                    if items.contains(object) {
                        assert(0 <= i < i + 1 && self.buckets@[i as int].items@.contains(object));
                    }
                    if self.held_below(i + 1, object) {
                        let a = choose|a: int|
                            0 <= a < i + 1 && (#[trigger] self.buckets@[a].items@.contains(object));
                        if a < i {
                            assert(self.held_below(i as int, object));
                        }
                    }
                }
            }
            i += 1;
        }
        proof {
            assert forall|object: u64|
                destroy@.contains(object) <==> exists|key: K::V| #[trigger]
                    before.available(key).contains(object) by {
                if destroy@.contains(object) {
                    let a = choose|a: int|
                        0 <= a < i && (#[trigger] self.buckets@[a].items@.contains(object));
                    before.lemma_available_at(a);
                    assert(before.available(before.buckets@[a].info@).contains(object));
                }
                if exists|key: K::V| #[trigger] before.available(key).contains(object) {
                    let key = choose|key: K::V| #[trigger]
                        before.available(key).contains(object);
                    let a = before.bucket_index(key);
                    assert(before.buckets@[a].items@.contains(object));
                    assert(self.held_below(i as int, object));
                }
            }
        }
        self.buckets.clear();
        self.leased.clear();
        proof {
            assert(self.leased@.to_set() =~= Set::<u64>::empty());
        }
        destroy
    }
}

/// Leasing and giving back: an object which is given back to the pool it was leased from is
/// the one which the pool lends out next under the same description, and the pool is then
/// as it was before the object came back. No new object has to be created.
///
/// Here `between` is what [`HashPool::release`] makes of `before` when it takes `lease`
/// back, and `after` and `again` are what [`HashPool::lease`] makes of `between` for the
/// description of `lease`.
pub proof fn lemma_lease_round_trip<K: Description>(
    before: HashPool<K>,
    between: HashPool<K>,
    after: HashPool<K>,
    lease: Lease<K>,
    again: Lease<K>,
)
    requires
        before.wf(),
        lease.pool == before.tag(),
        before.leased().contains(lease.object),
        between.available(lease.info@) == before.available(lease.info@).push(lease.object),
        between.leased() == before.leased().remove(lease.object),
        again.object == between.available(lease.info@).last(),
        after.available(lease.info@) == between.available(lease.info@).drop_last(),
        after.leased() == between.leased().insert(again.object),
    ensures
        between.available(lease.info@).len() > 0,
        again.object == lease.object,
        after.available(lease.info@) == before.available(lease.info@),
        after.leased() == before.leased(),
{
    assert(between.available(lease.info@).drop_last() =~= before.available(lease.info@));
    assert(before.leased().remove(lease.object).insert(lease.object) =~= before.leased());
}

} // verus!
