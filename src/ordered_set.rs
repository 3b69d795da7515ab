use vstd::prelude::*;

use vstd::std_specs::iter::IteratorSpec;

use crate::error::Error;
use crate::error::ERR_DUPLICATE_ITEM;
use crate::text::str_eq;

verus! {

/// A value with an identity: the part of it by which an `OrderedSet` tells
/// items apart.
pub trait Identity: Sized {
    type Id;

    /// The identity of this value.
    spec fn identity(&self) -> Self::Id;

    /// Tests whether two values have the same identity.
    fn same_identity(&self, other: &Self) -> (r: bool)
        ensures
            r == (self.identity() == other.identity()),
    ;
}

impl Identity for u8 {
    type Id = u8;

    open spec fn identity(&self) -> u8 {
        *self
    }

    fn same_identity(&self, other: &Self) -> (r: bool) {
        *self == *other
    }
}

impl Identity for u64 {
    type Id = u64;

    open spec fn identity(&self) -> u64 {
        *self
    }

    fn same_identity(&self, other: &Self) -> (r: bool) {
        *self == *other
    }
}

impl Identity for String {
    type Id = Seq<char>;

    open spec fn identity(&self) -> Seq<char> {
        self@
    }

    fn same_identity(&self, other: &Self) -> (r: bool) {
        *self == *other
    }
}

/// A value that is told apart from others by the identity of what it wraps.
#[derive(Clone, Debug)]
pub struct DIDKey<T>(pub T);

impl<T> DIDKey<T> {
    /// Wraps `inner`.
    pub fn new(inner: T) -> (r: Self)
        ensures
            r.0 == inner,
    {
        DIDKey(inner)
    }

    /// Returns the wrapped value.
    pub fn into_inner(self) -> (r: T)
        ensures
            r == self.0,
    {
        self.0
    }

    /// A reference to the wrapped value.
    pub fn as_inner(&self) -> (r: &T)
        ensures
            *r == self.0,
    {
        &self.0
    }
}

impl<T: Identity> Identity for DIDKey<T> {
    type Id = T::Id;

    open spec fn identity(&self) -> T::Id {
        self.0.identity()
    }

    fn same_identity(&self, other: &Self) -> (r: bool) {
        self.0.same_identity(&other.0)
    }
}

impl<'a> Identity for &'a str {
    type Id = Seq<char>;

    open spec fn identity(&self) -> Seq<char> {
        (*self)@
    }

    fn same_identity(&self, other: &Self) -> (r: bool) {
        str_eq(*self, *other)
    }
}

/// No two items of `s` share an identity.
pub open spec fn distinct_ids<T: Identity>(s: Seq<T>) -> bool {
    forall|i: int, j: int|
        0 <= i < s.len() && 0 <= j < s.len() && i != j ==> s[i].identity() != s[j].identity()
}

/// Some item of `s` has the identity of `item`.
pub open spec fn has_id<T: Identity>(s: Seq<T>, item: T) -> bool {
    exists|i: int| 0 <= i < s.len() && s[i].identity() == item.identity()
}

/// Whether `item` is the target of a change that brings `data` in: it has the
/// identity of `data`, or that of `current` where one is given.
pub open spec fn is_target<T: Identity>(item: T, current: Option<T>, data: T) -> bool {
    item.identity() == data.identity() || (current is Some && item.identity()
        == current.unwrap().identity())
}

/// The items of `s` that are no target, in their order.
pub open spec fn without_targets<T: Identity>(s: Seq<T>, current: Option<T>, data: T) -> Seq<T>
    decreases s.len(),
{
    if s.len() == 0 {
        s
    } else {
        let rest = without_targets(s.drop_last(), current, data);
        if is_target(s.last(), current, data) {
            rest
        } else {
            rest.push(s.last())
        }
    }
}

/// The value behind an optional reference.
pub open spec fn opt_val<T>(o: Option<&T>) -> Option<T> {
    match o {
        Some(c) => Some(*c),
        None => None,
    }
}

/// Some item of `s` is a target of a change that brings `data` in.
pub open spec fn has_target<T: Identity>(s: Seq<T>, current: Option<T>, data: T) -> bool {
    exists|i: int| 0 <= i < s.len() && is_target(s[i], current, data)
}

/// The first position of `s` that holds a target, if any.
pub open spec fn first_target<T: Identity>(s: Seq<T>, current: Option<T>, data: T) -> Option<
    int,
> {
    if has_target(s, current, data) {
        let i = choose|i: int|
            0 <= i < s.len() && is_target(s[i], current, data) && forall|k: int|
                0 <= k < i ==> !is_target(#[trigger] s[k], current, data);
        Some(i)
    } else {
        None
    }
}

/// What a change that brings `data` in makes of `s`: the first target gives
/// way to `data` and the later targets are dropped; without a target, `s`
/// stays as it is.
pub open spec fn changed<T: Identity>(s: Seq<T>, current: Option<T>, data: T) -> Seq<T> {
    match first_target(s, current, data) {
        Some(i) => s.subrange(0, i).push(data) + without_targets(
            s.subrange(i, s.len() as int),
            current,
            data,
        ),
        None => s,
    }
}

/// The items of `s` whose identity no earlier item has, in their order.
pub open spec fn first_occurrences<T: Identity>(s: Seq<T>) -> Seq<T>
    decreases s.len(),
{
    if s.len() == 0 {
        s
    } else {
        let d = first_occurrences(s.drop_last());
        if has_id(d, s.last()) {
            d
        } else {
            d.push(s.last())
        }
    }
}

/// An ordered sequence in which no two items share an identity.
#[derive(Debug)]
pub struct OrderedSet<T: Identity> {
    items: Vec<T>,
}

impl<T: Identity> View for OrderedSet<T> {
    type V = Seq<T>;

    closed spec fn view(&self) -> Seq<T> {
        self.items@
    }
}

proof fn lemma_first_target_exists<T: Identity>(s: Seq<T>, current: Option<T>, data: T, i: int)
    requires
        0 <= i < s.len(),
        is_target(s[i], current, data),
        forall|k: int| 0 <= k < i ==> !is_target(#[trigger] s[k], current, data),
    ensures
        first_target(s, current, data) == Some(i),
{
    let j = choose|j: int|
        0 <= j < s.len() && is_target(s[j], current, data) && forall|k: int|
            0 <= k < j ==> !is_target(#[trigger] s[k], current, data);
    assert(j == i) by {
        if j < i {
            assert(!is_target(s[j], current, data));
        }
        if i < j {
            assert(!is_target(s[i], current, data));
        }
    }
}

proof fn lemma_without_targets<T: Identity>(s: Seq<T>, current: Option<T>, data: T)
    requires
        distinct_ids(s),
    ensures
        distinct_ids(without_targets(s, current, data)),
        forall|k: int|
            0 <= k < without_targets(s, current, data).len() ==> {
                let x = #[trigger] without_targets(s, current, data)[k];
                !is_target(x, current, data) && exists|m: int| 0 <= m < s.len() && s[m] == x
            },
    decreases s.len(),
{
    if s.len() > 0 {
        let p = s.drop_last();
        assert(distinct_ids(p)) by {
            assert forall|i: int, j: int|
                0 <= i < p.len() && 0 <= j < p.len() && i != j implies p[i].identity()
                != p[j].identity() by {
                assert(p[i] == s[i] && p[j] == s[j]);
            }
        }
        lemma_without_targets(p, current, data);
        let rest = without_targets(p, current, data);
        assert forall|k: int| 0 <= k < rest.len() implies exists|m: int|
            0 <= m < s.len() && s[m] == #[trigger] rest[k] by {
            let m = choose|m: int| 0 <= m < p.len() && p[m] == rest[k];
            assert(s[m] == rest[k]);
        }
        if !is_target(s.last(), current, data) {
            let r = rest.push(s.last());
            assert forall|i: int, j: int|
                0 <= i < r.len() && 0 <= j < r.len() && i != j implies r[i].identity()
                != r[j].identity() by {
                if i < rest.len() && j < rest.len() {
                    assert(r[i] == rest[i] && r[j] == rest[j]);
                } else if i < rest.len() {
                    let m = choose|m: int| 0 <= m < p.len() && p[m] == rest[i];
                    assert(s[m] == r[i]);
                    assert(r[j] == s[s.len() - 1]);
                } else {
                    let m = choose|m: int| 0 <= m < p.len() && p[m] == rest[j];
                    assert(s[m] == r[j]);
                    assert(r[i] == s[s.len() - 1]);
                }
            }
            assert forall|k: int| 0 <= k < r.len() implies {
                let x = #[trigger] r[k];
                !is_target(x, current, data) && exists|m: int| 0 <= m < s.len() && s[m] == x
            } by {
                if k < rest.len() {
                    assert(r[k] == rest[k]);
                } else {
                    assert(s[s.len() - 1] == r[k]);
                }
            }
        }
    }
}

impl<T: Identity> OrderedSet<T> {
    /// The set's invariant: no two items share an identity.
    pub open spec fn wf(&self) -> bool {
        distinct_ids(self@)
    }

    /// Creates an empty set.
    pub fn new() -> (r: Self)
        ensures
            r@ == Seq::<T>::empty(),
            r.wf(),
    {
        OrderedSet { items: Vec::new() }
    }

    /// Creates an empty set with room for `capacity` items.
    pub fn with_capacity(capacity: usize) -> (r: Self)
        ensures
            r@ == Seq::<T>::empty(),
            r.wf(),
    {
        OrderedSet { items: Vec::with_capacity(capacity) }
    }

    /// The number of items.
    pub fn len(&self) -> (r: usize)
        ensures
            r == self@.len(),
    {
        self.items.len()
    }

    /// Whether the set holds no item.
    pub fn is_empty(&self) -> (r: bool)
        ensures
            r == (self@.len() == 0),
    {
        self.items.len() == 0
    }

    /// An iterator over the items, in order.
    pub fn iter(&self) -> (r: std::slice::Iter<'_, T>)
        ensures
            r.remaining().len() == self@.len(),
            forall|i: int| 0 <= i < self@.len() ==> *r.remaining()[i] == self@[i],
    {
        proof {
            broadcast use vstd::std_specs::slice::axiom_spec_slice_iter;
        }
        self.items.as_slice().iter()
    }

    /// The first item, if any.
    pub fn head(&self) -> (r: Option<&T>)
        ensures
            self@.len() == 0 ==> r is None,
            self@.len() > 0 ==> r == Some(&self@[0]),
    {
        if self.items.len() == 0 {
            None
        } else {
            Some(&self.items[0])
        }
    }

    /// The last item, if any.
    pub fn tail(&self) -> (r: Option<&T>)
        ensures
            self@.len() == 0 ==> r is None,
            self@.len() > 0 ==> r == Some(&self@.last()),
    {
        let n = self.items.len();
        if n == 0 {
            None
        } else {
            Some(&self.items[n - 1])
        }
    }

    /// The items, in order.
    pub fn as_slice(&self) -> (r: &[T])
        ensures
            r@ == self@,
    {
        self.items.as_slice()
    }

    /// Consumes the set and returns its items, in order.
    pub fn into_vec(self) -> (r: Vec<T>)
        ensures
            r@ == self@,
    {
        self.items
    }

    /// Whether some item has the identity of `item`.
    pub fn contains(&self, item: &T) -> (r: bool)
        ensures
            r == has_id(self@, *item),
    {
        let mut i: usize = 0;
        while i < self.items.len()
            invariant
                0 <= i <= self.items@.len(),
                forall|k: int| 0 <= k < i ==> self.items@[k].identity() != item.identity(),
            decreases self.items@.len() - i,
        {
            if self.items[i].same_identity(item) {
                return true;
            }
            i += 1;
        }
        false
    }

    /// Adds `item` at the back, unless an item with its identity is already
    /// there; returns whether it was added.
    pub fn append(&mut self, item: T) -> (r: bool)
        requires
            old(self).wf(),
        ensures
            final(self).wf(),
            r == !has_id(old(self)@, item),
            r ==> final(self)@ == old(self)@.push(item),
            !r ==> final(self)@ == old(self)@,
    {
        if self.contains(&item) {
            false
        } else {
            let ghost before = self.items@;
            self.items.push(item);
            assert(distinct_ids(self.items@)) by {
                assert forall|i: int, j: int|
                    0 <= i < self.items@.len() && 0 <= j < self.items@.len() && i != j implies
                    self.items@[i].identity() != self.items@[j].identity() by {
                    if i < before.len() && j < before.len() {
                        assert(self.items@[i] == before[i] && self.items@[j] == before[j]);
                    } else if i < before.len() {
                        assert(self.items@[i] == before[i]);
                    } else {
                        assert(self.items@[j] == before[j]);
                    }
                }
            }
            true
        }
    }

    /// Adds `item` at the front, unless an item with its identity is already
    /// there; returns whether it was added.
    pub fn prepend(&mut self, item: T) -> (r: bool)
        requires
            old(self).wf(),
        ensures
            final(self).wf(),
            r == !has_id(old(self)@, item),
            r ==> final(self)@ == seq![item] + old(self)@,
            !r ==> final(self)@ == old(self)@,
    {
        if self.contains(&item) {
            false
        } else {
            let ghost before = self.items@;
            self.items.insert(0, item);
            assert(self.items@ == seq![item] + before);
            assert(distinct_ids(self.items@)) by {
                assert forall|i: int, j: int|
                    0 <= i < self.items@.len() && 0 <= j < self.items@.len() && i != j implies
                    self.items@[i].identity() != self.items@[j].identity() by {
                    if i > 0 && j > 0 {
                        assert(self.items@[i] == before[i - 1] && self.items@[j] == before[j - 1]);
                    } else if i > 0 {
                        assert(self.items@[i] == before[i - 1]);
                    } else {
                        assert(self.items@[j] == before[j - 1]);
                    }
                }
            }
            true
        }
    }

    /// Puts `update` in place of the first item whose identity is that of
    /// `current` or of `update`, and drops the later items with the identity
    /// of `update`; returns whether such an item was found.
    pub fn replace(&mut self, current: &T, update: T) -> (r: bool)
        requires
            old(self).wf(),
        ensures
            final(self).wf(),
            r == (first_target(old(self)@, Some(*current), update) is Some),
            final(self)@ == changed(old(self)@, Some(*current), update),
            !r ==> final(self)@ == old(self)@,
            !has_id(old(self)@, *current) && !has_id(old(self)@, update) ==> !r && final(self)@
                == old(self)@,
    {
        let r = self.change(Some(current), update);
        proof {
            if r {
                let i = choose|i: int|
                    0 <= i < old(self)@.len() && is_target(old(self)@[i], Some(*current), update);
                assert(has_id(old(self)@, *current) || has_id(old(self)@, update));
            }
        }
        r
    }

    /// Puts `update` in place of the first item with its identity, and drops
    /// the later ones with that identity; returns whether such an item was
    /// found.
    pub fn update(&mut self, update: T) -> (r: bool)
        requires
            old(self).wf(),
        ensures
            final(self).wf(),
            r == has_id(old(self)@, update),
            final(self)@ == changed(old(self)@, None, update),
            !r ==> final(self)@ == old(self)@,
    {
        self.change(None, update)
    }

    fn change(&mut self, current: Option<&T>, data: T) -> (r: bool)
        requires
            old(self).wf(),
        ensures
            final(self).wf(),
            r == (first_target(old(self)@, opt_val(current), data) is Some),
            r == has_target(old(self)@, opt_val(current), data),
            final(self)@ == changed(old(self)@, opt_val(current), data),
    {
        let ghost cur = opt_val(current);
        let ghost s = self.items@;
        let n = self.items.len();
        let mut i: usize = 0;
        let mut found = false;
        while !found && i < n
            invariant
                cur == opt_val(current),
                n == s.len(),
                self.items@ == s,
                0 <= i <= n,
                found ==> i < n && is_target(s[i as int], cur, data),
                forall|k: int| 0 <= k < i ==> !is_target(#[trigger] s[k], cur, data),
            decreases n - i + (if found { 0int } else { 1int }),
        {
            let hit = match current {
                Some(c) => self.items[i].same_identity(c),
                None => false,
            };
            let hit_data = self.items[i].same_identity(&data);
            assert((hit || hit_data) == is_target(s[i as int], cur, data));
            if hit || hit_data {
                found = true;
            } else {
                i += 1;
            }
        }
        if !found {
            assert(!has_target(s, cur, data));
            return false;
        }
        proof {
            lemma_first_target_exists(s, cur, data, i as int);
        }
        let mut tail = self.items.split_off(i);
        assert(self.items@ == s.subrange(0, i as int));
        assert(tail@ == s.subrange(i as int, n as int));
        let ghost rest = s.subrange(i as int, n as int);
        let mut kept: Vec<T> = Vec::new();
        let mut done: usize = 0;
        while tail.len() > 0
            invariant
                cur == opt_val(current),
                i < n,
                n == s.len(),
                rest == s.subrange(i as int, n as int),
                done + tail@.len() == rest.len(),
                tail@ == rest.subrange(done as int, rest.len() as int),
                kept@ == without_targets(rest.subrange(0, done as int), cur, data),
                self.items@ == s.subrange(0, i as int),
            decreases tail@.len(),
        {
            let item = tail.remove(0);
            let ghost seen = rest.subrange(0, done as int);
            assert(rest.subrange(0, done + 1).drop_last() == seen);
            assert(rest.subrange(0, done + 1).last() == item);
            let hit = match current {
                Some(c) => item.same_identity(c),
                None => false,
            };
            let hit_data = item.same_identity(&data);
            assert((hit || hit_data) == is_target(item, cur, data));
            if !hit && !hit_data {
                kept.push(item);
            }
            done += 1;
            assert(tail@ == rest.subrange(done as int, rest.len() as int));
        }
        assert(rest.subrange(0, done as int) == rest);
        self.items.push(data);
        self.items.append(&mut kept);
        proof {
            let w = without_targets(rest, cur, data);
            assert(self.items@ == s.subrange(0, i as int).push(data) + w);
            assert(distinct_ids(rest)) by {
                assert forall|a: int, b: int|
                    0 <= a < rest.len() && 0 <= b < rest.len() && a != b implies rest[a].identity()
                    != rest[b].identity() by {
                    assert(rest[a] == s[a + i] && rest[b] == s[b + i]);
                }
            }
            lemma_without_targets(rest, cur, data);
            let r = self.items@;
            assert forall|a: int, b: int|
                0 <= a < r.len() && 0 <= b < r.len() && a != b implies r[a].identity()
                != r[b].identity() by {
                if a < i && b < i {
                    assert(r[a] == s[a] && r[b] == s[b]);
                } else if a < i && b == i {
                    assert(r[a] == s[a] && !is_target(s[a], cur, data));
                } else if a == i && b < i {
                    assert(r[b] == s[b] && !is_target(s[b], cur, data));
                } else if a == i {
                    assert(r[b] == w[b - i - 1]);
                } else if b == i {
                    assert(r[a] == w[a - i - 1]);
                } else if a < i {
                    assert(r[b] == w[b - i - 1]);
                    let m = choose|m: int| 0 <= m < rest.len() && rest[m] == w[b - i - 1];
                    assert(r[a] == s[a] && r[b] == s[m + i]);
                } else if b < i {
                    assert(r[a] == w[a - i - 1]);
                    let m = choose|m: int| 0 <= m < rest.len() && rest[m] == w[a - i - 1];
                    assert(r[b] == s[b] && r[a] == s[m + i]);
                } else {
                    assert(r[a] == w[a - i - 1] && r[b] == w[b - i - 1]);
                }
            }
        }
        true
    }

    /// Builds a set from `items`, keeping the first item of each identity,
    /// in order.
    pub fn from_iter(items: Vec<T>) -> (r: Self)
        ensures
            r.wf(),
            r@ == first_occurrences(items@),
    {
        let mut rest = items;
        let ghost all = rest@;
        let mut this = OrderedSet::with_capacity(rest.len());
        let total = rest.len();
        let mut done: usize = 0;
        while rest.len() > 0
            invariant
                all == items@,
                all.len() == total,
                this.wf(),
                done + rest@.len() == all.len(),
                rest@ == all.subrange(done as int, all.len() as int),
                this@ == first_occurrences(all.subrange(0, done as int)),
            decreases rest@.len(),
        {
            let item = rest.remove(0);
            assert(all.subrange(0, done + 1).drop_last() == all.subrange(0, done as int));
            assert(all.subrange(0, done + 1).last() == item);
            this.append(item);
            done += 1;
            assert(rest@ == all.subrange(done as int, all.len() as int));
        }
        assert(all.subrange(0, done as int) == all);
        this
    }

    /// Builds a set that holds `items` in order; fails with
    /// `Error::InvalidSet` where two of them share an identity.
    pub fn try_from(items: Vec<T>) -> (r: Result<Self, Error>)
        ensures
            r is Ok <==> distinct_ids(items@),
            r matches Ok(set) ==> set@ == items@ && set.wf(),
            r is Err ==> r == Err::<Self, Error>(Error::InvalidSet { error: ERR_DUPLICATE_ITEM }),
    {
        let mut rest = items;
        let ghost all = rest@;
        let mut this = OrderedSet::with_capacity(rest.len());
        let total = rest.len();
        let mut done: usize = 0;
        while rest.len() > 0
            invariant
                all == items@,
                all.len() == total,
                this.wf(),
                done + rest@.len() == all.len(),
                rest@ == all.subrange(done as int, all.len() as int),
                this@ == all.subrange(0, done as int),
            decreases rest@.len(),
        {
            let item = rest.remove(0);
            let ghost g = item;
            assert(all[done as int] == item);
            if !this.append(item) {
                proof {
                    let j = choose|j: int|
                        0 <= j < this@.len() && this@[j].identity() == g.identity();
                    assert(all[j] == this@[j]);
                    assert(all[j].identity() == all[done as int].identity());
                    assert(!distinct_ids(all));
                }
                return Err(Error::InvalidSet { error: ERR_DUPLICATE_ITEM });
            }
            done += 1;
            assert(this@ == all.subrange(0, done as int));
            assert(rest@ == all.subrange(done as int, all.len() as int));
        }
        assert(all.subrange(0, done as int) == all);
        Ok(this)
    }
}

impl<T: Identity> Default for OrderedSet<T> {
    fn default() -> (r: Self)
        ensures
            r@ == Seq::<T>::empty(),
            r.wf(),
    {
        OrderedSet::new()
    }
}

} // verus!
