//! A circular buffer-like queue.
//!
//! The `CircularQueue<T>` is created with a fixed capacity, then items are
//! pushed in. When the queue runs out of capacity, newer items start
//! overwriting the old ones, starting from the oldest.
//!
//! The abstract value of a queue, written `q@`, is the sequence of its live
//! elements ordered from the most recently pushed one to the oldest one.
//! Two queues are considered equal if they hold the same live sequence,
//! regardless of their capacities.

use vstd::prelude::*;
use vstd::std_specs::cmp::PartialEqSpec;

verus! {

/// The live sequence (newest first) after pushing `x` into a buffer of
/// capacity `cap` whose live sequence is `v`: with no capacity nothing
/// changes, below capacity `x` is prepended, and at capacity `x` is
/// prepended while the oldest element drops off.
pub open spec fn pushed_view<T>(v: Seq<T>, cap: nat, x: T) -> Seq<T> {
    if cap == 0 {
        v
    } else if v.len() < cap {
        seq![x] + v
    } else {
        (seq![x] + v).drop_last()
    }
}

/// What a push evicts out of a buffer of capacity `cap` whose live sequence
/// is `v`: nothing while there is room, the oldest live element once full.
pub open spec fn evicted_by_push<T>(v: Seq<T>, cap: nat) -> Option<T> {
    if cap > 0 && v.len() >= cap {
        Some(v.last())
    } else {
        None
    }
}

/// The live sequence of a freshly constructed buffer of capacity `cap`
/// after the elements of `xs` have been pushed into it, oldest push first.
pub open spec fn view_after_pushes<T>(cap: nat, xs: Seq<T>) -> Seq<T>
    decreases xs.len(),
{
    if xs.len() == 0 {
        Seq::<T>::empty()
    } else {
        pushed_view(view_after_pushes(cap, xs.drop_last()), cap, xs.last())
    }
}

/// A circular buffer-like queue with a capacity fixed at construction.
///
/// The backing store always holds exactly `capacity` slots; slots that do
/// not hold a live element keep a stale or placeholder value that no
/// operation ever yields.
#[derive(Debug)]
pub struct CircularQueue<T> {
    data: Vec<T>,
    length: usize,
    insertion_index: usize,
}

impl<T> View for CircularQueue<T> {
    type V = Seq<T>;

    closed spec fn view(&self) -> Seq<T> {
        Seq::new(self.length as nat, |i: int| self.data@[self.slot_of(i)])
    }
}

impl<T> CircularQueue<T> {
    /// The fixed capacity: the backing store's length.
    pub closed spec fn spec_capacity(&self) -> nat {
        self.data@.len()
    }

    /// Physical slot holding the `i`-th newest live element: slots are read
    /// backward from the insertion cursor, wrapping at the store's start.
    closed spec fn slot_of(&self, i: int) -> int {
        if i < self.insertion_index {
            self.insertion_index - 1 - i
        } else {
            self.data@.len() + self.insertion_index - 1 - i
        }
    }

    #[verifier::type_invariant]
    closed spec fn well_formed(&self) -> bool {
        &&& self.length <= self.data@.len()
        &&& if self.data@.len() == 0 {
            self.insertion_index == 0
        } else {
            (self.insertion_index as int) < self.data@.len()
        }
    }

    /// Constructs a new, empty `CircularQueue<T>` with the given capacity,
    /// which stays fixed for the queue's entire life. A capacity of zero is
    /// legal and makes the queue permanently empty.
    pub fn new(capacity: usize) -> (q: Self) where T: Default
        ensures
            q@ == Seq::<T>::empty(),
            q.spec_capacity() == capacity,
    {
        let mut data: Vec<T> = Vec::new();
        while data.len() < capacity
            invariant
                data@.len() <= capacity,
            decreases capacity - data@.len(),
        {
            data.push(T::default());
        }
        let q = CircularQueue { data, length: 0, insertion_index: 0 };
        proof {
            assert(q@ =~= Seq::<T>::empty());
        }
        q
    }

    /// Returns the current number of elements in the queue.
    pub fn len(&self) -> (n: usize)
        ensures
            n == self@.len(),
    {
        self.length
    }

    /// Returns `true` if the queue contains no elements.
    pub fn is_empty(&self) -> (b: bool)
        ensures
            b <==> self@.len() == 0,
    {
        self.length == 0
    }

    /// Returns `true` if the queue is full.
    pub fn is_full(&self) -> (b: bool)
        ensures
            b <==> self@.len() == self.spec_capacity(),
    {
        proof {
            use_type_invariant(self);
        }
        self.length == self.data.len()
    }

    /// Returns the capacity of the queue.
    pub fn capacity(&self) -> (c: usize)
        ensures
            c == self.spec_capacity(),
    {
        self.data.len()
    }

    /// Pushes a new element into the queue.
    ///
    /// Once the capacity is reached, pushing new items overwrites old ones,
    /// starting from the oldest; the overwritten value is returned. With a
    /// capacity of zero the queue stays empty and nothing is evicted.
    pub fn push(&mut self, x: T) -> (evicted: Option<T>)
        ensures
            final(self).spec_capacity() == old(self).spec_capacity(),
            final(self)@ == pushed_view(old(self)@, old(self).spec_capacity(), x),
            evicted == evicted_by_push(old(self)@, old(self).spec_capacity()),
    {
        proof {
            use_type_invariant(&*self);
        }
        if self.data.len() == 0 {
            proof {
                assert(self@ =~= pushed_view(old(self)@, old(self).spec_capacity(), x));
            }
            return None;
        }
        let ghost old_view = self@;
        let idx = self.insertion_index;
        let evicted: Option<T>;
        if self.length < self.data.len() {
            self.data[idx] = x;
            self.length = self.length + 1;
            evicted = None;
        } else {
            let mut old_val = x;
            core::mem::swap(&mut old_val, &mut self.data[idx]);
            evicted = Some(old_val);
            proof {
                assert(old(self).slot_of(self.length - 1) == idx);
            }
        }
        self.insertion_index = if idx + 1 == self.data.len() {
            0
        } else {
            idx + 1
        };
        proof {
            let cap = self.spec_capacity();
            assert forall|j: int| 0 < j < self@.len() implies self@[j] == old_view[j - 1] by {
                assert(self.slot_of(j) == old(self).slot_of(j - 1));
                assert(old(self).slot_of(j - 1) != idx);
            }
            assert(self@[0] == x);
            assert(self@ =~= pushed_view(old_view, cap, x));
        }
        evicted
    }

    /// Removes the most recently pushed element and returns a copy of it,
    /// or returns nothing when the queue is empty.
    pub fn pop(&mut self) -> (r: Option<T>) where T: Copy
        ensures
            final(self).spec_capacity() == old(self).spec_capacity(),
            old(self)@.len() == 0 ==> r is None && *final(self) == *old(self),
            old(self)@.len() > 0 ==> r == Some(old(self)@[0]) && final(self)@ == old(self)@.drop_first(),
    {
        proof {
            use_type_invariant(&*self);
        }
        if self.length == 0 {
            return None;
        }
        let ghost old_view = self@;
        let idx = if self.insertion_index == 0 {
            self.data.len() - 1
        } else {
            self.insertion_index - 1
        };
        proof {
            assert(old(self).slot_of(0) == idx);
        }
        self.insertion_index = idx;
        self.length = self.length - 1;
        proof {
            assert forall|j: int| 0 <= j < self@.len() implies self@[j] == old_view[j + 1] by {
                assert(self.slot_of(j) == old(self).slot_of(j + 1));
            }
            assert(self@ =~= old_view.drop_first());
        }
        Some(self.data[idx])
    }

    /// Returns a reference to the `i`-th newest live element: `get(0)` is
    /// the element the most recent push wrote.
    pub fn get(&self, i: usize) -> (r: &T)
        requires
            i < self@.len(),
        ensures
            *r == self@[i as int],
    {
        proof {
            use_type_invariant(self);
        }
        let idx = if i < self.insertion_index {
            self.insertion_index - 1 - i
        } else {
            self.insertion_index + (self.data.len() - 1 - i)
        };
        &self.data[idx]
    }

    /// Overwrites the `i`-th newest live element with `value`, leaving the
    /// rest of the queue as it was.
    pub fn set(&mut self, i: usize, value: T)
        requires
            i < old(self)@.len(),
        ensures
            final(self).spec_capacity() == old(self).spec_capacity(),
            final(self)@ == old(self)@.update(i as int, value),
    {
        proof {
            use_type_invariant(&*self);
        }
        let ghost old_view = self@;
        let idx = if i < self.insertion_index {
            self.insertion_index - 1 - i
        } else {
            self.insertion_index + (self.data.len() - 1 - i)
        };
        proof {
            assert(self.slot_of(i as int) == idx);
        }
        self.data[idx] = value;
        proof {
            assert forall|j: int| 0 <= j < self@.len() && j != i implies self@[j] == old_view[j] by {
                assert(self.slot_of(j) != idx);
            }
            assert(self@ =~= old_view.update(i as int, value));
        }
    }

    /// Clears the queue: afterwards it holds no live elements and behaves
    /// exactly like a freshly constructed queue of the same capacity.
    pub fn clear(&mut self)
        ensures
            final(self)@ == Seq::<T>::empty(),
            final(self).spec_capacity() == old(self).spec_capacity(),
    {
        proof {
            use_type_invariant(&*self);
        }
        self.insertion_index = 0;
        self.length = 0;
        proof {
            assert(self@ =~= Seq::<T>::empty());
        }
    }

    /// Returns the queue's live contents as a vector ordered from the most
    /// recently pushed element to the oldest one.
    pub fn iter(&self) -> (r: Vec<T>) where T: Copy
        ensures
            r@ == self@,
    {
        proof {
            use_type_invariant(self);
        }
        let mut r: Vec<T> = Vec::new();
        let mut i: usize = 0;
        while i < self.length
            invariant
                i <= self.length,
                self@.len() == self.length,
                r@ == self@.take(i as int),
            decreases self.length - i,
        {
            r.push(*self.get(i));
            proof {
                assert(r@ =~= self@.take(i + 1));
            }
            i = i + 1;
        }
        proof {
            assert(self@.take(self.length as int) =~= self@);
        }
        r
    }

    /// Returns the queue's live contents as a vector ordered from the least
    /// recently pushed element to the newest one: the reverse of `iter`.
    pub fn asc_iter(&self) -> (r: Vec<T>) where T: Copy
        ensures
            r@ == self@.reverse(),
    {
        proof {
            use_type_invariant(self);
        }
        let mut r: Vec<T> = Vec::new();
        let mut i: usize = 0;
        while i < self.length
            invariant
                i <= self.length,
                self@.len() == self.length,
                r@ == self@.reverse().take(i as int),
            decreases self.length - i,
        {
            r.push(*self.get(self.length - 1 - i));
            proof {
                assert(self@.reverse()[i as int] == self@[self.length - 1 - i]);
                assert(r@ =~= self@.reverse().take(i + 1));
            }
            i = i + 1;
        }
        proof {
            assert(self@.reverse().take(self.length as int) =~= self@.reverse());
        }
        r
    }
}

impl<T: PartialEq> PartialEq for CircularQueue<T> {
    /// Two queues are equal exactly when they yield the same live sequence,
    /// newest first, element by element; their capacities play no part.
    fn eq(&self, other: &Self) -> (r: bool) {
        if self.len() != other.len() {
            return false;
        }
        let n = self.len();
        let mut i: usize = 0;
        while i < n
            invariant
                i <= n,
                n == self@.len(),
                n == other@.len(),
                forall|j: int|
                    0 <= j < i ==> T::obeys_eq_spec() ==> (#[trigger] self@[j]).eq_spec(
                        &other@[j],
                    ),
            decreases n - i,
        {
            if !(*self.get(i) == *other.get(i)) {
                return false;
            }
            i = i + 1;
        }
        true
    }

    fn ne(&self, other: &Self) -> (r: bool) {
        !self.eq(other)
    }
}

impl<T: PartialEq> vstd::std_specs::cmp::PartialEqSpecImpl for CircularQueue<T> {
    open spec fn obeys_eq_spec() -> bool {
        T::obeys_eq_spec()
    }

    open spec fn eq_spec(&self, other: &Self) -> bool {
        &&& self@.len() == other@.len()
        &&& forall|j: int| 0 <= j < self@.len() ==> (#[trigger] self@[j]).eq_spec(&other@[j])
    }
}

/// After any sequence of pushes that stays within the capacity, the queue
/// holds exactly the pushed values, most recent first: `len()` equals the
/// number of pushes made, and the queue is full exactly when that number
/// reaches the capacity.
pub proof fn lemma_pushes_within_capacity<T>(cap: nat, xs: Seq<T>)
    requires
        xs.len() <= cap,
    ensures
        view_after_pushes(cap, xs) == xs.reverse(),
    decreases xs.len(),
{
    if xs.len() == 0 {
        assert(view_after_pushes(cap, xs) =~= xs.reverse());
    } else {
        lemma_pushes_within_capacity(cap, xs.drop_last());
        assert(view_after_pushes(cap, xs) =~= xs.reverse());
    }
}

/// After more pushes than the capacity, the queue holds exactly the last
/// `cap` pushed values, most recent first, so its length stays pinned at
/// the capacity.
pub proof fn lemma_pushes_beyond_capacity<T>(cap: nat, xs: Seq<T>)
    requires
        xs.len() > cap,
    ensures
        view_after_pushes(cap, xs) == xs.subrange(xs.len() - cap, xs.len() as int).reverse(),
    decreases xs.len(),
{
    if xs.len() == cap + 1 {
        lemma_pushes_within_capacity(cap, xs.drop_last());
    } else {
        lemma_pushes_beyond_capacity(cap, xs.drop_last());
    }
    assert(view_after_pushes(cap, xs) =~= xs.subrange(xs.len() - cap, xs.len() as int).reverse());
}

/// While fewer values went in than the queue can hold, the next push
/// evicts nothing.
pub proof fn lemma_no_eviction_below_capacity<T>(cap: nat, xs: Seq<T>)
    requires
        xs.len() < cap,
    ensures
        evicted_by_push(view_after_pushes(cap, xs), cap) is None,
{
    lemma_pushes_within_capacity(cap, xs);
}

/// Once at least `cap` values went in, the next push evicts exactly the
/// value that was pushed `cap` pushes earlier.
pub proof fn lemma_eviction_at_capacity<T>(cap: nat, xs: Seq<T>)
    requires
        cap > 0,
        xs.len() >= cap,
    ensures
        evicted_by_push(view_after_pushes(cap, xs), cap) == Some(xs[xs.len() - cap]),
{
    if xs.len() == cap {
        lemma_pushes_within_capacity(cap, xs);
    } else {
        lemma_pushes_beyond_capacity(cap, xs);
    }
}

/// A queue of capacity zero stays empty whatever is pushed into it, and no
/// push out of it ever evicts anything.
pub proof fn lemma_zero_capacity<T>(xs: Seq<T>)
    ensures
        view_after_pushes(0, xs) == Seq::<T>::empty(),
        evicted_by_push(view_after_pushes(0, xs), 0) is None,
    decreases xs.len(),
{
    if xs.len() > 0 {
        lemma_zero_capacity::<T>(xs.drop_last());
    }
    assert(view_after_pushes(0, xs) =~= Seq::<T>::empty());
}

/// Queue equality is determined solely by the live sequences, independent
/// of the two capacities, whenever equality on the element type is actual
/// equality (as it is for the integer types).
pub proof fn lemma_eq_is_sequence_eq<T: PartialEq>(a: &CircularQueue<T>, b: &CircularQueue<T>)
    requires
        vstd::laws_eq::obeys_concrete_eq::<T>(),
    ensures
        a.eq_spec(b) <==> a@ == b@,
{
    reveal(vstd::laws_eq::obeys_concrete_eq);
    if a.eq_spec(b) {
        assert(a@ =~= b@);
    }
}

} // verus!
