//! A fixed-capacity first-in, first-out buffer that evicts its oldest
//! element when a new one arrives at full capacity.

use vstd::prelude::*;

verus! {

/// The latest `capacity` elements of `s`, in the order in which they came
/// (all of `s` where it holds no more than that).
pub open spec fn keep_latest<T>(s: Seq<T>, capacity: nat) -> Seq<T> {
    if s.len() <= capacity {
        s
    } else {
        s.subrange(s.len() - capacity, s.len() as int)
    }
}

/// A window over the latest elements of a stream, oldest first.
pub struct BoundedWindow<T> {
    items: Vec<T>,
    capacity: usize,
}

impl<T> BoundedWindow<T> {
    #[verifier::type_invariant]
    spec fn well_formed(&self) -> bool {
        0 < self.capacity && self.items@.len() <= self.capacity
    }

    /// The contents, oldest first.
    pub closed spec fn view(&self) -> Seq<T> {
        self.items@
    }

    /// The capacity the window was made with.
    pub closed spec fn cap(&self) -> nat {
        self.capacity as nat
    }

    /// An empty window of the given capacity; a capacity of zero is refused.
    pub fn new(capacity: usize) -> (r: Option<Self>)
        ensures
            capacity == 0 <==> r is None,
            r matches Some(w) ==> w@ == Seq::<T>::empty() && w.cap() == capacity,
    {
        if capacity == 0 {
            None
        } else {
            Some(BoundedWindow { items: Vec::new(), capacity })
        }
    }

    /// Appends `value`, evicting the oldest element first when the window is full.
    pub fn push(&mut self, value: T)
        ensures
            final(self).cap() == old(self).cap(),
            final(self)@ == keep_latest(old(self)@.push(value), old(self).cap()),
            final(self)@.len() <= final(self).cap(),
    {
        proof {
            use_type_invariant(&*self);
        }
        // The elements are taken out while the vector changes, so that the
        // window is well formed at every point at which a call could unwind.
        let mut items: Vec<T> = Vec::new();
        core::mem::swap(&mut self.items, &mut items);
        if items.len() >= self.capacity {
            items.remove(0);
        }
        items.push(value);
        assert(items@ =~= keep_latest(old(self).items@.push(value), old(self).capacity as nat));
        core::mem::swap(&mut self.items, &mut items);
    }

    /// The number of elements held, never more than the capacity.
    pub fn len(&self) -> (r: usize)
        ensures
            r == self@.len(),
            r <= self.cap(),
    {
        proof {
            use_type_invariant(self);
        }
        self.items.len()
    }

    /// The capacity, never zero.
    pub fn capacity(&self) -> (r: usize)
        ensures
            r == self.cap(),
            r > 0,
    {
        proof {
            use_type_invariant(self);
        }
        self.capacity
    }

    /// Whether the next push will evict.
    pub fn is_full(&self) -> (r: bool)
        ensures
            r == (self@.len() == self.cap()),
    {
        proof {
            use_type_invariant(self);
        }
        self.items.len() == self.capacity
    }

    /// The element at `index`, counted from the oldest.
    pub fn get(&self, index: usize) -> (r: Option<&T>)
        ensures
            index < self@.len() <==> r is Some,
            r matches Some(v) ==> *v == self@[index as int],
    {
        if index < self.items.len() {
            Some(&self.items[index])
        } else {
            None
        }
    }
}

impl<T: Copy> BoundedWindow<T> {
    /// A copy of the contents, oldest first; the window itself is left as it is.
    pub fn snapshot(&self) -> (r: Vec<T>)
        ensures
            r@ == self@,
            r@.len() <= self.cap(),
    {
        proof {
            use_type_invariant(self);
        }
        let n: usize = self.items.len();
        let mut out: Vec<T> = Vec::with_capacity(n);
        let mut i: usize = 0;
        while i < n
            invariant
                n == self.items@.len(),
                i <= n,
                out@ == self.items@.take(i as int),
            decreases n - i,
        {
            out.push(self.items[i]);
            assert(self.items@.take(i + 1) =~= self.items@.take(i as int).push(self.items@[i as int]));
            i = i + 1;
        }
        assert(self.items@.take(n as int) =~= self.items@);
        out
    }
}

/// The contents of a window with contents `s` after each element of
/// `items` has been pushed in turn.
pub open spec fn push_all<T>(s: Seq<T>, items: Seq<T>, capacity: nat) -> Seq<T>
    decreases items.len(),
{
    if items.len() == 0 {
        s
    } else {
        keep_latest(push_all(s, items.drop_last(), capacity).push(items.last()), capacity)
    }
}

/// Whatever is pushed, and however much of it, a window never holds more
/// than its capacity: it holds the latest `capacity` elements of what it
/// held followed by what was pushed, in the order in which they came.
pub proof fn lemma_push_all_keeps_latest<T>(s: Seq<T>, items: Seq<T>, capacity: nat)
    requires
        0 < capacity,
        s.len() <= capacity,
    ensures
        push_all(s, items, capacity) == keep_latest(s + items, capacity),
        push_all(s, items, capacity).len() <= capacity,
    decreases items.len(),
{
    if items.len() == 0 {
        assert(s + items =~= s);
    } else {
        let front = items.drop_last();
        lemma_push_all_keeps_latest(s, front, capacity);
        assert((s + front).push(items.last()) =~= s + items);
        assert(keep_latest(keep_latest(s + front, capacity).push(items.last()), capacity)
            =~= keep_latest(s + items, capacity));
    }
}

/// Once a value has been pushed at least `capacity` times in a row, the
/// window is full and holds nothing but that value.
pub proof fn lemma_identical_pushes_fill<T>(s: Seq<T>, value: T, times: nat, capacity: nat)
    requires
        0 < capacity <= times,
        s.len() <= capacity,
    ensures
        push_all(s, Seq::new(times, |i: int| value), capacity) == Seq::new(
            capacity,
            |i: int| value,
        ),
{
    let items = Seq::new(times, |i: int| value);
    lemma_push_all_keeps_latest(s, items, capacity);
    assert(keep_latest(s + items, capacity) =~= Seq::new(capacity, |i: int| value));
}

} // verus!
