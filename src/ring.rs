use vstd::prelude::*;

verus! {

/// The last `n` items of `s` (all of `s` when it has at most `n`).
pub open spec fn keep_last<T>(s: Seq<T>, n: nat) -> Seq<T> {
    if s.len() <= n {
        s
    } else {
        s.subrange(s.len() - n, s.len() as int)
    }
}

/// Trimming before a push and after it keeps the same items as trimming
/// only after it.
pub proof fn lemma_keep_last_push<T>(s: Seq<T>, x: T, n: nat)
    requires
        n > 0,
    ensures
        keep_last(keep_last(s, n).push(x), n) == keep_last(s.push(x), n),
{
    assert(keep_last(keep_last(s, n).push(x), n) =~= keep_last(s.push(x), n));
}

/// Trimming before an append and after it keeps the same items as trimming
/// only after it.
pub proof fn lemma_keep_last_append<T>(s: Seq<T>, t: Seq<T>, n: nat)
    ensures
        keep_last(keep_last(s, n) + t, n) == keep_last(s + t, n),
{
    if s.len() > n {
        let k = keep_last(s, n);
        assert forall|i: int| 0 <= i < (k + t).len() implies #[trigger] (k + t)[i] == (s + t)[i + s.len()
            - n] by {
            if i < n {
                assert(k[i] == s[i + s.len() - n]);
            }
        }
        assert(keep_last(k + t, n) =~= keep_last(s + t, n));
    }
}

/// Position in the storage of the `i`-th oldest item, counted from `head`.
pub open spec fn slot(head: int, i: int, n: int) -> int {
    if head + i < n {
        head + i
    } else {
        head + i - n
    }
}

/// A fixed-capacity buffer that keeps the most recent items pushed into it,
/// oldest first; once full, each push overwrites the oldest item.
pub struct CircularBuffer<T> {
    buffer: Vec<T>,
    capacity: usize,
    head: usize,
}

impl<T> View for CircularBuffer<T> {
    type V = Seq<T>;

    /// The stored items, oldest first.
    closed spec fn view(&self) -> Seq<T> {
        Seq::new(
            self.buffer@.len(),
            |i: int| self.buffer@[slot(self.head as int, i, self.buffer@.len() as int)],
        )
    }
}

impl<T> CircularBuffer<T> {
    /// The number of items the buffer holds at most.
    pub closed spec fn cap(&self) -> nat {
        self.capacity as nat
    }

    /// The storage holds at most `capacity` items; until it is full they
    /// stand in push order from the start, and once full the oldest stands
    /// at `head`.
    pub closed spec fn wf(&self) -> bool {
        &&& 0 < self.capacity
        &&& self.buffer@.len() <= self.capacity
        &&& self.buffer@.len() < self.capacity ==> self.head == 0
        &&& self.head < self.capacity
    }

    /// What a well-formed buffer guarantees to its users.
    pub proof fn lemma_wf(&self)
        requires
            self.wf(),
        ensures
            0 < self.cap(),
            self@.len() <= self.cap(),
    {
    }

    /// An empty buffer that holds at most `capacity` items; a capacity of
    /// zero is not a valid buffer.
    pub fn new(capacity: usize) -> (r: Self)
        requires
            capacity > 0,
        ensures
            r.wf(),
            r@ == Seq::<T>::empty(),
            r.cap() == capacity,
    {
        let r = CircularBuffer { buffer: Vec::with_capacity(capacity), capacity, head: 0 };
        assert(r@ =~= Seq::<T>::empty());
        r
    }

    /// The number of items the buffer holds at most.
    pub fn capacity(&self) -> (r: usize)
        ensures
            r == self.cap(),
    {
        self.capacity
    }

    /// The number of items stored.
    pub fn len(&self) -> (r: usize)
        requires
            self.wf(),
        ensures
            r == self@.len(),
    {
        self.buffer.len()
    }

    /// Appends `item`; when the buffer is full, the oldest item is dropped.
    pub fn push(&mut self, item: T)
        requires
            old(self).wf(),
        ensures
            final(self).wf(),
            final(self).cap() == old(self).cap(),
            final(self)@ == keep_last(old(self)@.push(item), old(self).cap()),
    {
        let ghost before = self@;
        if self.buffer.len() < self.capacity {
            self.buffer.push(item);
            assert(self@ =~= before.push(item));
        } else {
            let h = self.head;
            self.buffer.set(h, item);
            self.head = if h + 1 == self.capacity {
                0
            } else {
                h + 1
            };
            let ghost n = before.len() as int;
            assert forall|i: int| 0 <= i < n implies #[trigger] self@[i] == before.push(item).subrange(
                1,
                n + 1,
            )[i] by {
                if i < n - 1 {
                    assert(before[i + 1] == self.buffer@[slot(h as int, i + 1, n)]);
                }
            }
            assert(self@ =~= keep_last(before.push(item), self.capacity as nat));
        }
    }

    /// The stored items, oldest first.
    pub fn iter(&self) -> (r: Vec<&T>)
        requires
            self.wf(),
        ensures
            r@ == self@.as_ref(),
    {
        let n = self.buffer.len();
        let mut r: Vec<&T> = Vec::new();
        let mut i: usize = 0;
        while i < n
            invariant
                self.wf(),
                n == self.buffer@.len(),
                i <= n,
                r@ == self@.as_ref().take(i as int),
            decreases n - i,
        {
            let k = if i < n - self.head {
                self.head + i
            } else {
                i - (n - self.head)
            };
            r.push(&self.buffer[k]);
            i = i + 1;
            assert(r@ =~= self@.as_ref().take(i as int));
        }
        assert(r@ =~= self@.as_ref());
        r
    }

    /// Drops every item; the capacity stays.
    pub fn clear(&mut self)
        requires
            old(self).wf(),
        ensures
            final(self).wf(),
            final(self).cap() == old(self).cap(),
            final(self)@ == Seq::<T>::empty(),
    {
        self.buffer.clear();
        self.head = 0;
        assert(self@ =~= Seq::<T>::empty());
    }

    /// The serialized form: the capacity and the stored items, oldest first.
    pub fn serialize(&self) -> (r: (usize, Vec<&T>))
        requires
            self.wf(),
        ensures
            r.0 == self.cap(),
            r.1@ == self@.as_ref(),
    {
        (self.capacity, self.iter())
    }

    /// Rebuilds a buffer from its serialized form by pushing each item, in
    /// order, into a fresh buffer of the given capacity.
    pub fn deserialize(capacity: usize, data: Vec<T>) -> (r: Self)
        requires
            capacity > 0,
        ensures
            r.wf(),
            r.cap() == capacity,
            r@ == keep_last(data@, capacity as nat),
    {
        let ghost items = data@;
        let mut r = CircularBuffer::new(capacity);
        for item in it: data
            invariant
                r.wf(),
                r.cap() == capacity,
                it.seq() == items,
                r@ == keep_last(items.take(it.index()), capacity as nat),
        {
            proof {
                lemma_keep_last_push(items.take(it.index()), item, capacity as nat);
                assert(items.take(it.index()).push(item) =~= items.take(it.index() + 1));
            }
            r.push(item);
        }
        assert(items.take(items.len() as int) =~= items);
        r
    }

    /// Whether no item is stored.
    pub fn is_empty(&self) -> (r: bool)
        requires
            self.wf(),
        ensures
            r == (self@.len() == 0),
    {
        self.buffer.len() == 0
    }
}

/// The contents of a buffer of capacity `n` holding `s`, after pushing each
/// item of `xs` in order.
pub open spec fn pushed_all<T>(s: Seq<T>, xs: Seq<T>, n: nat) -> Seq<T>
    decreases xs.len(),
{
    if xs.len() == 0 {
        s
    } else {
        pushed_all(keep_last(s.push(xs[0]), n), xs.drop_first(), n)
    }
}

/// Pushing a sequence of items keeps exactly the last `n` of everything
/// stored and pushed, in push order.
pub proof fn lemma_pushed_all<T>(s: Seq<T>, xs: Seq<T>, n: nat)
    requires
        n > 0,
        s.len() <= n,
    ensures
        pushed_all(s, xs, n) == keep_last(s + xs, n),
    decreases xs.len(),
{
    if xs.len() > 0 {
        let t = keep_last(s.push(xs[0]), n);
        lemma_pushed_all(t, xs.drop_first(), n);
        assert(s.push(xs[0]) + xs.drop_first() =~= s + xs);
        let u = s.push(xs[0]) + xs.drop_first();
        // trimming the first part first does not change the last n items
        if s.push(xs[0]).len() > n {
            assert(keep_last(t + xs.drop_first(), n) =~= keep_last(u, n));
        } else {
            assert(t == s.push(xs[0]));
        }
    }
}

/// A buffer of capacity zero never exists: `new` and `deserialize` demand a
/// positive capacity, and every well-formed buffer has one.
pub proof fn lemma_no_zero_capacity<T>(b: CircularBuffer<T>)
    requires
        b.wf(),
    ensures
        b.cap() != 0,
{
}

/// After pushing `M` items into a fresh buffer of capacity `C`, the buffer
/// yields exactly `min(M, C)` items: the last ones pushed, in push order.
pub proof fn lemma_fresh_pushes<T>(xs: Seq<T>, n: nat)
    requires
        n > 0,
    ensures
        pushed_all(Seq::<T>::empty(), xs, n).len() == if xs.len() < n {
            xs.len()
        } else {
            n
        },
        pushed_all(Seq::<T>::empty(), xs, n) == xs.subrange(
            xs.len() - pushed_all(Seq::<T>::empty(), xs, n).len(),
            xs.len() as int,
        ),
{
    lemma_pushed_all(Seq::<T>::empty(), xs, n);
    assert(Seq::<T>::empty() + xs =~= xs);
    assert(xs.subrange(0, xs.len() as int) =~= xs);
}

/// A push into a full buffer drops exactly the oldest item and appends the
/// new one; a push never makes the buffer hold more than its capacity.
pub proof fn lemma_push_evicts_oldest<T>(s: Seq<T>, x: T, n: nat)
    requires
        n > 0,
        s.len() <= n,
    ensures
        keep_last(s.push(x), n).len() <= n,
        s.len() == n ==> keep_last(s.push(x), n) == s.drop_first().push(x),
        s.len() < n ==> keep_last(s.push(x), n) == s.push(x),
{
    if s.len() == n {
        assert(keep_last(s.push(x), n) =~= s.drop_first().push(x));
    }
}

/// A cleared buffer is empty, and pushing into it behaves as pushing into a
/// fresh buffer of the same capacity.
pub proof fn lemma_clear_is_fresh<T>(cleared: CircularBuffer<T>, fresh: CircularBuffer<T>, xs: Seq<T>)
    requires
        cleared.wf(),
        fresh.wf(),
        cleared@ == Seq::<T>::empty(),
        fresh@ == Seq::<T>::empty(),
        cleared.cap() == fresh.cap(),
    ensures
        cleared@.len() == 0,
        pushed_all(cleared@, xs, cleared.cap()) == pushed_all(fresh@, xs, fresh.cap()),
{
}

/// Rebuilding a buffer from the serialized form of `b` (what `deserialize`
/// returns on `b.serialize()`) gives back the same capacity and the same
/// items, so that serializing it again gives the same form.
pub proof fn lemma_serialize_round_trip<T>(b: CircularBuffer<T>, rebuilt: CircularBuffer<T>)
    requires
        b.wf(),
        rebuilt.wf(),
        rebuilt.cap() == b.cap(),
        rebuilt@ == keep_last(b@.as_ref().unref(), b.cap()),
    ensures
        rebuilt.cap() == b.cap(),
        rebuilt@ == b@,
{
    assert(b@.as_ref().unref() =~= b@);
}

} // verus!
