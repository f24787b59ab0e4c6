use vstd::prelude::*;

verus! {

/// The last `capacity` items of `items`, in their order; all of them where
/// there are no more than `capacity`.
pub open spec fn most_recent(items: Seq<u64>, capacity: nat) -> Seq<u64> {
    if items.len() <= capacity {
        items
    } else {
        items.subrange(items.len() - capacity, items.len() as int)
    }
}

/// What a window of the given capacity holds after `pushed` went into an
/// empty one, item by item.
pub open spec fn window_after(pushed: Seq<u64>, capacity: nat) -> Seq<u64>
    decreases pushed.len(),
{
    if pushed.len() == 0 {
        Seq::empty()
    } else {
        most_recent(window_after(pushed.drop_last(), capacity).push(pushed.last()), capacity)
    }
}

/// A bounded buffer of recent samples, oldest first. Once it is full, each
/// new sample pushes the oldest one out.
pub struct SampleWindow {
    samples: Vec<u64>,
    capacity: usize,
}

impl View for SampleWindow {
    type V = Seq<u64>;

    closed spec fn view(&self) -> Seq<u64> {
        self.samples@
    }
}

impl SampleWindow {
    /// The most samples the window holds at a time.
    pub closed spec fn spec_capacity(&self) -> nat {
        self.capacity as nat
    }

    /// The window never holds more than its capacity.
    pub closed spec fn wf(&self) -> bool {
        self.samples@.len() <= self.capacity
    }

    /// A well-formed window is no longer than its capacity.
    pub proof fn lemma_bounded(&self)
        requires
            self.wf(),
        ensures
            self@.len() <= self.spec_capacity(),
    {
    }

    /// An empty window that will hold up to `capacity` samples.
    pub fn new(capacity: usize) -> (w: SampleWindow)
        ensures
            w.wf(),
            w@ == Seq::<u64>::empty(),
            w.spec_capacity() == capacity,
    {
        SampleWindow { samples: Vec::new(), capacity }
    }

    /// The most samples the window holds at a time.
    pub fn capacity(&self) -> (c: usize)
        ensures
            c == self.spec_capacity(),
    {
        self.capacity
    }

    /// Number of samples held now.
    pub fn len(&self) -> (n: usize)
        ensures
            n == self@.len(),
    {
        self.samples.len()
    }

    /// Whether the window holds no sample.
    pub fn is_empty(&self) -> (b: bool)
        ensures
            b == (self@.len() == 0),
    {
        self.samples.len() == 0
    }

    /// The newest sample, if there is one.
    pub fn last(&self) -> (r: Option<u64>)
        ensures
            r == (if self@.len() == 0 {
                None
            } else {
                Some(self@.last())
            }),
    {
        let n: usize = self.samples.len();
        if n == 0 {
            None
        } else {
            Some(self.samples[n - 1])
        }
    }

    /// Appends `value`; a full window first lets go of its oldest sample.
    pub fn push(&mut self, value: u64)
        requires
            old(self).wf(),
        ensures
            final(self).wf(),
            final(self).spec_capacity() == old(self).spec_capacity(),
            final(self)@ == most_recent(old(self)@.push(value), old(self).spec_capacity()),
    {
        if self.samples.len() >= self.capacity {
            if self.capacity == 0 {
                assert(self.samples@ =~= most_recent(
                    self.samples@.push(value),
                    self.capacity as nat,
                ));
                return ;
            }
            let _ = self.samples.remove(0);
        }
        self.samples.push(value);
        assert(self.samples@ =~= most_recent(old(self).samples@.push(value), self.capacity as nat));
    }

    /// Forgets every sample; the capacity stays.
    pub fn clear(&mut self)
        ensures
            final(self).wf(),
            final(self).spec_capacity() == old(self).spec_capacity(),
            final(self)@ == Seq::<u64>::empty(),
    {
        self.samples.clear();
    }

    /// A copy of the samples held now, oldest first.
    pub fn snapshot(&self) -> (v: Vec<u64>)
        ensures
            v@ == self@,
    {
        let mut out: Vec<u64> = Vec::new();
        let mut i: usize = 0;
        while i < self.samples.len()
            invariant
                i <= self.samples@.len(),
                out@ == self.samples@.subrange(0, i as int),
            decreases self.samples@.len() - i,
        {
            out.push(self.samples[i]);
            assert(out@ =~= self.samples@.subrange(0, i + 1));
            i += 1;
        }
        assert(out@ =~= self.samples@);
        out
    }
}

/// Taking the most recent items after each push gives the same as taking
/// them once at the end.
pub proof fn lemma_most_recent_push(items: Seq<u64>, value: u64, capacity: nat)
    ensures
        most_recent(most_recent(items, capacity).push(value), capacity) == most_recent(
            items.push(value),
            capacity,
        ),
{
    assert(most_recent(most_recent(items, capacity).push(value), capacity) =~= most_recent(
        items.push(value),
        capacity,
    ));
}

/// After any number of pushes into an empty window, the window holds the
/// most recent of them, as many as its capacity allows and in push order:
/// its length is the smaller of the number of pushes and the capacity.
pub proof fn lemma_window_holds_most_recent(pushed: Seq<u64>, capacity: nat)
    ensures
        window_after(pushed, capacity) == most_recent(pushed, capacity),
        window_after(pushed, capacity).len() == (if pushed.len() <= capacity {
            pushed.len()
        } else {
            capacity
        }),
        forall|i: int|
            0 <= i < window_after(pushed, capacity).len() ==> #[trigger] window_after(
                pushed,
                capacity,
            )[i] == pushed[pushed.len() - window_after(pushed, capacity).len() + i],
    decreases pushed.len(),
{
    if pushed.len() == 0 {
        assert(window_after(pushed, capacity) =~= most_recent(pushed, capacity));
    } else {
        lemma_window_holds_most_recent(pushed.drop_last(), capacity);
        lemma_most_recent_push(pushed.drop_last(), pushed.last(), capacity);
        assert(pushed.drop_last().push(pushed.last()) =~= pushed);
    }
}

} // verus!
