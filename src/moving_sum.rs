use vstd::prelude::*;

verus! {

/// Sum of a sequence of samples.
pub open spec fn seq_sum(s: Seq<u8>) -> int
    decreases s.len(),
{
    if s.len() == 0 {
        0
    } else {
        seq_sum(s.drop_last()) + s.last() as int
    }
}

/// The samples held after pushing `v` into a window of `cap` slots that held `s`:
/// once the window is full the oldest sample leaves.
pub open spec fn window_push(s: Seq<u8>, cap: nat, v: u8) -> Seq<u8> {
    if s.len() < cap {
        s.push(v)
    } else {
        s.drop_first().push(v)
    }
}

/// The samples held after pushing each of `xs` in turn, first to last.
pub open spec fn window_push_all(s: Seq<u8>, cap: nat, xs: Seq<u8>) -> Seq<u8>
    decreases xs.len(),
{
    if xs.len() == 0 {
        s
    } else {
        window_push(window_push_all(s, cap, xs.drop_last()), cap, xs.last())
    }
}

/// Position in the ring buffer of the `i`-th oldest of `filled` samples when
/// the next write goes to `current`.
pub open spec fn ring_slot(current: int, filled: int, n: int, i: int) -> int {
    let oldest = if current >= filled {
        current - filled
    } else {
        current + n - filled
    };
    if oldest + i < n {
        oldest + i
    } else {
        oldest + i - n
    }
}

/// Fixed-capacity window over the `N` most recent 8-bit samples, with a
/// running 16-bit sum kept up to date on each push.
pub struct MovingSum<const N: usize> {
    values: Vec<u8>,
    current_index: usize,
    total_sum: u16,
    filled: usize,
    held: Ghost<Seq<u8>>,
}

proof fn lemma_seq_sum_bound(s: Seq<u8>)
    ensures
        0 <= seq_sum(s) <= 255 * s.len(),
    decreases s.len(),
{
    if s.len() > 0 {
        lemma_seq_sum_bound(s.drop_last());
    }
}

proof fn lemma_seq_sum_drop_first(s: Seq<u8>)
    requires
        s.len() > 0,
    ensures
        seq_sum(s) == s[0] as int + seq_sum(s.drop_first()),
    decreases s.len(),
{
    if s.len() > 1 {
        lemma_seq_sum_drop_first(s.drop_last());
        assert(s.drop_last().drop_first() =~= s.drop_first().drop_last());
    } else {
        assert(s.drop_first() =~= Seq::<u8>::empty());
        assert(s.drop_last() =~= Seq::<u8>::empty());
    }
}

/// Starting from an empty window of `cap` slots, pushing the values `xs` in
/// turn leaves exactly the newest `cap` of them held, oldest first: while
/// fewer than `cap` were pushed nothing is evicted, and each push beyond that
/// evicts exactly the oldest sample.
pub proof fn lemma_window_holds_newest(cap: nat, xs: Seq<u8>)
    requires
        cap > 0,
    ensures
        window_push_all(Seq::empty(), cap, xs) == (if xs.len() <= cap {
            xs
        } else {
            xs.subrange(xs.len() - cap, xs.len() as int)
        }),
    decreases xs.len(),
{
    if xs.len() > 0 {
        let prev = xs.drop_last();
        lemma_window_holds_newest(cap, prev);
        if xs.len() <= cap {
            assert(prev.push(xs.last()) =~= xs);
        } else if prev.len() <= cap {
            assert(prev.push(xs.last()).drop_first() =~= xs.subrange(xs.len() - cap, xs.len() as int));
            assert(prev.drop_first().push(xs.last()) =~= prev.push(xs.last()).drop_first());
        } else {
            assert(prev.subrange(prev.len() - cap, prev.len() as int).drop_first().push(xs.last())
                =~= xs.subrange(xs.len() - cap, xs.len() as int));
        }
    }
}

/// After exactly `cap` pushes into an empty window of `cap` slots the window
/// holds all of them, so its sum is their sum and its length is `cap`: the
/// average is their arithmetic mean. One more push evicts exactly the first
/// value, and the sum is that of the newest `cap`.
pub proof fn lemma_full_window_sum(cap: nat, xs: Seq<u8>, v: u8)
    requires
        cap > 0,
        xs.len() == cap,
    ensures
        window_push_all(Seq::empty(), cap, xs) == xs,
        seq_sum(window_push_all(Seq::empty(), cap, xs)) == seq_sum(xs),
        window_push_all(Seq::empty(), cap, xs.push(v)) == xs.drop_first().push(v),
        seq_sum(window_push_all(Seq::empty(), cap, xs.push(v))) == seq_sum(xs) - xs[0] + v,
{
    lemma_window_holds_newest(cap, xs);
    lemma_window_holds_newest(cap, xs.push(v));
    assert(xs.push(v).subrange(1, cap as int + 1) =~= xs.drop_first().push(v));
    lemma_seq_sum_drop_first(xs);
    assert(xs.drop_first().push(v).drop_last() =~= xs.drop_first());
}

impl<const N: usize> MovingSum<N> {
    /// The samples held, oldest first.
    pub closed spec fn samples(&self) -> Seq<u8> {
        self.held@
    }

    /// The window's internal invariant.
    pub closed spec fn wf(&self) -> bool {
        &&& 0 < N
        &&& N * 255 <= u16::MAX
        &&& self.values@.len() == N
        &&& self.current_index < N
        &&& self.filled <= N
        &&& self.held@.len() == self.filled
        &&& (self.filled < N ==> self.current_index == self.filled)
        &&& (self.filled < N ==> forall|j: int|
            self.filled <= j < N ==> #[trigger] self.values@[j] == 0)
        &&& forall|i: int|
            0 <= i < self.filled ==> #[trigger] self.held@[i] == self.values@[ring_slot(
                self.current_index as int,
                self.filled as int,
                N as int,
                i,
            )]
        &&& self.total_sum as int == seq_sum(self.held@)
    }

    /// What a well-formed window guarantees of its size and sum.
    pub proof fn lemma_bounds(&self)
        requires
            self.wf(),
        ensures
            self.samples().len() <= N,
            N * 255 <= u16::MAX,
            0 <= seq_sum(self.samples()) <= 255 * self.samples().len(),
    {
        lemma_seq_sum_bound(self.held@);
    }

    /// An empty window. The capacity must be at least one, and small enough
    /// that a full window of the largest samples cannot overflow the sum.
    pub fn new() -> (r: Self)
        requires
            0 < N,
            N * 255 <= u16::MAX,
        ensures
            r.wf(),
            r.samples() == Seq::<u8>::empty(),
    {
        let mut values: Vec<u8> = Vec::new();
        while values.len() < N
            invariant
                values.len() <= N,
                forall|j: int| 0 <= j < values.len() ==> #[trigger] values@[j] == 0,
            decreases N - values.len(),
        {
            values.push(0);
        }
        MovingSum { values, current_index: 0, total_sum: 0, filled: 0, held: Ghost(Seq::empty()) }
    }

    /// Adds a sample; once the window is full the oldest sample is evicted.
    pub fn push(&mut self, value: u8)
        requires
            old(self).wf(),
        ensures
            final(self).wf(),
            final(self).samples() == window_push(old(self).samples(), N as nat, value),
    {
        proof {
            lemma_seq_sum_bound(self.held@);
            if self.filled == N {
                lemma_seq_sum_drop_first(self.held@);
                lemma_seq_sum_bound(self.held@.drop_first());
            }
        }
        let ghost old_values = self.values@;
        let ghost old_held = self.held@;
        let idx = self.current_index;
        let old = self.values[idx];
        self.values.set(idx, value);
        assert(old as int <= self.total_sum as int) by {
            if self.filled == N {
                assert(old == old_held[0]);
            }
        }
        self.total_sum = self.total_sum - old as u16 + value as u16;
        self.current_index = if idx + 1 == N { 0 } else { idx + 1 };
        if self.filled < N {
            self.filled = self.filled + 1;
            self.held = Ghost(old_held.push(value));
            assert(self.held@.drop_last() =~= old_held);
        } else {
            self.held = Ghost(old_held.drop_first().push(value));
            assert(self.held@.drop_last() =~= old_held.drop_first());
        }
        assert forall|i: int| 0 <= i < self.filled implies #[trigger] self.held@[i] == self.values@[ring_slot(
            self.current_index as int,
            self.filled as int,
            N as int,
            i,
        )] by {
            if old_held.len() == N && i < N - 1 {
                assert(self.held@[i] == old_held[i + 1]);
            }
        }
    }

    /// The running sum of the samples held.
    pub fn sum(&self) -> (r: u16)
        requires
            self.wf(),
        ensures
            r as int == seq_sum(self.samples()),
    {
        self.total_sum
    }

    /// The number of samples held: it grows with each push until it reaches the capacity.
    pub fn len(&self) -> (r: usize)
        requires
            self.wf(),
        ensures
            r == self.samples().len(),
    {
        self.filled
    }

    /// The number of samples that the window holds when full.
    pub fn capacity(&self) -> (r: usize)
        ensures
            r == N,
    {
        N
    }
}

} // verus!
