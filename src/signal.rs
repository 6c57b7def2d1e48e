use vstd::prelude::*;
use vstd::laws_eq::obeys_concrete_eq;

verus! {

/// Why a handle to a channel could not be made.
#[derive(Clone, Copy, Debug, PartialEq, Eq, Structural)]
pub enum SignalError {
    /// Every reader slot of the channel is already taken.
    ReaderSlotsExhausted,
    /// The channel already has its one writer.
    EmitterTaken,
}

/// What a channel holds: the latest value, its generation (0 until the first
/// write), the value that readers see before any write, and the handles made.
pub struct ChannelView<T> {
    pub value: T,
    pub generation: u64,
    pub default_value: T,
    pub readers: nat,
    pub emitter_taken: bool,
}

/// What a reader holds: the value it last returned and the generation it last saw.
pub struct SignalView<T> {
    pub last_value: T,
    pub seen: u64,
}

/// The generation after `g`; it never comes back to 0, which marks a channel never written.
pub open spec fn next_generation(g: u64) -> u64 {
    if g == u64::MAX {
        1
    } else {
        (g + 1) as u64
    }
}

impl<T> ChannelView<T> {
    /// A channel with at most `n` readers that shows its default until it is written.
    pub open spec fn well_formed(self, n: nat) -> bool {
        &&& self.readers <= n
        &&& (self.generation == 0 ==> self.value == self.default_value)
    }

    /// The channel after one write of `v`.
    pub open spec fn emitted(self, v: T) -> ChannelView<T> {
        ChannelView { value: v, generation: next_generation(self.generation), ..self }
    }

    /// The channel after writing each of `vs` in turn.
    pub open spec fn emitted_all(self, vs: Seq<T>) -> ChannelView<T>
        decreases vs.len(),
    {
        if vs.len() == 0 {
            self
        } else {
            self.emitted_all(vs.drop_last()).emitted(vs.last())
        }
    }
}

/// `emit_if_changed`: the emitter's last value and the channel afterwards.
pub open spec fn emit_if_changed_step<T>(last: T, c: ChannelView<T>, v: T) -> (T, ChannelView<T>) {
    if v == last {
        (last, c)
    } else {
        (v, c.emitted(v))
    }
}

/// `next_value`: the reader afterwards and the value returned, if the channel
/// was written since the reader last looked.
pub open spec fn next_value_step<T>(r: SignalView<T>, c: ChannelView<T>) -> (SignalView<T>, Option<T>) {
    if r.seen != c.generation {
        (SignalView { last_value: c.value, seen: c.generation }, Some(c.value))
    } else {
        (r, None)
    }
}

/// `next_distinct`: a write is consumed either way, but only a value that
/// differs from the last one returned is returned.
pub open spec fn next_distinct_step<T>(r: SignalView<T>, c: ChannelView<T>) -> (SignalView<T>, Option<T>) {
    if r.seen == c.generation {
        (r, None)
    } else if c.value == r.last_value {
        (SignalView { last_value: r.last_value, seen: c.generation }, None)
    } else {
        (SignalView { last_value: c.value, seen: c.generation }, Some(c.value))
    }
}

/// `get`: the reader afterwards has seen the channel's current value.
pub open spec fn get_step<T>(r: SignalView<T>, c: ChannelView<T>) -> SignalView<T> {
    SignalView { last_value: c.value, seen: c.generation }
}

/// Last write wins: after any non-empty run of writes with no read between
/// them, the channel holds the last value written, which `get` returns.
pub proof fn lemma_last_write_wins<T>(c: ChannelView<T>, vs: Seq<T>, r: SignalView<T>)
    requires
        vs.len() > 0,
    ensures
        c.emitted_all(vs).value == vs.last(),
        get_step(r, c.emitted_all(vs)).last_value == vs.last(),
{
}

/// A reader with nothing pending that calls `next_value` once after one
/// write of `v` gets `v`; calling it again before another write gets nothing.
pub proof fn lemma_next_value_after_emit<T>(c: ChannelView<T>, r: SignalView<T>, v: T)
    requires
        r.seen == c.generation,
    ensures
        next_value_step(r, c.emitted(v)).1 == Some(v),
        next_value_step(next_value_step(r, c.emitted(v)).0, c.emitted(v)).1 == None::<T>,
{
}

/// A value that `next_distinct` returns differs from the last value the
/// reader returned, and becomes the reader's last value; a call that returns
/// nothing leaves the last value as it was.
pub proof fn lemma_next_distinct_differs<T>(r: SignalView<T>, c: ChannelView<T>)
    ensures
        next_distinct_step(r, c).1 is Some ==> next_distinct_step(r, c).1->Some_0 != r.last_value
            && next_distinct_step(r, c).0.last_value == next_distinct_step(r, c).1->Some_0,
        next_distinct_step(r, c).1 is None ==> next_distinct_step(r, c).0.last_value
            == r.last_value,
{
}

/// Two successive values returned by `next_distinct` to the same reader are
/// never equal, whatever was written in between: a run of equal writes is
/// returned once.
pub proof fn lemma_next_distinct_never_repeats<T>(
    r: SignalView<T>,
    c1: ChannelView<T>,
    polls: Seq<ChannelView<T>>,
    c2: ChannelView<T>,
)
    requires
        next_distinct_step(r, c1).1 is Some,
        next_distinct_polls(next_distinct_step(r, c1).0, polls).1 is None,
        next_distinct_step(next_distinct_polls(next_distinct_step(r, c1).0, polls).0, c2).1 is Some,
    ensures
        next_distinct_step(r, c1).1->Some_0 != next_distinct_step(
            next_distinct_polls(next_distinct_step(r, c1).0, polls).0,
            c2,
        ).1->Some_0,
{
    lemma_distinct_polls_keep_last(next_distinct_step(r, c1).0, polls);
}

/// The reader after calling `next_distinct` on each channel state of `cs`
/// in turn, and the last value returned, if any.
pub open spec fn next_distinct_polls<T>(r: SignalView<T>, cs: Seq<ChannelView<T>>) -> (SignalView<T>, Option<T>)
    decreases cs.len(),
{
    if cs.len() == 0 {
        (r, None)
    } else {
        let (r1, got) = next_distinct_polls(r, cs.drop_last());
        let (r2, now) = next_distinct_step(r1, cs.last());
        (r2, if now is Some { now } else { got })
    }
}

proof fn lemma_distinct_polls_keep_last<T>(r: SignalView<T>, cs: Seq<ChannelView<T>>)
    requires
        next_distinct_polls(r, cs).1 is None,
    ensures
        next_distinct_polls(r, cs).0.last_value == r.last_value,
    decreases cs.len(),
{
    if cs.len() > 0 {
        lemma_distinct_polls_keep_last(r, cs.drop_last());
    }
}

/// Writing the same value twice with `emit_if_changed` changes the channel
/// once at most: if the value differs from the emitter's last one, a reader
/// that was waiting is woken exactly once and then waits again.
pub proof fn lemma_emit_if_changed_twice<T>(last: T, c: ChannelView<T>, v: T, r: SignalView<T>)
    requires
        r.seen == c.generation,
    ensures
        ({
            let (l1, c1) = emit_if_changed_step(last, c, v);
            let (l2, c2) = emit_if_changed_step(l1, c1, v);
            &&& c2 == c1
            &&& c2 == (if v == last {
                c
            } else {
                c.emitted(v)
            })
            &&& v != last ==> next_value_step(r, c2).1 == Some(v)
            &&& v != last ==> next_value_step(next_value_step(r, c2).0, c2).1 == None::<T>
            &&& v == last ==> next_value_step(r, c2).1 == None::<T>
        }),
{
}

/// A broadcast cell with one writer and at most `N` readers. It holds only
/// the latest value: a write replaces any value that was not yet read.
pub struct Channel<T, const N: usize> {
    value: T,
    generation: u64,
    default_value: T,
    readers: usize,
    emitter_taken: bool,
}

impl<T, const N: usize> View for Channel<T, N> {
    type V = ChannelView<T>;

    closed spec fn view(&self) -> ChannelView<T> {
        ChannelView {
            value: self.value,
            generation: self.generation,
            default_value: self.default_value,
            readers: self.readers as nat,
            emitter_taken: self.emitter_taken,
        }
    }
}

impl<T: Copy, const N: usize> Channel<T, N> {
    /// A channel that was never written and has no handles yet.
    pub fn new(default_value: T) -> (r: Self)
        ensures
            r@ == (ChannelView {
                value: default_value,
                generation: 0,
                default_value,
                readers: 0,
                emitter_taken: false,
            }),
            r@.well_formed(N as nat),
    {
        Channel { value: default_value, generation: 0, default_value, readers: 0, emitter_taken: false }
    }
}

/// The write handle of a channel. It remembers the last value it wrote.
pub struct SignalEmitter<T, const N: usize> {
    last_emitted_value: T,
}

impl<T, const N: usize> View for SignalEmitter<T, N> {
    type V = T;

    closed spec fn view(&self) -> T {
        self.last_emitted_value
    }
}

impl<T: Copy + PartialEq, const N: usize> SignalEmitter<T, N> {
    /// Takes the channel's one write handle; it starts from the channel's default.
    pub fn new(chan: &mut Channel<T, N>) -> (r: Result<Self, SignalError>)
        ensures
            old(chan)@.emitter_taken ==> r == Err::<Self, SignalError>(SignalError::EmitterTaken)
                && final(chan)@ == old(chan)@,
            !old(chan)@.emitter_taken ==> r is Ok && r->Ok_0@ == old(chan)@.default_value
                && final(chan)@ == (ChannelView { emitter_taken: true, ..old(chan)@ }),
    {
        if chan.emitter_taken {
            return Err(SignalError::EmitterTaken);
        }
        chan.emitter_taken = true;
        Ok(SignalEmitter { last_emitted_value: chan.default_value })
    }

    /// Writes `value`, replacing what the channel held; every reader will see a change.
    pub fn emit(&mut self, chan: &mut Channel<T, N>, value: T)
        requires
            old(chan)@.well_formed(N as nat),
        ensures
            final(chan)@ == old(chan)@.emitted(value),
            final(chan)@.well_formed(N as nat),
            final(self)@ == value,
    {
        self.last_emitted_value = value;
        chan.value = value;
        chan.generation = if chan.generation == u64::MAX { 1 } else { chan.generation + 1 };
    }

    /// Writes `value` only if it differs from the last value this emitter wrote;
    /// otherwise nothing changes and no reader is woken.
    pub fn emit_if_changed(&mut self, chan: &mut Channel<T, N>, value: T)
        requires
            old(chan)@.well_formed(N as nat),
            obeys_concrete_eq::<T>(),
        ensures
            (final(self)@, final(chan)@) == emit_if_changed_step(old(self)@, old(chan)@, value),
            final(chan)@.well_formed(N as nat),
    {
        proof {
            reveal(obeys_concrete_eq);
        }
        if self.last_emitted_value != value {
            self.emit(chan, value);
        }
    }
}

/// A read handle of a channel. It remembers the generation it last saw and
/// the value it last returned.
pub struct Signal<T, const N: usize> {
    last_value: T,
    seen: u64,
}

impl<T, const N: usize> View for Signal<T, N> {
    type V = SignalView<T>;

    closed spec fn view(&self) -> SignalView<T> {
        SignalView { last_value: self.last_value, seen: self.seen }
    }
}

impl<T: Copy + PartialEq, const N: usize> Signal<T, N> {
    /// Takes one of the channel's `N` reader slots. The reader starts at the
    /// channel's default and has seen no write. With every slot taken this fails.
    pub fn new(chan: &mut Channel<T, N>) -> (r: Result<Self, SignalError>)
        ensures
            old(chan)@.readers >= N ==> r == Err::<Self, SignalError>(
                SignalError::ReaderSlotsExhausted,
            ) && final(chan)@ == old(chan)@,
            old(chan)@.readers < N ==> r is Ok && r->Ok_0@ == (SignalView {
                last_value: old(chan)@.default_value,
                seen: 0,
            }) && final(chan)@ == (ChannelView { readers: old(chan)@.readers + 1, ..old(chan)@ }),
    {
        if chan.readers >= N {
            return Err(SignalError::ReaderSlotsExhausted);
        }
        chan.readers = chan.readers + 1;
        Ok(Signal { last_value: chan.default_value, seen: 0 })
    }

    /// The next value, if the channel was written since this reader last
    /// looked; `None` means the caller has to wait for a write.
    pub fn next_value(&mut self, chan: &Channel<T, N>) -> (r: Option<T>)
        ensures
            (final(self)@, r) == next_value_step(old(self)@, chan@),
    {
        if self.seen != chan.generation {
            self.seen = chan.generation;
            self.last_value = chan.value;
            Some(chan.value)
        } else {
            None
        }
    }

    /// The next value that differs from the last one this reader returned. A
    /// write of an equal value is consumed and `None` comes back, as when
    /// nothing was written: the caller has to wait for the next write.
    pub fn next_distinct(&mut self, chan: &Channel<T, N>) -> (r: Option<T>)
        requires
            obeys_concrete_eq::<T>(),
        ensures
            (final(self)@, r) == next_distinct_step(old(self)@, chan@),
    {
        proof {
            reveal(obeys_concrete_eq);
        }
        if self.seen == chan.generation {
            return None;
        }
        self.seen = chan.generation;
        if chan.value != self.last_value {
            self.last_value = chan.value;
            Some(chan.value)
        } else {
            None
        }
    }

    /// The latest value, without waiting: the default if the channel was never written.
    pub fn get(&mut self, chan: &Channel<T, N>) -> (r: T)
        ensures
            r == chan@.value,
            final(self)@ == get_step(old(self)@, chan@),
    {
        self.seen = chan.generation;
        self.last_value = chan.value;
        chan.value
    }
}

} // verus!
