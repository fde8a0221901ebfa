//! Forward delay line: a circular sample store read at a whole-sample delay.
//!
//! The line stores samples of any `Copy` type and hands back the two stored
//! samples that bracket a requested delay. Blending the pair by the
//! fractional part of the delay is left to the caller, who knows the sample
//! type's arithmetic.

use vstd::prelude::*;

verus! {

/// The history after one more sample has been stored: the new sample becomes
/// the most recent one and the oldest falls out. A store without capacity
/// keeps nothing.
pub open spec fn pushed<S>(history: Seq<S>, sample: S) -> Seq<S> {
    if history.len() == 0 {
        history
    } else {
        seq![sample] + history.drop_last()
    }
}

/// The history after every sample of `samples` has been stored, first to last.
pub open spec fn written<S>(history: Seq<S>, samples: Seq<S>) -> Seq<S>
    decreases samples.len(),
{
    if samples.len() == 0 {
        history
    } else {
        pushed(written(history, samples.drop_last()), samples.last())
    }
}

/// A history of `capacity` samples that all equal `silence`.
pub open spec fn silent<S>(capacity: nat, silence: S) -> Seq<S> {
    Seq::new(capacity, |k: int| silence)
}

/// The delay actually served for a request: requests beyond the stored
/// history are clamped to the oldest stored sample.
pub open spec fn clamped_delay(delay: int, capacity: int) -> int {
    if delay < capacity {
        delay
    } else {
        capacity - 1
    }
}

/// The position one sample further back than `delay`, wrapping from the
/// oldest stored sample round to the most recent one.
pub open spec fn one_further_back(delay: int, capacity: int) -> int {
    if delay + 1 < capacity {
        delay + 1
    } else {
        0
    }
}

/// The pair of stored samples that bracket a delay of `delay` samples: the
/// sample exactly `delay` writes back and the one just before it. `None` when
/// nothing is stored.
pub open spec fn bracket<S>(history: Seq<S>, delay: int) -> Option<(S, S)> {
    if history.len() == 0 {
        None
    } else {
        let d = clamped_delay(delay, history.len() as int);
        Some((history[d], history[one_further_back(d, history.len() as int)]))
    }
}

/// The slot that holds the sample written `k` writes before the latest one,
/// in a circular store of `capacity` slots whose next write goes to `cursor`.
spec fn slot_behind(cursor: int, capacity: int, k: int) -> int {
    if k < cursor {
        cursor - 1 - k
    } else {
        cursor - 1 - k + capacity
    }
}

/// A fixed-capacity circular store of samples with a write cursor.
///
/// Its view is the stored history, most recent sample first: `line@[k]` is
/// the sample written `k` writes before the latest one, and `line@.len()` is
/// the capacity.
pub struct DelayLine<S> {
    buffer: Vec<S>,
    write_pos: usize,
}

impl<S> View for DelayLine<S> {
    type V = Seq<S>;

    closed spec fn view(&self) -> Seq<S> {
        Seq::new(
            self.buffer@.len(),
            |k: int| self.buffer@[slot_behind(self.write_pos as int, self.buffer@.len() as int, k)],
        )
    }
}

impl<S> DelayLine<S> {
    #[verifier::type_invariant]
    spec fn well_formed(&self) -> bool {
        if self.buffer@.len() == 0 {
            self.write_pos == 0
        } else {
            self.write_pos < self.buffer@.len()
        }
    }
}

impl<S> Default for DelayLine<S> {
    /// An empty line: it stores nothing until it is initialized.
    fn default() -> (line: Self)
        ensures
            line@ == Seq::<S>::empty(),
    {
        let line = DelayLine { buffer: Vec::new(), write_pos: 0 };
        assert(line@ =~= Seq::<S>::empty());
        line
    }
}

impl<S: Copy> Clone for DelayLine<S> {
    /// A line of its own that holds the same history.
    fn clone(&self) -> (line: Self)
        ensures
            line@ == self@,
    {
        proof {
            use_type_invariant(self);
        }
        let capacity: usize = self.buffer.len();
        let mut buffer: Vec<S> = Vec::new();
        let mut copied: usize = 0;
        while copied < capacity
            invariant
                copied <= capacity,
                capacity == self.buffer@.len(),
                buffer@.len() == copied,
                forall|i: int| 0 <= i < copied ==> buffer@[i] == self.buffer@[i],
            decreases capacity - copied,
        {
            buffer.push(self.buffer[copied]);
            copied = copied + 1;
        }
        assert(buffer@ =~= self.buffer@);
        DelayLine { buffer, write_pos: self.write_pos }
    }
}

impl<S: Copy> DelayLine<S> {
    /// Number of samples the line holds.
    pub fn capacity(&self) -> (n: usize)
        ensures
            n == self@.len(),
        no_unwind
    {
        self.buffer.len()
    }

    /// Sizes the line to hold `max_delay_samples + 1` samples, all of them
    /// `silence`, whatever it held before.
    pub fn initialize(&mut self, max_delay_samples: usize, silence: S)
        requires
            max_delay_samples < usize::MAX,
        ensures
            final(self)@ == silent((max_delay_samples + 1) as nat, silence),
    {
        let capacity: usize = max_delay_samples + 1;
        let mut buffer: Vec<S> = Vec::new();
        let mut filled: usize = 0;
        while filled < capacity
            invariant
                filled <= capacity,
                buffer@.len() == filled,
                forall|i: int| 0 <= i < filled ==> buffer@[i] == silence,
            decreases capacity - filled,
        {
            buffer.push(silence);
            filled = filled + 1;
        }
        self.write_pos = 0;
        self.buffer = buffer;
        assert(self@ =~= silent((max_delay_samples + 1) as nat, silence));
    }

    /// Overwrites every stored sample with `silence` and rewinds the cursor.
    /// The capacity stays as it is.
    pub fn reset(&mut self, silence: S)
        ensures
            final(self)@ == silent(old(self)@.len(), silence),
        no_unwind
    {
        proof {
            use_type_invariant(&*self);
        }
        self.write_pos = 0;
        let capacity: usize = self.buffer.len();
        let mut cleared: usize = 0;
        while cleared < capacity
            invariant
                cleared <= capacity,
                self.write_pos == 0,
                self.buffer@.len() == capacity,
                forall|i: int| 0 <= i < cleared ==> self.buffer@[i] == silence,
            decreases capacity - cleared,
        {
            self.buffer[cleared] = silence;
            cleared = cleared + 1;
        }
        assert(self@ =~= silent(old(self)@.len(), silence));
    }

    /// Stores `sample` at the cursor and advances the cursor, wrapping at the
    /// capacity. On a line without capacity nothing happens.
    pub fn write(&mut self, sample: S)
        ensures
            final(self)@ == pushed(old(self)@, sample),
        no_unwind
    {
        proof {
            use_type_invariant(&*self);
        }
        let capacity: usize = self.buffer.len();
        if capacity == 0 {
            return;
        }
        self.buffer[self.write_pos] = sample;
        self.write_pos = if self.write_pos + 1 == capacity {
            0
        } else {
            self.write_pos + 1
        };
        assert(self@ =~= pushed(old(self)@, sample));
    }

    /// Reads the two stored samples that bracket a delay of `delay` samples:
    /// first the one exactly `delay` writes back, then the one before it.
    /// A delay beyond the stored history is clamped to the oldest sample.
    /// `None` on a line without capacity.
    pub fn read(&self, delay: usize) -> (tap: Option<(S, S)>)
        ensures
            tap == bracket(self@, delay as int),
        no_unwind
    {
        proof {
            use_type_invariant(self);
        }
        let capacity: usize = self.buffer.len();
        if capacity == 0 {
            return None;
        }
        let d: usize = if delay < capacity {
            delay
        } else {
            capacity - 1
        };
        let near_slot: usize = if d < self.write_pos {
            self.write_pos - 1 - d
        } else {
            capacity - (d + 1 - self.write_pos)
        };
        let far_slot: usize = if near_slot == 0 {
            capacity - 1
        } else {
            near_slot - 1
        };
        let near: S = self.buffer[near_slot];
        let far: S = self.buffer[far_slot];
        Some((near, far))
    }

    /// Reads at `delay`, then writes `input`: the tap is taken before the
    /// cursor's slot is overwritten.
    pub fn process(&mut self, input: S, delay: usize) -> (tap: Option<(S, S)>)
        ensures
            tap == bracket(old(self)@, delay as int),
            final(self)@ == pushed(old(self)@, input),
        no_unwind
    {
        let tap = self.read(delay);
        self.write(input);
        tap
    }
}

/// Storing samples never changes the capacity.
pub proof fn lemma_written_keeps_capacity<S>(history: Seq<S>, samples: Seq<S>)
    ensures
        written(history, samples).len() == history.len(),
    decreases samples.len(),
{
    if samples.len() > 0 {
        lemma_written_keeps_capacity(history, samples.drop_last());
    }
}

/// Reading back at a whole-sample delay returns exactly what was written that
/// many samples earlier: after `samples` have been stored, the entry `n` back
/// from the latest is the `n`-th sample from the end of `samples`, for every
/// `n` that lies within both the capacity and the samples written. The pair
/// that brackets a delay of `n` starts with that sample, and goes on with the
/// one written just before it where that one lies within both as well.
pub proof fn lemma_read_back<S>(history: Seq<S>, samples: Seq<S>, n: int)
    requires
        0 <= n < samples.len(),
        n < history.len(),
    ensures
        written(history, samples)[n] == samples[samples.len() - 1 - n],
        bracket(written(history, samples), n) matches Some(pair) && pair.0 == samples[samples.len()
            - 1 - n] && (n + 1 < samples.len() && n + 1 < history.len() ==> pair.1
            == samples[samples.len() - 2 - n]),
    decreases samples.len(),
{
    lemma_written_keeps_capacity(history, samples);
    lemma_written_keeps_capacity(history, samples.drop_last());
    if n > 0 {
        lemma_read_back(history, samples.drop_last(), n - 1);
    }
    if n + 1 < samples.len() && n + 1 < history.len() {
        lemma_read_back(history, samples.drop_last(), n);
    }
}

/// What was stored before moves back by one entry for each sample written:
/// after `samples` have been stored, an entry further back than the samples
/// written is the one that lay that many entries nearer before.
pub proof fn lemma_older_samples_move_back<S>(history: Seq<S>, samples: Seq<S>, n: int)
    requires
        samples.len() <= n < history.len(),
    ensures
        written(history, samples)[n] == history[n - samples.len()],
    decreases samples.len(),
{
    if samples.len() > 0 {
        lemma_written_keeps_capacity(history, samples.drop_last());
        lemma_older_samples_move_back(history, samples.drop_last(), n - 1);
    }
}

} // verus!
