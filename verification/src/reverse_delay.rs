//! Reverse delay line: one circular sample store read backwards by two grains.
//!
//! Each grain walks backwards from the slot it was anchored at, one slot per
//! read, for the length of its chunk; then it re-anchors at the most recently
//! written slot and takes up the chunk length that is requested at that
//! moment. The two grains are started half a chunk apart, so that one is in
//! the middle of its chunk whenever the other re-anchors.
//!
//! The store hands out, per read, the sample under each grain together with
//! the grain's progress through its chunk. Weighting the two samples by a
//! window over that progress and summing them is left to the caller, who
//! knows the sample type's arithmetic.

use vstd::prelude::*;
use vstd::arithmetic::div_mod::{lemma_small_mod, lemma_sub_mod_noop_right, lemma_mod_add_multiples_vanish};

verus! {

/// A backward read cursor over the store.
#[derive(Clone, Copy, Debug, PartialEq, Eq, Structural)]
pub struct Grain {
    /// Slot the grain was anchored at; it reads backwards from here.
    pub start: usize,
    /// Reads made since the grain was anchored.
    pub counter: usize,
    /// Length of the chunk the grain is playing.
    pub chunk_size: usize,
}

impl Default for Grain {
    /// A grain at rest: anchored at slot 0, with a chunk length of one.
    fn default() -> (grain: Self)
        ensures
            grain == (Grain { start: 0, counter: 0, chunk_size: 1 }),
    {
        Grain { start: 0, counter: 0, chunk_size: 1 }
    }
}

/// What one grain contributes to one read: the sample under the grain and
/// how far the grain has come through its chunk.
#[derive(Debug)]
pub struct GrainTap<S> {
    /// Stored sample at the grain's backward read position.
    pub sample: S,
    /// Reads the grain had made in its chunk before this one.
    pub counter: usize,
    /// Length of the chunk the grain is playing.
    pub chunk_size: usize,
}

impl<S: Copy> Clone for GrainTap<S> {
    fn clone(&self) -> (tap: Self)
        ensures
            tap == *self,
    {
        *self
    }
}

impl<S: Copy> Copy for GrainTap<S> {

}

/// Abstract state of a reverse delay line.
pub ghost struct ReverseDelayState<S> {
    /// Stored samples by slot.
    pub slots: Seq<S>,
    /// Slot that the next write goes to.
    pub cursor: int,
    /// The first grain.
    pub first: Grain,
    /// The second grain.
    pub second: Grain,
}

/// The grain fits a store of `capacity` slots: it is anchored at one of the
/// slots, and it is either at the start of its chunk or inside it.
pub open spec fn grain_fits(grain: Grain, capacity: int) -> bool {
    &&& capacity == 0 ==> grain.start == 0
    &&& capacity > 0 ==> grain.start < capacity
    &&& grain.counter == 0 || grain.counter < grain.chunk_size
}

impl<S> ReverseDelayState<S> {
    /// The state is one that a line can be in: the capacity is one that a
    /// machine can address, the cursor lies within it, and both grains fit.
    pub open spec fn well_formed(self) -> bool {
        &&& self.slots.len() <= usize::MAX
        &&& self.slots.len() == 0 ==> self.cursor == 0
        &&& self.slots.len() > 0 ==> 0 <= self.cursor < self.slots.len()
        &&& grain_fits(self.first, self.slots.len() as int)
        &&& grain_fits(self.second, self.slots.len() as int)
    }
}

/// Chunk length that a delay request asks for: the delay itself, and two
/// samples at the least.
pub open spec fn chunk_for(delay_samples: usize) -> usize {
    if delay_samples < 2 {
        2
    } else {
        delay_samples
    }
}

/// Slot a grain reads from: `counter` slots back from `start`, round the
/// circle of `capacity` slots.
pub open spec fn backward_slot(grain: Grain, capacity: int) -> int {
    (grain.start - grain.counter) % capacity
}

/// Slot of the most recently written sample, given the slot that the next
/// write goes to.
pub open spec fn last_written_slot(cursor: int, capacity: int) -> int {
    if cursor == 0 {
        capacity - 1
    } else {
        cursor - 1
    }
}

/// The grain after one read. Inside its chunk it only counts on. At the end
/// of its chunk it starts over from the most recently written slot and adopts
/// `chunk` as its new chunk length; a chunk length requested earlier than
/// that has no effect on it.
pub open spec fn advanced(grain: Grain, chunk: usize, cursor: int, capacity: int) -> Grain {
    if grain.counter + 1 >= grain.chunk_size {
        Grain { start: last_written_slot(cursor, capacity) as usize, counter: 0, chunk_size: chunk }
    } else {
        Grain { start: grain.start, counter: (grain.counter + 1) as usize, chunk_size: grain.chunk_size }
    }
}

/// The pair of grains that a line starts out with for a chunk length: both
/// anchored at slot 0, the second half a chunk ahead of the first.
pub open spec fn fresh_grains(chunk_size: usize) -> (Grain, Grain) {
    (
        Grain { start: 0, counter: 0, chunk_size },
        Grain { start: 0, counter: chunk_size / 2, chunk_size },
    )
}

/// What a grain taps from the stored samples.
pub open spec fn tap_of<S>(slots: Seq<S>, grain: Grain) -> GrainTap<S> {
    GrainTap {
        sample: slots[backward_slot(grain, slots.len() as int)],
        counter: grain.counter,
        chunk_size: grain.chunk_size,
    }
}

/// The taps of one read: one per grain, first grain first. `None` when the
/// line has no capacity.
pub open spec fn grain_taps<S>(state: ReverseDelayState<S>) -> Option<(GrainTap<S>, GrainTap<S>)> {
    if state.slots.len() == 0 {
        None
    } else {
        Some((tap_of(state.slots, state.first), tap_of(state.slots, state.second)))
    }
}

/// State after one read that requested `delay_samples`: both grains have
/// advanced, the stored samples and the write cursor are untouched. A line
/// without capacity does not change.
pub open spec fn after_read<S>(state: ReverseDelayState<S>, delay_samples: usize) -> ReverseDelayState<S> {
    if state.slots.len() == 0 {
        state
    } else {
        ReverseDelayState {
            slots: state.slots,
            cursor: state.cursor,
            first: advanced(state.first, chunk_for(delay_samples), state.cursor, state.slots.len() as int),
            second: advanced(state.second, chunk_for(delay_samples), state.cursor, state.slots.len() as int),
        }
    }
}

/// State after one write of `sample`: the sample sits in the cursor's slot
/// and the cursor has moved on, wrapping at the capacity. The grains are
/// untouched. A line without capacity does not change.
pub open spec fn after_write<S>(state: ReverseDelayState<S>, sample: S) -> ReverseDelayState<S> {
    if state.slots.len() == 0 {
        state
    } else {
        ReverseDelayState {
            slots: state.slots.update(state.cursor, sample),
            cursor: if state.cursor + 1 == state.slots.len() {
                0
            } else {
                state.cursor + 1
            },
            first: state.first,
            second: state.second,
        }
    }
}

/// State of a line of `capacity` slots that holds only `silence`, with the
/// cursor at slot 0 and fresh grains for `chunk_size`.
pub open spec fn cleared<S>(capacity: nat, chunk_size: usize, silence: S) -> ReverseDelayState<S> {
    ReverseDelayState {
        slots: Seq::new(capacity, |i: int| silence),
        cursor: 0,
        first: fresh_grains(chunk_size).0,
        second: fresh_grains(chunk_size).1,
    }
}

/// State of a line that has not been sized yet: no slots, and both grains at
/// rest with a chunk length of one.
pub open spec fn unsized_line<S>() -> ReverseDelayState<S> {
    ReverseDelayState {
        slots: Seq::empty(),
        cursor: 0,
        first: Grain { start: 0, counter: 0, chunk_size: 1 },
        second: Grain { start: 0, counter: 0, chunk_size: 1 },
    }
}

/// `counter` moved on by `steps` within a cycle of `chunk_size` reads.
pub open spec fn wrapped_ahead(counter: int, steps: int, chunk_size: int) -> int {
    if counter + steps < chunk_size {
        counter + steps
    } else {
        counter + steps - chunk_size
    }
}

/// The two grains play chunks of one length and the second is half a chunk
/// ahead of the first, counted round the chunk.
pub open spec fn half_chunk_apart(first: Grain, second: Grain) -> bool {
    &&& first.chunk_size == second.chunk_size
    &&& first.counter < first.chunk_size
    &&& second.counter == wrapped_ahead(
        first.counter as int,
        first.chunk_size as int / 2,
        first.chunk_size as int,
    )
}

/// A circular sample store with two backward-reading grains.
pub struct ReverseDelayLine<S> {
    buffer: Vec<S>,
    write_pos: usize,
    first: Grain,
    second: Grain,
}


impl<S> View for ReverseDelayLine<S> {
    type V = ReverseDelayState<S>;

    closed spec fn view(&self) -> ReverseDelayState<S> {
        ReverseDelayState {
            slots: self.buffer@,
            cursor: self.write_pos as int,
            first: self.first,
            second: self.second,
        }
    }
}

impl<S> ReverseDelayLine<S> {
    #[verifier::type_invariant]
    spec fn well_formed(&self) -> bool {
        self@.well_formed()
    }
}

impl<S> Default for ReverseDelayLine<S> {
    /// A line without capacity: it stores nothing until it is initialized.
    fn default() -> (line: Self)
        ensures
            line@ == unsized_line::<S>(),
            line@.well_formed(),
    {
        let line = ReverseDelayLine {
            buffer: Vec::new(),
            write_pos: 0,
            first: Grain::default(),
            second: Grain::default(),
        };
        assert(line@.slots =~= Seq::<S>::empty());
        line
    }
}

impl<S: Copy> Clone for ReverseDelayLine<S> {
    /// A line of its own in the same state.
    fn clone(&self) -> (line: Self)
        ensures
            line@ == self@,
    {
        proof {
            use_type_invariant(self);
        }
        let capacity: usize = self.buffer.len();
        let mut buffer: Vec<S> = Vec::new();
        let mut copied: usize = 0;
        while copied < capacity
            invariant
                copied <= capacity,
                capacity == self.buffer@.len(),
                buffer@.len() == copied,
                forall|i: int| 0 <= i < copied ==> buffer@[i] == self.buffer@[i],
            decreases capacity - copied,
        {
            buffer.push(self.buffer[copied]);
            copied = copied + 1;
        }
        assert(buffer@ =~= self.buffer@);
        ReverseDelayLine {
            buffer,
            write_pos: self.write_pos,
            first: self.first,
            second: self.second,
        }
    }
}

/// Slot that `grain` reads from in a store of `capacity` slots.
fn read_slot(grain: Grain, capacity: usize) -> (slot: usize)
    requires
        capacity > 0,
        grain.start < capacity,
    ensures
        slot == backward_slot(grain, capacity as int),
        slot < capacity,
    no_unwind
{
    let back: usize = grain.counter % capacity;
    proof {
        lemma_sub_mod_noop_right(grain.start as int, grain.counter as int, capacity as int);
    }
    if grain.start >= back {
        proof {
            lemma_small_mod((grain.start - back) as nat, capacity as nat);
        }
        grain.start - back
    } else {
        proof {
            lemma_mod_add_multiples_vanish(grain.start - back, capacity as int);
            lemma_small_mod((capacity + grain.start - back) as nat, capacity as nat);
        }
        capacity - (back - grain.start)
    }
}

/// Moves `grain` on by one read.
fn advance(grain: Grain, chunk: usize, cursor: usize, capacity: usize) -> (next: Grain)
    requires
        capacity > 0,
        cursor < capacity,
        grain_fits(grain, capacity as int),
    ensures
        next == advanced(grain, chunk, cursor as int, capacity as int),
        grain_fits(next, capacity as int),
    no_unwind
{
    if grain.chunk_size <= 1 || grain.counter >= grain.chunk_size - 1 {
        let anchor: usize = if cursor == 0 {
            capacity - 1
        } else {
            cursor - 1
        };
        Grain { start: anchor, counter: 0, chunk_size: chunk }
    } else {
        Grain { start: grain.start, counter: grain.counter + 1, chunk_size: grain.chunk_size }
    }
}

impl<S: Copy> ReverseDelayLine<S> {
    /// Number of samples the line holds.
    pub fn capacity(&self) -> (n: usize)
        ensures
            n == self@.slots.len(),
            self@.well_formed(),
        no_unwind
    {
        proof {
            use_type_invariant(self);
        }
        self.buffer.len()
    }

    /// Sizes the line to hold `max_delay_samples + 1` samples, all of them
    /// `silence`, and starts both grains afresh for `default_chunk`.
    pub fn initialize(&mut self, max_delay_samples: usize, default_chunk: usize, silence: S)
        requires
            max_delay_samples < usize::MAX,
        ensures
            final(self)@ == cleared((max_delay_samples + 1) as nat, default_chunk, silence),
            final(self)@.well_formed(),
    {
        let capacity: usize = max_delay_samples + 1;
        let mut buffer: Vec<S> = Vec::new();
        let mut filled: usize = 0;
        while filled < capacity
            invariant
                filled <= capacity,
                buffer@.len() == filled,
                forall|i: int| 0 <= i < filled ==> buffer@[i] == silence,
            decreases capacity - filled,
        {
            buffer.push(silence);
            filled = filled + 1;
        }
        assert(buffer@ =~= Seq::new(capacity as nat, |i: int| silence));
        *self = ReverseDelayLine {
            buffer,
            write_pos: 0,
            first: Grain { start: 0, counter: 0, chunk_size: default_chunk },
            second: Grain { start: 0, counter: default_chunk / 2, chunk_size: default_chunk },
        };
    }

    /// Overwrites every stored sample with `silence`, rewinds the cursor and
    /// starts both grains afresh for the first grain's chunk length.
    pub fn reset(&mut self, silence: S)
        ensures
            final(self)@ == cleared(old(self)@.slots.len(), old(self)@.first.chunk_size, silence),
            final(self)@.well_formed(),
        no_unwind
    {
        proof {
            use_type_invariant(&*self);
        }
        let chunk_size: usize = self.first.chunk_size;
        self.write_pos = 0;
        self.first = Grain { start: 0, counter: 0, chunk_size };
        self.second = Grain { start: 0, counter: chunk_size / 2, chunk_size };
        let capacity: usize = self.buffer.len();
        let mut done: usize = 0;
        while done < capacity
            invariant
                done <= capacity,
                self.write_pos == 0,
                self.first == fresh_grains(chunk_size).0,
                self.second == fresh_grains(chunk_size).1,
                self.buffer@.len() == capacity,
                forall|i: int| 0 <= i < done ==> self.buffer@[i] == silence,
            decreases capacity - done,
        {
            self.buffer[done] = silence;
            done = done + 1;
        }
        assert(self@.slots =~= Seq::new(capacity as nat, |i: int| silence));
    }

    /// Stores `sample` at the cursor and advances the cursor, wrapping at the
    /// capacity. On a line without capacity nothing happens.
    pub fn write(&mut self, sample: S)
        ensures
            final(self)@ == after_write(old(self)@, sample),
            final(self)@.well_formed(),
        no_unwind
    {
        proof {
            use_type_invariant(&*self);
        }
        let capacity: usize = self.buffer.len();
        if capacity == 0 {
            return;
        }
        self.buffer[self.write_pos] = sample;
        self.write_pos = if self.write_pos + 1 == capacity {
            0
        } else {
            self.write_pos + 1
        };
    }

    /// Taps both grains and moves them on by one read.
    ///
    /// `delay_samples` is the chunk length asked for; a grain takes it up
    /// when it next re-anchors. `None`, and no change, on a line without
    /// capacity. To be called once per sample, paired with one `write`.
    pub fn read(&mut self, delay_samples: usize) -> (taps: Option<(GrainTap<S>, GrainTap<S>)>)
        ensures
            taps == grain_taps(old(self)@),
            final(self)@ == after_read(old(self)@, delay_samples),
            final(self)@.well_formed(),
        no_unwind
    {
        proof {
            use_type_invariant(&*self);
        }
        let capacity: usize = self.buffer.len();
        if capacity == 0 {
            return None;
        }
        let chunk: usize = if delay_samples < 2 {
            2
        } else {
            delay_samples
        };
        let first_tap = GrainTap {
            sample: self.buffer[read_slot(self.first, capacity)],
            counter: self.first.counter,
            chunk_size: self.first.chunk_size,
        };
        let second_tap = GrainTap {
            sample: self.buffer[read_slot(self.second, capacity)],
            counter: self.second.counter,
            chunk_size: self.second.chunk_size,
        };
        self.first = advance(self.first, chunk, self.write_pos, capacity);
        self.second = advance(self.second, chunk, self.write_pos, capacity);
        Some((first_tap, second_tap))
    }
}

/// Where a grain reads while it has not gone round the circle: straight
/// back from its anchor as long as it has made no more reads than the anchor
/// has slots before it, and from the top of the store downwards after that,
/// for one turn.
pub proof fn lemma_backward_slot_within_one_turn(grain: Grain, capacity: int)
    requires
        0 <= grain.start < capacity,
        grain.counter <= grain.start + capacity,
    ensures
        grain.counter <= grain.start ==> backward_slot(grain, capacity) == grain.start
            - grain.counter,
        grain.start < grain.counter ==> backward_slot(grain, capacity) == grain.start
            - grain.counter + capacity,
        0 <= backward_slot(grain, capacity) < capacity,
{
    if grain.counter <= grain.start {
        lemma_small_mod((grain.start - grain.counter) as nat, capacity as nat);
    } else {
        lemma_mod_add_multiples_vanish(grain.start - grain.counter, capacity);
        lemma_small_mod((grain.start - grain.counter + capacity) as nat, capacity as nat);
    }
}

/// A line starts out with its grains half a chunk apart, for every chunk
/// length but zero.
pub proof fn lemma_cleared_grains_half_chunk_apart<S>(capacity: nat, chunk_size: usize, silence: S)
    requires
        chunk_size > 0,
    ensures
        half_chunk_apart(
            cleared(capacity, chunk_size, silence).first,
            cleared(capacity, chunk_size, silence).second,
        ),
{
}

/// Grains that are half a chunk apart stay so over a read that asks for the
/// chunk length they are playing, and over any write: whenever one of them
/// re-anchors, the other is half a chunk into its own.
pub proof fn lemma_grains_stay_half_chunk_apart<S>(
    state: ReverseDelayState<S>,
    delay_samples: usize,
    input: S,
)
    requires
        half_chunk_apart(state.first, state.second),
        chunk_for(delay_samples) == state.first.chunk_size,
    ensures
        half_chunk_apart(
            after_read(state, delay_samples).first,
            after_read(state, delay_samples).second,
        ),
        half_chunk_apart(after_write(state, input).first, after_write(state, input).second),
{
}

} // verus!
