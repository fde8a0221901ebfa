//! Per-sample routing of the stereo delay: which store a channel is read
//! from and written to, and where its feedback comes from.
//!
//! One sample is worked in four calls, with the caller's own arithmetic in
//! between: `read` taps the active stores, `feedback_sources` picks the
//! processed value that each channel feeds back, `write` stores the next
//! delay inputs, and `store_feedback` remembers this sample's processed pair
//! for the next one. The flags are taken anew with every call, so a change of
//! topology takes effect at once, without any crossfade.

use vstd::prelude::*;
use crate::delay_line::{bracket, pushed, silent, DelayLine};
use crate::reverse_delay::{
    after_read, after_write, cleared, grain_taps, unsized_line, GrainTap, ReverseDelayLine,
    ReverseDelayState,
};

verus! {

/// What one channel reads from its active store.
#[derive(Debug)]
pub enum Tap<S> {
    /// The store has no capacity yet.
    Silent,
    /// From the forward line: the stored sample at the whole-sample delay and
    /// the one before it.
    Forward { near: S, far: S },
    /// From the reverse line: one tap per grain.
    Reverse { first: GrainTap<S>, second: GrainTap<S> },
}

impl<S: Copy> Clone for Tap<S> {
    fn clone(&self) -> (tap: Self)
        ensures
            tap == *self,
    {
        *self
    }
}

impl<S: Copy> Copy for Tap<S> {

}

/// Abstract state of the engine: per channel the forward history, most recent
/// sample first, and the reverse line, and the processed pair of the previous
/// sample.
pub ghost struct EngineState<S> {
    /// Forward history of the left channel.
    pub forward_left: Seq<S>,
    /// Forward history of the right channel.
    pub forward_right: Seq<S>,
    /// Reverse line of the left channel.
    pub reverse_left: ReverseDelayState<S>,
    /// Reverse line of the right channel.
    pub reverse_right: ReverseDelayState<S>,
    /// Processed left sample of the previous frame.
    pub feedback_left: S,
    /// Processed right sample of the previous frame.
    pub feedback_right: S,
}

impl<S> EngineState<S> {
    /// The state is one that an engine can be in: all four lines hold the
    /// same number of samples, and both reverse lines are well formed.
    pub open spec fn well_formed(self) -> bool {
        &&& self.forward_left.len() == self.forward_right.len()
        &&& self.forward_left.len() == self.reverse_left.slots.len()
        &&& self.forward_left.len() == self.reverse_right.slots.len()
        &&& self.reverse_left.well_formed()
        &&& self.reverse_right.well_formed()
    }
}

/// State of an engine whose lines have no capacity yet and whose feedback
/// memory holds `silence`.
pub open spec fn state_unsized<S>(silence: S) -> EngineState<S> {
    EngineState {
        forward_left: Seq::empty(),
        forward_right: Seq::empty(),
        reverse_left: unsized_line(),
        reverse_right: unsized_line(),
        feedback_left: silence,
        feedback_right: silence,
    }
}

/// State of an engine fresh from sizing: all four lines hold `capacity`
/// samples of `silence`, the grains of both reverse lines are fresh for
/// `chunk_size`, and the feedback memory holds `silence`.
pub open spec fn state_fresh<S>(capacity: nat, chunk_size: usize, silence: S) -> EngineState<S> {
    EngineState {
        forward_left: silent(capacity, silence),
        forward_right: silent(capacity, silence),
        reverse_left: cleared(capacity, chunk_size, silence),
        reverse_right: cleared(capacity, chunk_size, silence),
        feedback_left: silence,
        feedback_right: silence,
    }
}

/// State of an engine after a reset of `state`: every line is cleared to
/// `silence` at the capacity it has, each reverse line starts its grains
/// afresh for the chunk length that its first grain was playing, and the
/// feedback memory holds `silence`.
pub open spec fn state_after_reset<S>(state: EngineState<S>, silence: S) -> EngineState<S> {
    EngineState {
        forward_left: silent(state.forward_left.len(), silence),
        forward_right: silent(state.forward_right.len(), silence),
        reverse_left: cleared(
            state.reverse_left.slots.len(),
            state.reverse_left.first.chunk_size,
            silence,
        ),
        reverse_right: cleared(
            state.reverse_right.slots.len(),
            state.reverse_right.first.chunk_size,
            silence,
        ),
        feedback_left: silence,
        feedback_right: silence,
    }
}

/// The frame that the engine works on: a lone channel is heard on both sides.
pub open spec fn frame_of<S>(left: S, right: Option<S>) -> (S, S) {
    match right {
        Some(r) => (left, r),
        None => (left, left),
    }
}

/// What a forward line with `history` yields at `delay`.
pub open spec fn forward_tap<S>(history: Seq<S>, delay: usize) -> Tap<S> {
    match bracket(history, delay as int) {
        Some(pair) => Tap::Forward { near: pair.0, far: pair.1 },
        None => Tap::Silent,
    }
}

/// What a reverse line in `state` yields.
pub open spec fn reverse_tap<S>(state: ReverseDelayState<S>) -> Tap<S> {
    match grain_taps(state) {
        Some(pair) => Tap::Reverse { first: pair.0, second: pair.1 },
        None => Tap::Silent,
    }
}

/// The taps of one read, left channel first: from the reverse lines when
/// `reverse` is set, from the forward lines otherwise.
pub open spec fn taps_of<S>(
    state: EngineState<S>,
    reverse: bool,
    delay_left: usize,
    delay_right: usize,
) -> (Tap<S>, Tap<S>) {
    if reverse {
        (reverse_tap(state.reverse_left), reverse_tap(state.reverse_right))
    } else {
        (forward_tap(state.forward_left, delay_left), forward_tap(state.forward_right, delay_right))
    }
}

/// State after one read: a reverse read moves the grains of both reverse
/// lines on; a forward read changes nothing.
pub open spec fn state_after_read<S>(
    state: EngineState<S>,
    reverse: bool,
    delay_left: usize,
    delay_right: usize,
) -> EngineState<S> {
    if reverse {
        EngineState {
            reverse_left: after_read(state.reverse_left, delay_left),
            reverse_right: after_read(state.reverse_right, delay_right),
            ..state
        }
    } else {
        state
    }
}

/// The processed values that the left and the right channel feed back. In
/// ping-pong each channel takes the other channel's processed value of the
/// previous frame; otherwise each takes its own of this frame.
pub open spec fn sources_of<S>(
    state: EngineState<S>,
    ping_pong: bool,
    processed_left: S,
    processed_right: S,
) -> (S, S) {
    if ping_pong {
        (state.feedback_right, state.feedback_left)
    } else {
        (processed_left, processed_right)
    }
}

/// State after one write: each input is stored in its channel's reverse line
/// when `reverse` is set, in its forward line otherwise. The other pair of
/// lines and the feedback memory are untouched.
pub open spec fn state_after_write<S>(
    state: EngineState<S>,
    reverse: bool,
    input_left: S,
    input_right: S,
) -> EngineState<S> {
    if reverse {
        EngineState {
            reverse_left: after_write(state.reverse_left, input_left),
            reverse_right: after_write(state.reverse_right, input_right),
            ..state
        }
    } else {
        EngineState {
            forward_left: pushed(state.forward_left, input_left),
            forward_right: pushed(state.forward_right, input_right),
            ..state
        }
    }
}

/// State after this frame's processed pair has been remembered as the
/// feedback source of the next frame.
pub open spec fn state_after_feedback<S>(
    state: EngineState<S>,
    processed_left: S,
    processed_right: S,
) -> EngineState<S> {
    EngineState { feedback_left: processed_left, feedback_right: processed_right, ..state }
}

/// Both channels are in the same state.
pub open spec fn centered<S>(state: EngineState<S>) -> bool {
    &&& state.forward_left == state.forward_right
    &&& state.reverse_left == state.reverse_right
    &&& state.feedback_left == state.feedback_right
}

/// Sample stores and feedback memory of the stereo delay.
pub struct DelayEngine<S> {
    delay_left: DelayLine<S>,
    delay_right: DelayLine<S>,
    reverse_left: ReverseDelayLine<S>,
    reverse_right: ReverseDelayLine<S>,
    feedback_left: S,
    feedback_right: S,
}

impl<S> View for DelayEngine<S> {
    type V = EngineState<S>;

    closed spec fn view(&self) -> EngineState<S> {
        EngineState {
            forward_left: self.delay_left@,
            forward_right: self.delay_right@,
            reverse_left: self.reverse_left@,
            reverse_right: self.reverse_right@,
            feedback_left: self.feedback_left,
            feedback_right: self.feedback_right,
        }
    }
}

impl<S> DelayEngine<S> {
    #[verifier::type_invariant]
    spec fn well_formed(&self) -> bool {
        self@.well_formed()
    }
}

/// Hands a lone channel to both sides of the frame.
pub fn stereo_frame<S: Copy>(left: S, right: Option<S>) -> (frame: (S, S))
    ensures
        frame == frame_of(left, right),
    no_unwind
{
    match right {
        Some(r) => (left, r),
        None => (left, left),
    }
}

impl<S: Copy> DelayEngine<S> {
    /// Number of samples that each of the four lines holds.
    pub fn capacity(&self) -> (n: usize)
        ensures
            n == self@.forward_left.len(),
            self@.well_formed(),
        no_unwind
    {
        proof {
            use_type_invariant(self);
        }
        self.delay_left.capacity()
    }

    /// An engine whose lines have no capacity yet and whose feedback memory
    /// holds `silence`. Both channels are in the same state.
    pub fn new(silence: S) -> (engine: Self)
        ensures
            engine@ == state_unsized(silence),
            engine@.well_formed(),
            centered(engine@),
    {
        DelayEngine {
            delay_left: DelayLine::default(),
            delay_right: DelayLine::default(),
            reverse_left: ReverseDelayLine::default(),
            reverse_right: ReverseDelayLine::default(),
            feedback_left: silence,
            feedback_right: silence,
        }
    }

    /// Sizes all four lines to `max_delay_samples + 1` samples of `silence`,
    /// starts the reverse grains afresh for `default_chunk`, and clears the
    /// feedback memory to `silence`. Nothing of what the engine held before
    /// is left, and both channels are in the same state.
    pub fn initialize(&mut self, max_delay_samples: usize, default_chunk: usize, silence: S)
        requires
            max_delay_samples < usize::MAX,
        ensures
            final(self)@ == state_fresh((max_delay_samples + 1) as nat, default_chunk, silence),
            final(self)@.well_formed(),
            centered(final(self)@),
    {
        let mut delay_left: DelayLine<S> = DelayLine::default();
        let mut delay_right: DelayLine<S> = DelayLine::default();
        let mut reverse_left: ReverseDelayLine<S> = ReverseDelayLine::default();
        let mut reverse_right: ReverseDelayLine<S> = ReverseDelayLine::default();
        delay_left.initialize(max_delay_samples, silence);
        delay_right.initialize(max_delay_samples, silence);
        reverse_left.initialize(max_delay_samples, default_chunk, silence);
        reverse_right.initialize(max_delay_samples, default_chunk, silence);
        *self = DelayEngine {
            delay_left,
            delay_right,
            reverse_left,
            reverse_right,
            feedback_left: silence,
            feedback_right: silence,
        };
    }

    /// Clears all four lines to `silence`, starts the grains of each reverse
    /// line afresh for the chunk length that line was playing, and clears
    /// the feedback memory. Capacities stay as they are. Both channels are in
    /// the same state afterwards if both reverse lines were playing the same
    /// chunk length.
    pub fn reset(&mut self, silence: S)
        ensures
            final(self)@ == state_after_reset(old(self)@, silence),
            final(self)@.well_formed(),
            old(self)@.reverse_left.first.chunk_size == old(self)@.reverse_right.first.chunk_size
                ==> centered(final(self)@),
        no_unwind
    {
        proof {
            use_type_invariant(&*self);
        }
        self.delay_left.reset(silence);
        self.delay_right.reset(silence);
        self.reverse_left.reset(silence);
        self.reverse_right.reset(silence);
        self.feedback_left = silence;
        self.feedback_right = silence;
    }

    /// Taps the active store of each channel at its whole-sample delay.
    pub fn read(&mut self, reverse: bool, delay_left: usize, delay_right: usize) -> (taps: (
        Tap<S>,
        Tap<S>,
    ))
        ensures
            taps == taps_of(old(self)@, reverse, delay_left, delay_right),
            final(self)@ == state_after_read(old(self)@, reverse, delay_left, delay_right),
            final(self)@.well_formed(),
        no_unwind
    {
        proof {
            use_type_invariant(&*self);
        }
        if reverse {
            let left = match self.reverse_left.read(delay_left) {
                Some(pair) => Tap::Reverse { first: pair.0, second: pair.1 },
                None => Tap::Silent,
            };
            let right = match self.reverse_right.read(delay_right) {
                Some(pair) => Tap::Reverse { first: pair.0, second: pair.1 },
                None => Tap::Silent,
            };
            (left, right)
        } else {
            let left = match self.delay_left.read(delay_left) {
                Some(pair) => Tap::Forward { near: pair.0, far: pair.1 },
                None => Tap::Silent,
            };
            let right = match self.delay_right.read(delay_right) {
                Some(pair) => Tap::Forward { near: pair.0, far: pair.1 },
                None => Tap::Silent,
            };
            (left, right)
        }
    }

    /// Picks the processed value that each channel feeds back into its
    /// store, left channel first.
    pub fn feedback_sources(&self, ping_pong: bool, processed_left: S, processed_right: S) -> (sources: (
        S,
        S,
    ))
        ensures
            sources == sources_of(self@, ping_pong, processed_left, processed_right),
        no_unwind
    {
        if ping_pong {
            (self.feedback_right, self.feedback_left)
        } else {
            (processed_left, processed_right)
        }
    }

    /// Stores the next delay input of each channel in its active store.
    pub fn write(&mut self, reverse: bool, input_left: S, input_right: S)
        ensures
            final(self)@ == state_after_write(old(self)@, reverse, input_left, input_right),
            final(self)@.well_formed(),
        no_unwind
    {
        proof {
            use_type_invariant(&*self);
        }
        if reverse {
            self.reverse_left.write(input_left);
            self.reverse_right.write(input_right);
        } else {
            self.delay_left.write(input_left);
            self.delay_right.write(input_right);
        }
    }

    /// Remembers this frame's processed pair as the feedback source of the
    /// next frame.
    pub fn store_feedback(&mut self, processed_left: S, processed_right: S)
        ensures
            final(self)@ == state_after_feedback(old(self)@, processed_left, processed_right),
            final(self)@.well_formed(),
        no_unwind
    {
        proof {
            use_type_invariant(&*self);
        }
        self.feedback_left = processed_left;
        self.feedback_right = processed_right;
    }
}

/// An engine starts out alike on both sides and silent in its feedback. The
/// state of a new engine and the state fresh from sizing are well formed and
/// have both channels in the same state, so that a lone channel stays in the
/// middle from there on; and the first ping-pong frame after either takes
/// silence as the feedback source of both channels, whatever its own
/// processed pair is. The state after a reset has the same three properties
/// wherever the state before it was well formed and both reverse lines were
/// playing the same chunk length.
pub proof fn lemma_fresh_state_is_centered_and_silent<S>(
    before: EngineState<S>,
    capacity: nat,
    chunk_size: usize,
    silence: S,
    processed_left: S,
    processed_right: S,
)
    requires
        capacity <= usize::MAX,
    ensures
        state_unsized(silence).well_formed(),
        centered(state_unsized(silence)),
        sources_of(state_unsized(silence), true, processed_left, processed_right) == (
            silence,
            silence,
        ),
        state_fresh(capacity, chunk_size, silence).well_formed(),
        centered(state_fresh(capacity, chunk_size, silence)),
        sources_of(
            state_fresh(capacity, chunk_size, silence),
            true,
            processed_left,
            processed_right,
        ) == (silence, silence),
        before.well_formed() ==> state_after_reset(before, silence).well_formed(),
        before.well_formed() && before.reverse_left.first.chunk_size
            == before.reverse_right.first.chunk_size ==> centered(
            state_after_reset(before, silence),
        ),
        sources_of(state_after_reset(before, silence), true, processed_left, processed_right) == (
            silence,
            silence,
        ),
{
}

/// A lone channel stays in the middle. When both channels are in the same
/// state, are read at the same delay, and are handed the same input and the
/// same processed value, then in every topology they yield the same taps and
/// the same feedback sources, and they are in the same state again after
/// each of the four steps of a frame.
pub proof fn lemma_mono_stays_centered<S>(
    state: EngineState<S>,
    reverse: bool,
    ping_pong: bool,
    delay: usize,
    input: S,
    processed: S,
)
    requires
        centered(state),
    ensures
        taps_of(state, reverse, delay, delay).0 == taps_of(state, reverse, delay, delay).1,
        centered(state_after_read(state, reverse, delay, delay)),
        sources_of(state, ping_pong, processed, processed).0 == sources_of(
            state,
            ping_pong,
            processed,
            processed,
        ).1,
        centered(state_after_write(state, reverse, input, input)),
        centered(state_after_feedback(state, processed, processed)),
{
}

/// Ping-pong feeds each channel from the other channel's previous frame.
/// Whatever is read and written in between, and whatever this frame's own
/// processed pair is, the feedback sources of a ping-pong frame are the
/// processed values that the frame before it stored, with the sides
/// exchanged.
pub proof fn lemma_ping_pong_crosses_previous_frame<S>(
    state: EngineState<S>,
    stored_left: S,
    stored_right: S,
    reverse: bool,
    delay_left: usize,
    delay_right: usize,
    processed_left: S,
    processed_right: S,
)
    ensures
        sources_of(
            state_after_read(
                state_after_feedback(state, stored_left, stored_right),
                reverse,
                delay_left,
                delay_right,
            ),
            true,
            processed_left,
            processed_right,
        ) == (stored_right, stored_left),
{
}

} // verus!
