//! What a reverse delay line does over a run of frames.
//!
//! A frame is one read followed by one write. The laws here follow a grain
//! through a run of frames: it keeps to its chunk until the chunk is played
//! out, whatever chunk length is asked for in the meantime, and what it plays
//! is the stored signal in reverse order.

use vstd::prelude::*;
use vstd::arithmetic::div_mod::{
    lemma_fundamental_div_mod, lemma_fundamental_div_mod_converse_mod,
    lemma_mod_add_multiples_vanish, lemma_mod_bound, lemma_mod_equivalence, lemma_mod_twice,
    lemma_small_mod, lemma_sub_mod_noop,
};
use crate::delay_line::pushed;
use crate::reverse_delay::{
    after_read, after_write, chunk_for, grain_taps, half_chunk_apart, last_written_slot,
    lemma_grains_stay_half_chunk_apart, Grain, GrainTap, ReverseDelayState,
};

verus! {

/// The state is one that a line with capacity can be in: its cursor lies
/// within the capacity, and the capacity is one that a machine can address.
pub open spec fn in_use<S>(state: ReverseDelayState<S>) -> bool {
    0 <= state.cursor < state.slots.len() <= usize::MAX
}

/// Stored history of a line, most recent sample first: entry `k` is the
/// sample written `k` writes before the latest one.
pub open spec fn history_of<S>(state: ReverseDelayState<S>) -> Seq<S> {
    Seq::new(
        state.slots.len(),
        |k: int| state.slots[(state.cursor - 1 - k) % (state.slots.len() as int)],
    )
}

/// State after one frame: a read that asks for `delay_samples`, then a write
/// of `input`.
pub open spec fn after_frame<S>(
    state: ReverseDelayState<S>,
    delay_samples: usize,
    input: S,
) -> ReverseDelayState<S> {
    after_write(after_read(state, delay_samples), input)
}

/// State after a run of frames, first to last. Each frame is given as the
/// delay it asks for and the input it writes.
pub open spec fn after_frames<S>(
    state: ReverseDelayState<S>,
    frames: Seq<(usize, S)>,
) -> ReverseDelayState<S>
    decreases frames.len(),
{
    if frames.len() == 0 {
        state
    } else {
        after_frame(after_frames(state, frames.drop_last()), frames.last().0, frames.last().1)
    }
}

/// A write puts its sample at the head of the history and lets the oldest
/// entry go; a read leaves the history as it is.
pub proof fn lemma_history_follows_writes<S>(
    state: ReverseDelayState<S>,
    delay_samples: usize,
    input: S,
)
    requires
        in_use(state),
    ensures
        history_of(after_write(state, input)) == pushed(history_of(state), input),
        history_of(after_read(state, delay_samples)) == history_of(state),
{
    let capacity = state.slots.len() as int;
    let after = after_write(state, input);
    let expected = pushed(history_of(state), input);
    assert forall|k: int| 0 <= k < capacity implies history_of(after)[k] == expected[k] by {
        let slot = (after.cursor - 1 - k) % capacity;
        // The cursor has moved on by one slot, round the circle.
        if state.cursor + 1 == capacity {
            lemma_mod_add_multiples_vanish(-1 - k, capacity);
        }
        assert(slot == (state.cursor - k) % capacity);
        if k == 0 {
            lemma_small_mod(state.cursor as nat, capacity as nat);
        } else {
            lemma_mod_equivalence(state.cursor - k, state.cursor, capacity);
            lemma_mod_bound(state.cursor - k, capacity);
            if slot == state.cursor {
                lemma_small_mod(state.cursor as nat, capacity as nat);
                lemma_mod_add_multiples_vanish(-k, capacity);
                lemma_small_mod((capacity - k) as nat, capacity as nat);
            }
        }
    }
    assert(history_of(after) =~= expected);
}

/// `grain` after `reads` more reads inside its chunk.
pub open spec fn counted_on(grain: Grain, reads: nat) -> Grain {
    Grain {
        start: grain.start,
        counter: (grain.counter + reads) as usize,
        chunk_size: grain.chunk_size,
    }
}

/// None of the first `writes` writes from `cursor` on goes to `slot`.
pub open spec fn untouched(cursor: int, capacity: int, writes: nat, slot: int) -> bool
    decreases writes,
{
    writes == 0 || ((cursor + writes - 1) % capacity != slot && untouched(
        cursor,
        capacity,
        (writes - 1) as nat,
        slot,
    ))
}

/// A run of frames keeps the capacity, moves the cursor on by one slot per
/// frame round the circle, and leaves every slot as it was that none of its
/// writes goes to.
pub proof fn lemma_frames_write_in_turn<S>(state: ReverseDelayState<S>, frames: Seq<(usize, S)>)
    requires
        in_use(state),
    ensures
        in_use(after_frames(state, frames)),
        after_frames(state, frames).slots.len() == state.slots.len(),
        after_frames(state, frames).cursor
            == (state.cursor + frames.len()) % (state.slots.len() as int),
        forall|slot: int|
            0 <= slot < state.slots.len() && #[trigger] untouched(
                state.cursor,
                state.slots.len() as int,
                frames.len(),
                slot,
            ) ==> after_frames(state, frames).slots[slot] == state.slots[slot],
    decreases frames.len(),
{
    let capacity = state.slots.len() as int;
    if frames.len() == 0 {
        lemma_small_mod(state.cursor as nat, capacity as nat);
    } else {
        let before = after_frames(state, frames.drop_last());
        lemma_frames_write_in_turn(state, frames.drop_last());
        let n = frames.len() as int;
        // before.cursor == (cursor + n - 1) % capacity; the write moves it on by one.
        let q = (state.cursor + n - 1) / capacity;
        lemma_fundamental_div_mod(state.cursor + n - 1, capacity);
        if before.cursor + 1 == capacity {
            assert(state.cursor + n == (q + 1) * capacity + 0) by (nonlinear_arith)
                requires
                    state.cursor + n - 1 == capacity * q + before.cursor,
                    before.cursor + 1 == capacity,
            ;
            lemma_fundamental_div_mod_converse_mod(state.cursor + n, capacity, q + 1, 0);
        } else {
            assert(state.cursor + n == q * capacity + (before.cursor + 1)) by (nonlinear_arith)
                requires
                    state.cursor + n - 1 == capacity * q + before.cursor,
            ;
            lemma_fundamental_div_mod_converse_mod(
                state.cursor + n,
                capacity,
                q,
                before.cursor + 1,
            );
        }
        assert forall|slot: int|
            0 <= slot < state.slots.len() && #[trigger] untouched(
                state.cursor,
                capacity,
                frames.len(),
                slot,
            ) implies after_frames(state, frames).slots[slot] == state.slots[slot] by {
            assert(untouched(state.cursor, capacity, (frames.len() - 1) as nat, slot));
        }
    }
}

/// One of the two grains of a line: the second one if `second` is set, the
/// first one otherwise.
pub open spec fn grain_of<S>(state: ReverseDelayState<S>, second: bool) -> Grain {
    if second {
        state.second
    } else {
        state.first
    }
}

/// What the chosen grain taps in `state`.
pub open spec fn tap_of_grain<S>(state: ReverseDelayState<S>, second: bool) -> Option<GrainTap<S>> {
    match grain_taps(state) {
        Some(taps) => Some(if second { taps.1 } else { taps.0 }),
        None => None,
    }
}

/// The grain has just been anchored: it has made no read in its chunk, and
/// it sits on the sample that was the most recent one when the frame that
/// anchored it made its read, which is the second most recent one after
/// that frame's write.
pub open spec fn just_anchored<S>(state: ReverseDelayState<S>, grain: Grain) -> bool {
    &&& grain.counter == 0
    &&& grain.start == (state.cursor - 2) % (state.slots.len() as int)
}

/// A grain keeps to its chunk: through every frame before the last read of
/// its chunk it stays anchored where it is, counts on by one, and holds the
/// chunk length it has, whatever delays those frames ask for.
pub proof fn lemma_grain_keeps_to_its_chunk<S>(
    state: ReverseDelayState<S>,
    frames: Seq<(usize, S)>,
    second: bool,
)
    requires
        in_use(state),
        grain_of(state, second).counter + frames.len() < grain_of(state, second).chunk_size,
    ensures
        grain_of(after_frames(state, frames), second) == counted_on(
            grain_of(state, second),
            frames.len(),
        ),
    decreases frames.len(),
{
    if frames.len() > 0 {
        lemma_grain_keeps_to_its_chunk(state, frames.drop_last(), second);
        lemma_frames_write_in_turn(state, frames.drop_last());
    }
}

/// A new chunk length is taken up at the grain boundary, and there only: in
/// the frame that makes the last read of its chunk, the grain adopts the
/// chunk length that this very frame asks for and is anchored anew. So a
/// change of the requested length is heard after one chunk at the latest.
pub proof fn lemma_grain_adopts_chunk_at_its_boundary<S>(
    state: ReverseDelayState<S>,
    frames: Seq<(usize, S)>,
    second: bool,
)
    requires
        in_use(state),
        frames.len() > 0,
        grain_of(state, second).counter + frames.len() == grain_of(state, second).chunk_size,
    ensures
        grain_of(after_frames(state, frames), second).chunk_size == chunk_for(frames.last().0),
        just_anchored(after_frames(state, frames), grain_of(after_frames(state, frames), second)),
{
    let capacity = state.slots.len() as int;
    let before = after_frames(state, frames.drop_last());
    let after = after_frames(state, frames);
    lemma_grain_keeps_to_its_chunk(state, frames.drop_last(), second);
    lemma_frames_write_in_turn(state, frames.drop_last());
    let anchor = last_written_slot(before.cursor, capacity);
    assert(grain_of(after, second).start == anchor);
    if before.cursor == 0 {
        if capacity == 1 {
            lemma_fundamental_div_mod_converse_mod(after.cursor - 2, capacity, -2, 0);
        } else {
            lemma_fundamental_div_mod_converse_mod(after.cursor - 2, capacity, -1, capacity - 1);
        }
    } else if before.cursor + 1 == capacity {
        lemma_fundamental_div_mod_converse_mod(after.cursor - 2, capacity, -1, capacity - 2);
    } else {
        lemma_fundamental_div_mod_converse_mod(after.cursor - 2, capacity, 0, before.cursor - 1);
    }
}

/// Every frame of the run asks for a chunk of `chunk_size` samples.
pub open spec fn all_ask_for<S>(frames: Seq<(usize, S)>, chunk_size: usize) -> bool {
    forall|i: int| 0 <= i < frames.len() ==> chunk_for(#[trigger] frames[i].0) == chunk_size
}

/// While the chunk length asked for does not change, the grains keep half a
/// chunk apart: a run of frames that all ask for the chunk length that the
/// grains are playing leaves them half a chunk apart as it found them.
pub proof fn lemma_steady_frames_keep_grains_half_chunk_apart<S>(
    state: ReverseDelayState<S>,
    frames: Seq<(usize, S)>,
)
    requires
        half_chunk_apart(state.first, state.second),
        all_ask_for(frames, state.first.chunk_size),
    ensures
        half_chunk_apart(after_frames(state, frames).first, after_frames(state, frames).second),
        after_frames(state, frames).first.chunk_size == state.first.chunk_size,
    decreases frames.len(),
{
    if frames.len() > 0 {
        lemma_steady_frames_keep_grains_half_chunk_apart(state, frames.drop_last());
        let before = after_frames(state, frames.drop_last());
        assert(chunk_for(frames[frames.len() - 1].0) == state.first.chunk_size);
        lemma_grains_stay_half_chunk_apart(before, frames.last().0, frames.last().1);
        lemma_grains_stay_half_chunk_apart(
            after_read(before, frames.last().0),
            frames.last().0,
            frames.last().1,
        );
    }
}

/// None of `writes` writes from `cursor` on reaches the slot that lies
/// `writes + 2` slots behind the cursor, as long as `2 * writes + 1` stays
/// below the capacity.
proof fn lemma_writes_do_not_catch_up(cursor: int, capacity: int, writes: nat, upto: nat)
    requires
        0 <= cursor < capacity,
        upto <= writes,
        2 * writes + 1 < capacity,
    ensures
        untouched(cursor, capacity, upto, (cursor - 2 - writes) % capacity),
    decreases upto,
{
    if upto > 0 {
        lemma_writes_do_not_catch_up(cursor, capacity, writes, (upto - 1) as nat);
        let gap = upto - 1 + 2 + writes;
        lemma_small_mod(gap as nat, capacity as nat);
        lemma_mod_equivalence(cursor + upto - 1, cursor - 2 - writes, capacity);
    }
}

/// A grain plays the stored signal backwards. `k` frames after a grain has
/// been anchored, for every `k` inside its chunk, it taps the sample that
/// lay `k` writes before its anchor, as long as the writes of those frames
/// have not come round the circle to it, that is while `2 * k + 1` is below
/// the capacity.
pub proof fn lemma_chunk_is_played_backwards<S>(
    state: ReverseDelayState<S>,
    frames: Seq<(usize, S)>,
    second: bool,
)
    requires
        in_use(state),
        just_anchored(state, grain_of(state, second)),
        frames.len() < grain_of(state, second).chunk_size,
        2 * frames.len() + 1 < state.slots.len(),
    ensures
        tap_of_grain(after_frames(state, frames), second) matches Some(tap)
            && tap.counter == frames.len()
            && tap.sample == history_of(state)[frames.len() as int + 1],
{
    let capacity = state.slots.len() as int;
    let k = frames.len() as int;
    let after = after_frames(state, frames);
    lemma_grain_keeps_to_its_chunk(state, frames, second);
    lemma_frames_write_in_turn(state, frames);
    lemma_writes_do_not_catch_up(state.cursor, capacity, frames.len(), frames.len());
    let slot = (state.cursor - 2 - k) % capacity;
    lemma_mod_bound(state.cursor - 2 - k, capacity);
    // A grain anchored two behind the cursor reads slot `cursor - 2 - k`
    // after `k` reads.
    lemma_sub_mod_noop(state.cursor - 2, k, capacity);
    lemma_small_mod(frames.len(), capacity as nat);
    lemma_mod_twice(state.cursor - 2, capacity);
    assert((((state.cursor - 2) % capacity) - k) % capacity == slot);
    assert(after.slots[slot] == state.slots[slot]);
    assert(history_of(state)[k + 1] == state.slots[slot]);
}

} // verus!
