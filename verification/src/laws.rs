//! What holds of every arena, whatever is done with it.
//!
//! The executable operations are specified as transitions of
//! [`ArenaState`](crate::model::ArenaState); these laws are proved of the
//! transitions, and so hold of every run of the executable code.

use crate::model::{lemma_total_len_push, total_len, ArenaState};
use vstd::prelude::*;

verus! {

/// One operation on an arena.
pub enum Step {
    /// Append these bytes.
    Append(Seq<u8>),
    /// Append a copy of the bytes at `[start, end)` of the buffer in progress.
    AppendWithin { start: int, end: int },
    /// Remove the last byte.
    Pop,
    /// Cut the buffer in progress to this length.
    Truncate(nat),
    /// Overwrite the buffer in progress in place with as many bytes.
    Rewrite(Seq<u8>),
    /// Freeze the buffer in progress.
    Freeze,
}

impl Step {
    /// Whether the operation may be applied to `s`: an append stays within the
    /// reservation, a source range lies in the buffer, a rewrite keeps the
    /// length.
    pub open spec fn allowed(self, s: ArenaState) -> bool {
        match self {
            Step::Append(bytes) => bytes.len() <= s.spare(),
            Step::AppendWithin { start, end } => {
                &&& 0 <= start <= end <= s.building.len()
                &&& end - start <= s.spare()
            },
            Step::Pop => true,
            Step::Truncate(_) => true,
            Step::Rewrite(bytes) => bytes.len() == s.building.len(),
            Step::Freeze => true,
        }
    }

    /// The arena after the operation.
    pub open spec fn apply(self, s: ArenaState) -> ArenaState {
        match self {
            Step::Append(bytes) => s.append(bytes),
            Step::AppendWithin { start, end } => s.append_within(start, end),
            Step::Pop => s.pop(),
            Step::Truncate(len) => s.truncate(len),
            Step::Rewrite(bytes) => s.rewrite(bytes),
            Step::Freeze => s.freeze(),
        }
    }
}

/// Every operation of `steps` may be applied in turn, starting from `s`.
pub open spec fn all_allowed(s: ArenaState, steps: Seq<Step>) -> bool
    decreases steps.len(),
{
    if steps.len() == 0 {
        true
    } else {
        &&& all_allowed(s, steps.drop_last())
        &&& steps.last().allowed(run(s, steps.drop_last()))
    }
}

/// The arena after the operations of `steps`, applied in order to `s`.
pub open spec fn run(s: ArenaState, steps: Seq<Step>) -> ArenaState
    decreases steps.len(),
{
    if steps.len() == 0 {
        s
    } else {
        steps.last().apply(run(s, steps.drop_last()))
    }
}

/// `chunks` laid end to end.
pub open spec fn concat(chunks: Seq<Seq<u8>>) -> Seq<u8>
    decreases chunks.len(),
{
    if chunks.len() == 0 {
        Seq::empty()
    } else {
        concat(chunks.drop_last()) + chunks.last()
    }
}

/// The arena after each of `chunks` was appended in turn.
pub open spec fn append_all(s: ArenaState, chunks: Seq<Seq<u8>>) -> ArenaState
    decreases chunks.len(),
{
    if chunks.len() == 0 {
        s
    } else {
        append_all(s, chunks.drop_last()).append(chunks.last())
    }
}

/// Appends only add to the buffer in progress: after them it holds what it
/// held before, then the chunks end to end; the arena is otherwise the same.
pub proof fn lemma_append_all(s: ArenaState, chunks: Seq<Seq<u8>>)
    ensures
        append_all(s, chunks) == s.rewrite(s.building + concat(chunks)),
    decreases chunks.len(),
{
    if chunks.len() > 0 {
        lemma_append_all(s, chunks.drop_last());
    }
}

/// Round trip: what is appended to an empty buffer, chunk after chunk, is
/// what the freeze hands out, in the order of the appends.
pub proof fn lemma_round_trip(s: ArenaState, chunks: Seq<Seq<u8>>)
    requires
        s.building.len() == 0,
    ensures
        append_all(s, chunks).freeze().frozen.last() == concat(chunks),
{
    lemma_append_all(s, chunks);
}

/// A freeze hands out the buffer as the operations before it left it, and
/// begins an empty one.
pub proof fn lemma_freeze_hands_out_building(s: ArenaState, steps: Seq<Step>)
    ensures
        run(s, steps.push(Step::Freeze)).frozen.last() == run(s, steps).building,
        run(s, steps.push(Step::Freeze)).building.len() == 0,
{
    assert(steps.push(Step::Freeze).drop_last() == steps);
}

/// Cumulative accounting: a freeze leaves the bytes in use as many as they
/// were, and after it they are the sum of the lengths of all the buffers
/// frozen so far.
pub proof fn lemma_used_after_freeze(s: ArenaState)
    ensures
        s.freeze().used() == s.used(),
        s.freeze().used() == total_len(s.freeze().frozen),
{
    lemma_total_len_push(s.frozen, s.building);
}

/// The top only advances: no operation takes back what was committed. The
/// bytes in use never decrease but by `pop` and `truncate`, which take them
/// from the buffer in progress.
pub proof fn lemma_used_is_monotone(s: ArenaState, step: Step)
    requires
        step.allowed(s),
    ensures
        step.apply(s).committed() >= s.committed(),
        !(step is Pop) && !(step is Truncate) ==> step.apply(s).used() >= s.used(),
        step is Pop || step is Truncate ==> step.apply(s).committed() == s.committed(),
{
    if step is Freeze {
        lemma_used_after_freeze(s);
    }
}

/// No operation changes the capacity, and none that is allowed takes the
/// bytes in use beyond it.
pub proof fn lemma_step_keeps_within_capacity(s: ArenaState, step: Step)
    requires
        s.fits(),
        step.allowed(s),
    ensures
        step.apply(s).capacity == s.capacity,
        step.apply(s).fits(),
{
    if step is Freeze {
        lemma_used_after_freeze(s);
    }
}

/// The same of any number of operations in turn.
pub proof fn lemma_run_keeps_within_capacity(s: ArenaState, steps: Seq<Step>)
    requires
        s.fits(),
        all_allowed(s, steps),
    ensures
        run(s, steps).capacity == s.capacity,
        run(s, steps).fits(),
    decreases steps.len(),
{
    if steps.len() > 0 {
        lemma_run_keeps_within_capacity(s, steps.drop_last());
        lemma_step_keeps_within_capacity(run(s, steps.drop_last()), steps.last());
    }
}

/// Non-interference: whatever is done to an arena, the buffers frozen before
/// are still there, in their places and byte for byte.
pub proof fn lemma_frozen_is_never_altered(s: ArenaState, steps: Seq<Step>)
    ensures
        s.frozen.is_prefix_of(run(s, steps).frozen),
    decreases steps.len(),
{
    if steps.len() > 0 {
        lemma_frozen_is_never_altered(s, steps.drop_last());
    }
}

/// Only a freeze adds to the frozen buffers: every other operation leaves
/// them exactly as they are.
pub proof fn lemma_building_steps_keep_frozen(s: ArenaState, step: Step)
    requires
        !(step is Freeze),
    ensures
        step.apply(s).frozen == s.frozen,
{
}

/// An append from within copies the bytes of the range as they were before
/// the call, behind the bytes that were there, which stay as they were.
pub proof fn lemma_append_within_copies(s: ArenaState, start: int, end: int)
    requires
        0 <= start <= end <= s.building.len(),
    ensures
        s.append_within(start, end).building.len() == s.building.len() + (end - start),
        s.append_within(start, end).building.take(s.building.len() as int) == s.building,
        s.append_within(start, end).building.skip(s.building.len() as int)
            == s.building.subrange(start, end),
        forall|k: int|
            0 <= k < end - start ==> s.append_within(start, end).building[s.building.len() + k]
                == #[trigger] s.building[start + k],
{
}

/// Truncation only shrinks: a length beyond the buffer's changes nothing, a
/// length within it keeps exactly that many bytes from the front.
pub proof fn lemma_truncate_only_shrinks(s: ArenaState, len: nat)
    ensures
        len > s.building.len() ==> s.truncate(len) == s,
        len <= s.building.len() ==> s.truncate(len).building == s.building.take(len as int),
        s.truncate(len).building.len() <= s.building.len(),
        s.truncate(len).building.is_prefix_of(s.building),
{
}

/// A pop on an empty buffer hands out nothing and changes nothing; on any
/// other it hands out the last byte and shortens the buffer by it.
pub proof fn lemma_pop(s: ArenaState)
    ensures
        s.building.len() == 0 ==> s.last_byte() is None && s.pop() == s,
        s.building.len() > 0 ==> s.last_byte() == Some(s.building.last())
            && s.pop().building.push(s.building.last()) == s.building,
{
}

/// A pop undoes the append of one byte.
pub proof fn lemma_pop_undoes_append(s: ArenaState, byte: u8)
    ensures
        s.append(seq![byte]).last_byte() == Some(byte),
        s.append(seq![byte]).pop() == s,
{
    assert(s.append(seq![byte]).building.drop_last() == s.building);
}

} // verus!
