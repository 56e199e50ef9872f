//! The protocol that every cursor over a message follows.
//!
//! A cursor stands at a place in a region of bytes. The root cursor of a message owns the
//! view of the region and the limit: the offset behind the last byte that the pass has
//! written or read so far, over the whole message. A nested cursor (a group of entries, or a
//! composite inside a block) takes the cursor that encloses it by value and holds it until
//! it is asked to hand it back, so that at any time one cursor only can reach the region.
//!
//! The traits here say what a nested cursor may ask of the cursor it holds. Each is stated
//! over a model of the cursor: the bytes of the region, the limit, whether the chain of held
//! cursors still reaches down to the region, and the frame, which is everything else.

use crate::buffer::{ReadBuf, WriteBuf};
use vstd::prelude::*;

verus! {

/// What can go wrong in the protocol itself.
#[derive(Clone, Copy, Debug, PartialEq, Eq, Structural, PartialOrd, Ord, Hash)]
pub enum SbeErr {
    /// A nested cursor was asked for the cursor that it holds, or to act through it, after
    /// it had handed it back.
    ParentNotSet,
    /// The message declares a size or a number of entries that the region does not hold, or
    /// a block too short for what stands in it: it was cut off or is corrupt.
    Truncated,
}

/// The result of a step of the protocol.
pub type SbeResult<T> = Result<T, SbeErr>;

/// A cursor that can reach a region of bytes to write to it.
pub trait Writer<'a>: Sized {
    /// What of a cursor neither a write to the region nor a move of the limit changes.
    type Frame;

    /// The part of the cursor that neither a write to the region nor a move of the limit
    /// changes.
    spec fn frame(&self) -> Self::Frame;

    /// Whether the chain of held cursors reaches down to the region.
    spec fn attached(&self) -> bool;

    /// The bytes of the region as they are now.
    spec fn bytes(&self) -> Seq<u8>;

    /// The offset behind the last byte of the message so far.
    spec fn limit(&self) -> usize;

    /// The view of the region. What is done to the region through it is done to the
    /// cursor's bytes, and to nothing else of the cursor.
    fn get_buf_mut(&mut self) -> (buf: &mut WriteBuf<'a>)
        requires
            old(self).attached(),
        ensures
            buf@ == old(self).bytes(),
            final(self).bytes() == final(buf)@,
            final(self).attached(),
            final(self).limit() == old(self).limit(),
            final(self).frame() == old(self).frame(),
    ;
}

/// A writing cursor that lets the limit be read and moved.
pub trait Encoder<'a>: Writer<'a> {
    /// The limit.
    fn get_limit(&self) -> (limit: usize)
        requires
            self.attached(),
        ensures
            limit == self.limit(),
    ;

    /// Moves the limit to `limit` and changes nothing else.
    fn set_limit(&mut self, limit: usize)
        requires
            old(self).attached(),
        ensures
            final(self).limit() == limit,
            final(self).bytes() == old(self).bytes(),
            final(self).attached(),
            final(self).frame() == old(self).frame(),
    ;
}

/// Whether a message written with version `acting` of the schema carries a field that the
/// schema has had since version `since`. A field that it does not carry is absent: the bytes
/// in its place are not its own.
pub open spec fn carries(acting: u16, since: u16) -> bool {
    since <= acting
}

/// A cursor that knows which version of the schema the message it reads was written with.
pub trait ActingVersion {
    /// The version of the schema that the message was written with: the one that the cursor
    /// acts under.
    spec fn acting(&self) -> u16;

    /// The version of the schema that the message was written with.
    fn acting_version(&self) -> (version: u16)
        ensures
            version == self.acting(),
    ;

    /// Whether the message carries a field that the schema has had since version
    /// `since_version`. Where it does not, the field is absent and must not be read.
    fn carries_since(&self, since_version: u16) -> (present: bool)
        ensures
            present == carries(self.acting(), since_version),
    {
        since_version <= self.acting_version()
    }
}

/// A cursor that can reach a region of bytes to read it.
pub trait Reader<'a>: Sized {
    /// Whether the chain of held cursors reaches down to the region.
    spec fn attached(&self) -> bool;

    /// The bytes of the region.
    spec fn bytes(&self) -> Seq<u8>;

    /// The view of the region.
    fn get_buf(&self) -> (buf: &ReadBuf<'a>)
        requires
            self.attached(),
        ensures
            buf@ == self.bytes(),
    ;
}

/// A reading cursor that lets the limit be read and moved.
pub trait Decoder<'a>: Reader<'a> {
    /// What of a cursor a move of the limit does not change, the bytes aside.
    type Frame;

    /// The part of the cursor that a move of the limit does not change, the bytes aside.
    spec fn frame(&self) -> Self::Frame;

    /// The offset behind the last byte of the message read so far.
    spec fn limit(&self) -> usize;

    /// The limit.
    fn get_limit(&self) -> (limit: usize)
        requires
            self.attached(),
        ensures
            limit == self.limit(),
    ;

    /// Moves the limit to `limit` and changes nothing else.
    fn set_limit(&mut self, limit: usize)
        requires
            old(self).attached(),
        ensures
            final(self).limit() == limit,
            final(self).bytes() == old(self).bytes(),
            final(self).attached(),
            final(self).frame() == old(self).frame(),
    ;
}

impl<'a> Reader<'a> for ReadBuf<'a> {
    /// A view is the region's own: nothing stands between.
    open spec fn attached(&self) -> bool {
        true
    }

    open spec fn bytes(&self) -> Seq<u8> {
        self@
    }

    fn get_buf(&self) -> (buf: &ReadBuf<'a>) {
        self
    }
}

/// The frame of a composite: a cursor over one fixed-shape part of a block.
pub struct CompositeFrame<F> {
    /// The frame of the cursor that the composite holds, if it holds one.
    pub parent: Option<F>,
    /// Where the composite starts in the region.
    pub offset: usize,
}

/// Where a pass over the entries of a group stands.
#[derive(Clone, Copy, Debug, PartialEq, Eq, Structural)]
pub enum GroupState {
    /// No entry has been asked for yet.
    Unstarted,
    /// The cursor stands on the entry with this index.
    Active(usize),
    /// Every entry has been passed.
    Exhausted,
}

/// The frame of a group: a cursor over the entries of a repeating part of the message.
pub struct GroupFrame<F> {
    /// The frame of the cursor that the group holds, if it holds one.
    pub parent: Option<F>,
    /// The size of the fixed block of each entry.
    pub block_length: u16,
    /// The number of entries.
    pub count: u8,
    /// Where the pass over the entries stands.
    pub state: GroupState,
    /// Where the entry that the cursor stands on starts in the region.
    pub entry_offset: usize,
}

/// The index of the entry that comes after the place `state`, whether or not the group has
/// that many.
pub open spec fn next_index(state: GroupState) -> int {
    match state {
        GroupState::Unstarted => 0,
        GroupState::Active(index) => index + 1,
        GroupState::Exhausted => -1,
    }
}

/// Whether a group of `count` entries has an entry after the place `state`.
pub open spec fn has_next(state: GroupState, count: u8) -> bool {
    0 <= next_index(state) < count
}

/// The one step of a pass over a group of `count` entries: from `state` to the next entry,
/// or to the end where there is none. There is no way back.
pub open spec fn step(state: GroupState, count: u8) -> GroupState {
    if has_next(state, count) {
        GroupState::Active(next_index(state) as usize)
    } else {
        GroupState::Exhausted
    }
}

/// What a step from `state` reports: the index of the entry that it came to, if any.
pub open spec fn step_outcome(state: GroupState, count: u8) -> Option<usize> {
    if has_next(state, count) {
        Some(next_index(state) as usize)
    } else {
        None
    }
}

/// Where a pass over a group of `count` entries stands after `steps` steps from the start.
pub open spec fn after_steps(count: u8, steps: nat) -> GroupState
    decreases steps,
{
    if steps == 0 {
        GroupState::Unstarted
    } else {
        step(after_steps(count, (steps - 1) as nat), count)
    }
}

/// A group that declares `count` entries yields exactly `count` of them, in order, and then
/// none, however often it is asked: the step numbered `steps + 1` reports the entry with
/// index `steps` where `steps` is below `count`, and no entry after that.
pub proof fn lemma_group_yields_count(count: u8, steps: nat)
    ensures
        after_steps(count, steps) == if steps == 0 {
            GroupState::Unstarted
        } else if steps <= count {
            GroupState::Active((steps - 1) as usize)
        } else {
            GroupState::Exhausted
        },
        step_outcome(after_steps(count, steps), count) == if steps < count {
            Some(steps as usize)
        } else {
            None
        },
    decreases steps,
{
    if steps > 0 {
        lemma_group_yields_count(count, (steps - 1) as nat);
    }
}

} // verus!
