//! The output of the proxy core that is kept for later: a ring of lines
//! with a fixed capacity, in which a new line replaces the oldest one once
//! the ring is full.

use crate::ipc::wire::texts_of;
use vstd::prelude::*;

verus! {

/// The lines kept after one more arrives at a ring of `capacity` lines.
pub open spec fn pushed(lines: Seq<Seq<char>>, line: Seq<char>, capacity: nat) -> Seq<Seq<char>> {
    if capacity == 0 {
        lines
    } else if lines.len() < capacity {
        lines.push(line)
    } else {
        lines.drop_first().push(line)
    }
}

/// The newest `count` lines, oldest first; all of them where there are
/// fewer.
pub open spec fn newest(lines: Seq<Seq<char>>, count: nat) -> Seq<Seq<char>> {
    if count >= lines.len() {
        lines
    } else {
        lines.subrange(lines.len() - count, lines.len() as int)
    }
}

/// The slot that holds the line of age rank `i` (0 is the oldest) in a ring
/// of `len` slots whose oldest line is in slot `head`.
pub open spec fn slot_of(head: int, len: int, i: int) -> int {
    if head + i < len {
        head + i
    } else {
        head + i - len
    }
}

/// A bounded ring of text lines.
pub struct LogBuffer {
    slots: Vec<String>,
    head: usize,
    capacity: usize,
}

impl View for LogBuffer {
    type V = Seq<Seq<char>>;

    /// The lines that are kept, oldest first.
    closed spec fn view(&self) -> Seq<Seq<char>> {
        Seq::new(
            self.slots@.len(),
            |i: int| self.slots@[slot_of(self.head as int, self.slots@.len() as int, i)]@,
        )
    }
}

impl LogBuffer {
    #[verifier::type_invariant]
    spec fn well_formed(&self) -> bool {
        &&& self.slots@.len() <= self.capacity
        &&& self.head == 0 || (self.slots@.len() == self.capacity && self.head < self.capacity)
    }

    /// The number of lines that the ring can keep.
    pub closed spec fn limit(&self) -> nat {
        self.capacity as nat
    }

    /// An empty ring that keeps at most `capacity` lines.
    pub fn new(capacity: usize) -> (buffer: LogBuffer)
        ensures
            buffer@ == Seq::<Seq<char>>::empty(),
            buffer.limit() == capacity,
    {
        let buffer = LogBuffer { slots: Vec::new(), head: 0, capacity };
        assert(buffer@ =~= Seq::<Seq<char>>::empty());
        buffer
    }

    /// The number of lines that the ring can keep.
    pub fn capacity(&self) -> (capacity: usize)
        ensures
            capacity == self.limit(),
    {
        self.capacity
    }

    /// The number of lines that are kept: never more than the capacity.
    pub fn len(&self) -> (count: usize)
        ensures
            count == self@.len(),
            count <= self.limit(),
    {
        proof {
            use_type_invariant(self);
        }
        self.slots.len()
    }

    /// Keeps one more line; where the ring is full, the oldest line goes.
    pub fn push(&mut self, line: String)
        ensures
            final(self).limit() == old(self).limit(),
            final(self)@ == pushed(old(self)@, line@, old(self).limit()),
            final(self)@.len() <= final(self).limit(),
    {
        proof {
            use_type_invariant(&*self);
        }
        if self.capacity == 0 {
            assert(self@ =~= Seq::<Seq<char>>::empty());
            return ;
        }
        let ghost before = self@;
        let head = self.head;
        self.head = 0;
        let mut slots: Vec<String> = Vec::new();
        std::mem::swap(&mut slots, &mut self.slots);
        if slots.len() < self.capacity {
            slots.push(line);
            self.slots = slots;
            assert(self@ =~= before.push(line@));
        } else {
            slots.set(head, line);
            let next: usize = if head + 1 == self.capacity {
                0
            } else {
                head + 1
            };
            self.slots = slots;
            self.head = next;
            assert(self@ =~= before.drop_first().push(line@));
        }
    }

    /// Copies of the newest `max_lines` lines, oldest first.
    pub fn tail(&self, max_lines: usize) -> (lines: Vec<String>)
        ensures
            texts_of(lines@) == newest(self@, max_lines as nat),
    {
        proof {
            use_type_invariant(self);
        }
        let len = self.slots.len();
        let first: usize = if max_lines >= len {
            0
        } else {
            len - max_lines
        };
        let mut lines: Vec<String> = Vec::new();
        let mut rank: usize = first;
        while rank < len
            invariant
                first <= rank <= len,
                len == self.slots@.len(),
                self.head == 0 || self.head < len,
                texts_of(lines@) == self@.subrange(first as int, rank as int),
            decreases len - rank,
        {
            let slot: usize = if self.head < len - rank {
                self.head + rank
            } else {
                self.head - (len - rank)
            };
            let line = self.slots[slot].clone();
            let ghost kept = texts_of(lines@);
            assert(slot == slot_of(self.head as int, len as int, rank as int));
            assert(line@ == self@[rank as int]);
            lines.push(line);
            assert(texts_of(lines@) =~= kept.push(self@[rank as int]));
            rank += 1;
            assert(texts_of(lines@) =~= self@.subrange(first as int, rank as int));
        }
        assert(self@.subrange(first as int, len as int) =~= newest(self@, max_lines as nat));
        lines
    }
}

} // verus!
