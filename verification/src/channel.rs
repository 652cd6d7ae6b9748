//! The channel as a mathematical value, and what each operation does to it.
//!
//! A channel is a first-in, first-out sequence of bytes together with a chunk
//! limit. Writers append at the tail; readers and pulls take from the head. The
//! contracts of the executable operations are stated over the functions of this
//! module, and so are the laws proved about sequences of operations.

use vstd::prelude::*;

verus! {

/// The chunk limit of a channel that was made without an explicit one.
pub const DEFAULT_CHUNK_SIZE: usize = 10;

/// The bytes that were written and not yet taken, oldest first, and the most
/// that a single pull may take.
pub struct Channel {
    pub buf: Seq<u8>,
    pub chunk_size: nat,
}

/// One operation on a channel.
pub enum Op {
    /// Append the bytes at the tail.
    Write(Seq<u8>),
    /// Take exactly this many bytes from the head, or nothing.
    Read(nat),
    /// Pull the next chunk from the head.
    Next,
    /// Flush the channel.
    Flush,
    /// Close the channel.
    Close,
}

impl Channel {
    /// The empty channel with the given chunk limit.
    pub open spec fn new(chunk_size: nat) -> Channel {
        Channel { buf: Seq::empty(), chunk_size }
    }

    /// The channel after `data` was appended at the tail.
    pub open spec fn write(self, data: Seq<u8>) -> Channel {
        Channel { buf: self.buf + data, chunk_size: self.chunk_size }
    }

    /// Whether a read of `n` bytes can complete: at least `n` bytes are
    /// buffered. A read of no bytes always can.
    pub open spec fn can_read(self, n: nat) -> bool {
        n <= self.buf.len()
    }

    /// The bytes that a read of `n` bytes delivers: the first `n`, or none
    /// while fewer than `n` are buffered.
    pub open spec fn read_out(self, n: nat) -> Seq<u8> {
        if self.can_read(n) {
            self.buf.take(n as int)
        } else {
            Seq::empty()
        }
    }

    /// The channel after a read of `n` bytes: without its first `n` bytes, or
    /// unchanged while fewer than `n` are buffered.
    pub open spec fn read(self, n: nat) -> Channel {
        if self.can_read(n) {
            Channel { buf: self.buf.skip(n as int), chunk_size: self.chunk_size }
        } else {
            self
        }
    }

    /// How many bytes the next pull takes: the chunk limit, or all that is
    /// buffered where that is less.
    pub open spec fn chunk_len(self) -> nat {
        if self.chunk_size <= self.buf.len() {
            self.chunk_size
        } else {
            self.buf.len()
        }
    }

    /// The chunk that the next pull yields; empty where the pull suspends.
    pub open spec fn next_out(self) -> Seq<u8> {
        self.buf.take(self.chunk_len() as int)
    }

    /// The channel after a pull.
    pub open spec fn next(self) -> Channel {
        Channel { buf: self.buf.skip(self.chunk_len() as int), chunk_size: self.chunk_size }
    }

    /// The channel after one operation.
    pub open spec fn step(self, op: Op) -> Channel {
        match op {
            Op::Write(data) => self.write(data),
            Op::Read(n) => self.read(n),
            Op::Next => self.next(),
            Op::Flush => self,
            Op::Close => self,
        }
    }

    /// The bytes that one operation hands to its caller; empty where it
    /// suspends, and for every operation that does not take bytes.
    pub open spec fn output(self, op: Op) -> Seq<u8> {
        match op {
            Op::Write(_) => Seq::empty(),
            Op::Read(n) => self.read_out(n),
            Op::Next => self.next_out(),
            Op::Flush => Seq::empty(),
            Op::Close => Seq::empty(),
        }
    }

    /// The channel after the operations `ops`, applied in order.
    pub open spec fn run(self, ops: Seq<Op>) -> Channel
        decreases ops.len(),
    {
        if ops.len() == 0 {
            self
        } else {
            self.run(ops.drop_last()).step(ops.last())
        }
    }

    /// All bytes that the operations `ops`, applied in order, hand to their
    /// callers, in the order in which they were handed out.
    pub open spec fn delivered(self, ops: Seq<Op>) -> Seq<u8>
        decreases ops.len(),
    {
        if ops.len() == 0 {
            Seq::empty()
        } else {
            self.delivered(ops.drop_last()) + self.run(ops.drop_last()).output(ops.last())
        }
    }
}

/// The bytes that one operation appends: the argument of a write, nothing for
/// any other operation.
pub open spec fn input(op: Op) -> Seq<u8> {
    match op {
        Op::Write(data) => data,
        _ => Seq::empty(),
    }
}

/// All bytes that the writes among `ops` append, in the order of the writes.
pub open spec fn written(ops: Seq<Op>) -> Seq<u8>
    decreases ops.len(),
{
    if ops.len() == 0 {
        Seq::empty()
    } else {
        written(ops.drop_last()) + input(ops.last())
    }
}

/// Whether an operation is a flush or a close.
pub open spec fn is_idle(op: Op) -> bool {
    op is Flush || op is Close
}

} // verus!
