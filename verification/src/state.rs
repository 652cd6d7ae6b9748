//! The state that all handles of one channel share, and the operations on it.

use crate::channel::Channel;
use crate::channel::DEFAULT_CHUNK_SIZE;
use std::task::Waker;
use vstd::prelude::*;
use vstd::slice::slice_to_vec;

verus! {

/// `std::task::Waker`: the handle by which a suspended task is resumed. Its
/// inside is not visible to the proofs.
#[verifier::external_type_specification]
#[verifier::external_body]
pub struct ExWaker(Waker);

/// `Waker::wake`: consumes the waker and asks the executor to poll its task
/// again. Nothing is claimed of the effect.
pub assume_specification[ Waker::wake ](waker: Waker);

/// How an attempted operation ended: it completed with a value, or it
/// suspended and is to be tried again.
#[derive(Debug, PartialEq, Eq)]
pub enum Progress<T> {
    Ready(T),
    Pending,
}

/// The state of one channel.
pub struct State {
    /// The bytes written and not yet taken, oldest first.
    pub buf: Vec<u8>,
    /// The waker of the pull that suspended last, until a write resumes it.
    pub waker: Option<Waker>,
    /// The most bytes that one pull yields.
    pub chunk_size: usize,
}

impl View for State {
    type V = Channel;

    open spec fn view(&self) -> Channel {
        Channel { buf: self.buf@, chunk_size: self.chunk_size as nat }
    }
}

impl State {
    /// An empty state with the given chunk limit and no waker. A limit of
    /// zero is accepted: no pull on such a channel ever yields.
    pub fn with_chunk_size(chunk_size: usize) -> (this: Self)
        ensures
            this@ == Channel::new(chunk_size as nat),
            this.waker is None,
    {
        let mut this = Self::default();
        this.chunk_size = chunk_size;
        this
    }

    /// Resumes the suspended pull, if there is one, and forgets its waker.
    /// Without a waker this does nothing.
    pub fn wake(&mut self)
        ensures
            final(self).waker is None,
            final(self).buf == old(self).buf,
            final(self).chunk_size == old(self).chunk_size,
    {
        if let Some(waker) = self.waker.take() {
            waker.wake();
        }
    }

    /// Appends `data` at the tail, resumes the suspended pull, and returns the
    /// number of bytes that are buffered after the append: all of them, not
    /// only those of `data`.
    pub fn write(&mut self, data: &[u8]) -> (total: usize)
        ensures
            final(self)@ == old(self)@.write(data@),
            final(self).waker is None,
            total == old(self).buf@.len() + data@.len(),
    {
        let mut tail: Vec<u8> = slice_to_vec(data);
        self.buf.append(&mut tail);
        self.wake();
        self.buf.len()
    }

    /// Fills `dst` with the first `dst.len()` buffered bytes and removes them,
    /// or suspends, taking nothing, while fewer are buffered. The waker is
    /// left as it is: a suspended read is resumed by no write.
    pub fn read(&mut self, dst: &mut [u8]) -> (r: Progress<usize>)
        ensures
            final(self)@ == old(self)@.read(old(dst)@.len()),
            final(self).waker == old(self).waker,
            final(dst)@.len() == old(dst)@.len(),
            match r {
                Progress::Ready(n) => old(self)@.can_read(old(dst)@.len()) && n == old(dst)@.len()
                    && final(dst)@ == old(self)@.read_out(old(dst)@.len()),
                Progress::Pending => !old(self)@.can_read(old(dst)@.len()) && final(dst)@ == old(
                    dst,
                )@,
            },
    {
        let n: usize = dst.len();
        if self.buf.len() < n {
            return Progress::Pending;
        }
        let mut rest: Vec<u8> = self.buf.split_off(n);
        let mut i: usize = 0;
        while i < n
            invariant
                i <= n,
                n == dst@.len(),
                n == self.buf@.len(),
                forall|k: int| 0 <= k < i ==> dst@[k] == self.buf@[k],
            decreases n - i,
        {
            dst[i] = self.buf[i];
            i += 1;
        }
        assert(dst@ =~= self.buf@);
        std::mem::swap(&mut self.buf, &mut rest);
        Progress::Ready(n)
    }

    /// Registers `waker` as the one that the next write resumes, in place of
    /// any earlier one, and yields the next chunk: the first `chunk_size`
    /// buffered bytes, or all of them where fewer are buffered. With nothing
    /// to yield the pull suspends.
    pub fn next_chunk(&mut self, waker: Waker) -> (r: Progress<Vec<u8>>)
        ensures
            final(self)@ == old(self)@.next(),
            final(self).waker == Some(waker),
            match r {
                Progress::Ready(chunk) => chunk@ == old(self)@.next_out() && 1 <= chunk@.len()
                    <= old(self).chunk_size,
                Progress::Pending => old(self)@.chunk_len() == 0,
            },
    {
        self.waker = Some(waker);
        let take: usize = if self.chunk_size <= self.buf.len() {
            self.chunk_size
        } else {
            self.buf.len()
        };
        if take == 0 {
            assert(self.buf@.skip(0) =~= self.buf@);
            return Progress::Pending;
        }
        let mut rest: Vec<u8> = self.buf.split_off(take);
        std::mem::swap(&mut self.buf, &mut rest);
        Progress::Ready(rest)
    }
}

impl Default for State {
    /// An empty state with the default chunk limit and no waker.
    fn default() -> (this: Self)
        ensures
            this@ == Channel::new(DEFAULT_CHUNK_SIZE as nat),
            this.waker is None,
    {
        State { buf: Vec::new(), waker: None, chunk_size: DEFAULT_CHUNK_SIZE }
    }
}

} // verus!
