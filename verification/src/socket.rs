//! The handle of a channel: a shared, lock-guarded reference to its state.

use crate::channel::Channel;
use crate::channel::DEFAULT_CHUNK_SIZE;
use crate::state::Progress;
use crate::state::State;
use futures::lock::Mutex;
use futures::lock::MutexGuard;
use futures::Future;
use std::pin::Pin;
use std::sync::Arc;
use std::task::Context;
use std::task::Poll;
use std::task::Waker;
use vstd::prelude::*;

verus! {

/// `futures::lock::Mutex`: the lock around the shared state. What it guards
/// changes behind a shared reference, so the proofs see nothing inside it.
#[verifier::external_type_specification]
#[verifier::external_body]
#[verifier::reject_recursive_types(T)]
pub struct ExMutex<T: ?Sized>(Mutex<T>);

/// `futures::lock::MutexGuard`: the proof of holding the lock. Dropping it
/// releases the lock.
#[verifier::external_type_specification]
#[verifier::external_body]
#[verifier::reject_recursive_types(T)]
pub struct ExMutexGuard<'a, T: ?Sized>(MutexGuard<'a, T>);

/// `std::task::Context`: what the executor hands to a polled task.
#[verifier::external_type_specification]
#[verifier::external_body]
pub struct ExContext<'a>(Context<'a>);

/// The mutex that `Mutex::new` makes around a state that holds no waker and
/// whose view is `channel`: unlocked, with no waiters, guarding that state.
pub uninterp spec fn fresh_mutex(channel: Channel) -> Mutex<State>;

/// `Mutex::new`: an unlocked mutex with no waiters around the given state. It
/// is computed from the state alone; a mutex is opaque to the proofs, so the
/// result is named rather than written out. The state holds no waker, so its
/// view says all of it.
#[verifier::external_body]
fn new_mutex(state: State) -> (mutex: Mutex<State>)
    requires
        state.waker is None,
    ensures
        mutex == fresh_mutex(state@),
{
    Mutex::new(state)
}

/// `Context::waker`: the waker of the task that is being polled.
pub assume_specification<'a>[ Context::<'a>::waker ](cx: &Context<'a>) -> &'a Waker;

/// `Waker::clone`: another waker for the same task.
pub assume_specification[ <Waker as Clone>::clone ](waker: &Waker) -> Waker;

/// `Arc::clone`: another pointer to the same allocation. To the proofs an
/// `Arc` is the value it points to, so the clone equals what it was made from.
#[verifier::external_body]
fn share(state: &Arc<Mutex<State>>) -> (shared: Arc<Mutex<State>>)
    ensures
        shared == *state,
{
    Arc::clone(state)
}

/// `Mutex::lock`, whose future is polled once through `Future::poll` and then
/// dropped: the guard where the lock was free, `None` where another holder has
/// it. Which of the two comes back depends on the other handles, so nothing is
/// claimed of the result. The future is fresh, so the poll cannot meet a
/// completed one; it panics only where a waker's own code panics, now or
/// earlier while the mutex's queue of waiters was held.
#[verifier::external_body]
fn acquire<'a>(mutex: &'a Mutex<State>, cx: &mut Context<'_>) -> Option<MutexGuard<'a, State>> {
    match Pin::new(&mut mutex.lock()).poll(cx) {
        Poll::Ready(guard) => Some(guard),
        Poll::Pending => None,
    }
}

/// `MutexGuard::deref_mut`: exclusive access to the guarded state for as long
/// as the guard is borrowed. Nothing is claimed of the state that is found.
#[verifier::external_body]
fn locked<'a, 'b>(guard: &'a mut MutexGuard<'b, State>) -> &'a mut State {
    &mut **guard
}

/// A handle of a channel. All clones of one handle share one state: what one
/// writes, any of them reads.
#[derive(Debug)]
pub struct Socket {
    /// The state that the clones of this handle share.
    pub state: Arc<Mutex<State>>,
}

impl Socket {
    /// A handle of a new channel: its state is a fresh mutex around an empty
    /// buffer, no waker and the given chunk limit.
    pub fn with_chunk_size(csize: usize) -> (this: Self)
        ensures
            *this.state == fresh_mutex(Channel::new(csize as nat)),
    {
        Socket { state: Arc::new(new_mutex(State::with_chunk_size(csize))) }
    }

    /// Tries to fill `buf` from the head of the channel, as `State::read`
    /// does. Suspends where the lock is held elsewhere or fewer than
    /// `buf.len()` bytes are buffered; `buf` is then left as it was.
    pub fn poll_read(&mut self, cx: &mut Context<'_>, buf: &mut [u8]) -> (r: Progress<usize>)
        ensures
            *final(self) == *old(self),
            final(buf)@.len() == old(buf)@.len(),
            r matches Progress::Ready(n) ==> n == old(buf)@.len(),
            r is Pending ==> final(buf)@ == old(buf)@,
    {
        match acquire(&self.state, cx) {
            Some(mut guard) => locked(&mut guard).read(buf),
            None => Progress::Pending,
        }
    }

    /// Tries to append `data` at the tail of the channel, as `State::write`
    /// does, and reports the number of bytes buffered after the append.
    /// Suspends only where the lock is held elsewhere.
    pub fn poll_write(&mut self, cx: &mut Context<'_>, data: &[u8]) -> (r: Progress<usize>)
        ensures
            *final(self) == *old(self),
            r matches Progress::Ready(total) ==> total >= data@.len(),
    {
        match acquire(&self.state, cx) {
            Some(mut guard) => Progress::Ready(locked(&mut guard).write(data)),
            None => Progress::Pending,
        }
    }

    /// Completes at once. The lock is not taken and the channel not touched.
    pub fn poll_flush(&mut self, _cx: &mut Context<'_>) -> (r: Progress<()>)
        ensures
            *final(self) == *old(self),
            r == Progress::Ready(()),
    {
        Progress::Ready(())
    }

    /// Completes at once. The lock is not taken and the channel not touched:
    /// a channel has no closed state.
    pub fn poll_close(&mut self, _cx: &mut Context<'_>) -> (r: Progress<()>)
        ensures
            *final(self) == *old(self),
            r == Progress::Ready(()),
    {
        Progress::Ready(())
    }

    /// Tries to pull the next chunk, as `State::next_chunk` does with the
    /// waker of `cx`. Suspends where the lock is held elsewhere or nothing is
    /// buffered. The stream never ends: a pull that completes yields a chunk,
    /// and the chunk is not empty.
    pub fn poll_next(&mut self, cx: &mut Context<'_>) -> (r: Progress<Option<Vec<u8>>>)
        ensures
            *final(self) == *old(self),
            r matches Progress::Ready(item) ==> item matches Some(chunk) && chunk@.len() >= 1,
    {
        match acquire(&self.state, cx) {
            Some(mut guard) => {
                let waker: Waker = cx.waker().clone();
                match locked(&mut guard).next_chunk(waker) {
                    Progress::Ready(chunk) => Progress::Ready(Some(chunk)),
                    Progress::Pending => Progress::Pending,
                }
            },
            None => Progress::Pending,
        }
    }
}

impl Default for Socket {
    /// A handle of a new channel: its state is a fresh mutex around an empty
    /// buffer, no waker and the default chunk limit.
    fn default() -> (this: Self)
        ensures
            *this.state == fresh_mutex(Channel::new(DEFAULT_CHUNK_SIZE as nat)),
    {
        Socket { state: Arc::new(new_mutex(State::default())) }
    }
}

impl Clone for Socket {
    /// Another handle of the same channel. No state is copied.
    fn clone(&self) -> (other: Self)
        ensures
            other == *self,
    {
        Socket { state: share(&self.state) }
    }
}

} // verus!
