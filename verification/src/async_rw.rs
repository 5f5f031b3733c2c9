//! The asynchronous suspend/resume bridge: a task-context operation polls,
//! and when the data it wants can only be produced by an interrupt handler
//! it registers one waiter and reports itself suspended. The interrupt
//! handler later pops at most one registered waiter and notifies it exactly
//! once; resumption re-enters the poll step.

use vstd::prelude::*;
use crate::data::{StdData, ToMakeStdData};
use crate::driver::DriverAsyncHelper;
use crate::error::IOError;
use crate::guard::DriverGuard;

verus! {

/// A token standing for one suspended operation's wakeup handle. The
/// embedding runtime maps each token to the real waker; the framework only
/// stores and hands tokens back, so "register once, notify once" is decided
/// entirely here.
#[derive(Debug, Copy, Clone, PartialEq, Eq, Structural)]
pub struct Waiter(pub u64);

/// A pending asynchronous read: the request, replayed by each poll.
#[derive(Debug, Copy, Clone, PartialEq, Eq, Structural)]
pub struct AsyncReadFuture {
    pub address: usize,
    pub len: u32,
}

/// A pending asynchronous write: the request keeps the payload maker, so a
/// suspended attempt rebuilds the payload and retries.
#[derive(Debug)]
pub struct AsyncWriteFuture<M: ToMakeStdData> {
    pub address: usize,
    pub data: M,
}

/// The outcome of polling an asynchronous operation.
#[derive(Debug)]
pub enum AsyncPoll<O> {
    Ready(O),
    Pending,
}

/// What one poll step of an asynchronous read does with the result of the
/// underlying synchronous attempt: data completes the operation, no data
/// suspends it, and an error completes it with a read failure.
pub fn read_poll_decision(r: Result<StdData, IOError>) -> (d: AsyncPoll<
    Result<StdData, IOError>,
>)
    ensures
        r matches Ok(a) ==> (if a is Null {
            d == AsyncPoll::<Result<StdData, IOError>>::Pending
        } else {
            d == AsyncPoll::Ready(Ok::<StdData, IOError>(a))
        }),
        r is Err ==> d == AsyncPoll::Ready(Err::<StdData, IOError>(IOError::ReadError)),
{
    match r {
        Ok(a) => {
            if a.is_null() {
                AsyncPoll::Pending
            } else {
                AsyncPoll::Ready(Ok(a))
            }
        },
        Err(_) => AsyncPoll::Ready(Err(IOError::ReadError)),
    }
}

/// What one poll step of an asynchronous write does with the result of the
/// underlying synchronous attempt: success and non-transient errors
/// complete the operation, and only a transiently busy target suspends it.
pub fn write_poll_decision(r: &Result<(), IOError>) -> (suspend: bool)
    ensures
        suspend == (r matches Err(e) && e is WriteBusy),
{
    match r {
        Ok(_) => false,
        Err(IOError::WriteBusy) => true,
        Err(_) => false,
    }
}

impl AsyncReadFuture {
    /// One poll step: attempt the read now; on no data, register `w` as the
    /// one waiter of this attempt and report the operation suspended. A
    /// retried attempt is not guaranteed to succeed, so polling is safe to
    /// repeat.
    pub fn poll<D: DriverAsyncHelper>(&self, dev: &mut D, g: &DriverGuard, w: Waiter) -> (r:
        AsyncPoll<Result<StdData, IOError>>)
        requires
            old(dev).driver_wf(),
            !old(dev).driver_open_able() || old(dev).driver_open_num() > 0,
        ensures
            final(dev).driver_wf(),
            final(dev).driver_open_able() == old(dev).driver_open_able(),
            final(dev).driver_open_num() == old(dev).driver_open_num(),
    {
        let attempt = dev.read(g, self.address, self.len);
        let d = read_poll_decision(attempt);
        let suspended = matches!(d, AsyncPoll::Pending);
        if suspended {
            let _ = dev.register_read_callback(w);
        }
        d
    }
}

impl<M: ToMakeStdData> AsyncWriteFuture<M> {
    /// One poll step: rebuild the payload and attempt the write now; when
    /// the target is transiently busy, register `w` as the one waiter of
    /// this attempt and report the operation suspended.
    pub fn poll<D: DriverAsyncHelper>(&self, dev: &mut D, g: &DriverGuard, w: Waiter) -> (r:
        AsyncPoll<Result<(), IOError>>)
        requires
            old(dev).driver_wf(),
            !old(dev).driver_open_able() || old(dev).driver_open_num() > 0,
        ensures
            final(dev).driver_wf(),
            final(dev).driver_open_able() == old(dev).driver_open_able(),
            final(dev).driver_open_num() == old(dev).driver_open_num(),
    {
        let attempt = dev.write(g, self.address, self.data.make_data());
        let suspend = write_poll_decision(&attempt);
        if suspend {
            let _ = dev.register_write_callback(w);
            AsyncPoll::Pending
        } else {
            AsyncPoll::Ready(attempt)
        }
    }
}

} // verus!
