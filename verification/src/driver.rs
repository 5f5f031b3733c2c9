//! The device record: the lifecycle-arbiter state layered over a device,
//! and the operation set that guard holders route through it.

use vstd::prelude::*;
use crate::async_rw::{AsyncReadFuture, AsyncWriteFuture, Waiter};
use crate::data::{StdData, ToMakeStdData};
use crate::device::DeviceOps;
use crate::error::IOError;
use crate::guard::DriverGuard;

verus! {

/// One registered device: the capability implementation plus the arbiter
/// state. `open_able` is false exactly while the device is exclusively
/// held; `open_num` counts the shared openers. A device is idle,
/// exclusively held, or shared-held — never two of these at once.
pub struct Driver<T: DeviceOps> {
    pub open_able: bool,
    pub open_num: u32,
    pub ops: T,
}

impl<T: DeviceOps> Driver<T> {
    /// No session is active: the device is neither exclusively nor
    /// shared-held.
    pub open spec fn idle(&self) -> bool {
        self.open_able && self.open_num == 0
    }

    /// A session is active: the device is exclusively held or has at least
    /// one shared opener.
    pub open spec fn session_active(&self) -> bool {
        !self.open_able || self.open_num > 0
    }

    /// The arbiter invariant: exclusive hold and shared hold never overlap,
    /// the device is initialized exactly while a session is active, and the
    /// device's own validity holds.
    pub open spec fn wf(&self) -> bool {
        &&& !(self.open_able == false && self.open_num > 0)
        &&& self.session_active() <==> self.ops.inited()
        &&& self.ops.dev_wf()
    }

    /// Wraps a device in a fresh record, idle and ready to be opened.
    pub fn new(ops: T) -> (r: Driver<T>)
        requires
            !ops.inited(),
            ops.dev_wf(),
        ensures
            r.wf(),
            r.idle(),
            r.ops == ops,
    {
        Driver { open_able: true, open_num: 0, ops }
    }
}

/// The operations a guard holder routes to a device record. Every one of
/// them leaves the arbiter state alone: only opening and releasing move it.
///
/// The spec hooks expose the arbiter state and the wrapped device so the
/// contracts can be stated once for every implementor.
pub trait DriverOps {
    type Dev: DeviceOps;

    spec fn driver_wf(&self) -> bool;

    spec fn driver_open_able(&self) -> bool;

    spec fn driver_open_num(&self) -> u32;

    spec fn dev(&self) -> Self::Dev;

    /// Reconfigures the device with a typed payload and returns its answer.
    fn control(&mut self, g: &DriverGuard, data: StdData) -> (r: Result<StdData, IOError>)
        requires
            old(self).driver_wf(),
            !old(self).driver_open_able() || old(self).driver_open_num() > 0,
        ensures
            final(self).driver_wf(),
            final(self).driver_open_able() == old(self).driver_open_able(),
            final(self).driver_open_num() == old(self).driver_open_num(),
            final(self).dev().inited() == old(self).dev().inited(),
    ;

    /// Reads from the device, routed by its category: block devices get the
    /// address, stream devices the length alone.
    fn read(&mut self, g: &DriverGuard, address: usize, len: u32) -> (r: Result<StdData, IOError>)
        requires
            old(self).driver_wf(),
            !old(self).driver_open_able() || old(self).driver_open_num() > 0,
        ensures
            final(self).driver_wf(),
            final(self).driver_open_able() == old(self).driver_open_able(),
            final(self).driver_open_num() == old(self).driver_open_num(),
            final(self).dev().inited() == old(self).dev().inited(),
    ;

    /// Writes to the device, routed by its category.
    fn write(&mut self, g: &DriverGuard, address: usize, data: StdData) -> (r: Result<
        (),
        IOError,
    >)
        requires
            old(self).driver_wf(),
            !old(self).driver_open_able() || old(self).driver_open_num() > 0,
        ensures
            final(self).driver_wf(),
            final(self).driver_open_able() == old(self).driver_open_able(),
            final(self).driver_open_num() == old(self).driver_open_num(),
            final(self).dev().inited() == old(self).dev().inited(),
    ;

    /// One step of draining pending output; true when nothing is pending.
    fn sync(&mut self, g: &DriverGuard) -> (done: bool)
        requires
            old(self).driver_wf(),
            !old(self).driver_open_able() || old(self).driver_open_num() > 0,
        ensures
            final(self).driver_wf(),
            final(self).driver_open_able() == old(self).driver_open_able(),
            final(self).driver_open_num() == old(self).driver_open_num(),
            final(self).dev().inited() == old(self).dev().inited(),
    ;

    /// Starts an asynchronous read; the returned future carries the request
    /// and is polled from task context.
    fn async_read(&self, g: &DriverGuard, address: usize, len: u32) -> (r: Result<
        AsyncReadFuture,
        IOError,
    >)
        requires
            self.driver_wf(),
        ensures
            !self.driver_open_able() ==> r == Err::<AsyncReadFuture, IOError>(IOError::ReadError),
            self.driver_open_able() ==> r == Ok::<AsyncReadFuture, IOError>(
                (AsyncReadFuture { address, len }),
            ),
    ;

    /// Starts an asynchronous write; the returned future keeps the payload
    /// maker and is polled from task context.
    fn async_write<M: ToMakeStdData>(&self, g: &DriverGuard, address: usize, data: M) -> (r:
        Result<AsyncWriteFuture<M>, IOError>)
        requires
            self.driver_wf(),
        ensures
            !self.driver_open_able() ==> r is Err,
            self.driver_open_able() ==> (r matches Ok(f) && f.address == address && f.data
                == data),
    ;

    /// Installs the single receive-indication callback used by
    /// callback-style consumers.
    fn register_rx_indicate(&mut self, g: &DriverGuard, w: Waiter)
        requires
            old(self).driver_wf(),
            !old(self).driver_open_able() || old(self).driver_open_num() > 0,
        ensures
            final(self).driver_wf(),
            final(self).driver_open_able() == old(self).driver_open_able(),
            final(self).driver_open_num() == old(self).driver_open_num(),
            final(self).dev().inited() == old(self).dev().inited(),
    ;
}

/// The registration half of the suspend/resume bridge, called by the poll
/// step of a pending asynchronous operation after its synchronous attempt
/// found nothing to do.
pub trait DriverAsyncHelper: DriverOps {
    /// Registers one waiter to be resumed when data arrives.
    fn register_read_callback(&mut self, w: Waiter) -> (r: Result<(), IOError>)
        requires
            old(self).driver_wf(),
            !old(self).driver_open_able() || old(self).driver_open_num() > 0,
        ensures
            final(self).driver_wf(),
            final(self).driver_open_able() == old(self).driver_open_able(),
            final(self).driver_open_num() == old(self).driver_open_num(),
            final(self).dev().inited() == old(self).dev().inited(),
    ;

    /// Registers one waiter to be resumed when the device becomes ready to
    /// accept output.
    fn register_write_callback(&mut self, w: Waiter) -> (r: Result<(), IOError>)
        requires
            old(self).driver_wf(),
            !old(self).driver_open_able() || old(self).driver_open_num() > 0,
        ensures
            final(self).driver_wf(),
            final(self).driver_open_able() == old(self).driver_open_able(),
            final(self).driver_open_num() == old(self).driver_open_num(),
            final(self).dev().inited() == old(self).dev().inited(),
    ;
}

} // verus!
