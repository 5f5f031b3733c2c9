//! The scoped open handle and the release path of the lifecycle arbiter.
//!
//! A guard is created by a successful open and records how the open was
//! resolved. Releasing it is the single place where the arbiter state is
//! rolled back and the device's close is invoked; an attempt to release an
//! idle device is reported as an error instead of being treated as fatal.

use vstd::prelude::*;
use crate::api::OpenType;
use crate::async_rw::{AsyncReadFuture, AsyncWriteFuture, Waiter};
use crate::data::{StdData, ToMakeStdData};
use crate::device::DeviceOps;
use crate::driver::{Driver, DriverAsyncHelper, DriverOps};
use crate::error::IOError;

verus! {

/// The handle a successful open returns; all reads, writes and controls of
/// the session are routed through it, and handing it back releases the
/// session.
#[derive(Debug, Copy, Clone, PartialEq, Eq, Structural)]
pub struct DriverGuard {
    pub o_type: OpenType,
}

impl DriverGuard {
    /// The open was exclusive.
    pub fn is_only(&self) -> (r: bool)
        ensures
            r == (self.o_type is Only),
    {
        match self.o_type {
            OpenType::Only => true,
            _ => false,
        }
    }

    /// The open was the first shared one, which initialized the device.
    pub fn is_master(&self) -> (r: bool)
        ensures
            r == (self.o_type is Master),
    {
        match self.o_type {
            OpenType::Master => true,
            _ => false,
        }
    }

    /// The open was an additional shared one on an already-initialized
    /// device.
    pub fn is_user(&self) -> (r: bool)
        ensures
            r == (self.o_type is User),
    {
        match self.o_type {
            OpenType::User => true,
            _ => false,
        }
    }
}

impl<T: DeviceOps> Driver<T> {
    /// Releases a guard: an exclusive hold or the last shared opener closes
    /// the device and returns the record to idle; an earlier shared opener
    /// only decrements the count and the device is not touched. Releasing
    /// an idle device is an arbiter invariant violation and is reported as
    /// an error with nothing changed; a failing device close likewise
    /// leaves the record as it was, so the release can be retried.
    pub fn release(&mut self, g: DriverGuard) -> (r: Result<(), IOError>)
        requires
            old(self).wf(),
        ensures
            final(self).wf(),
            !old(self).open_able ==> ((r == Ok::<(), IOError>(()) && final(self).idle() && !final(self).ops.inited()) || (r is Err && *final(self) == *old(self))),
            old(self).open_able && old(self).open_num > 1 ==> r == Ok::<(), IOError>(()) && final(self).open_able && final(self).open_num == old(self).open_num - 1 && final(self).ops == old(self).ops,
            old(self).open_able && old(self).open_num == 1 ==> ((r == Ok::<(), IOError>(())
                && final(self).idle() && !final(self).ops.inited()) || (r is Err && *final(self)
                == *old(self))),
            old(self).idle() ==> r == Err::<(), IOError>(IOError::CloseError) && *final(self)
                == *old(self),
    {
        if self.open_able == false {
            match self.ops.close() {
                Ok(_) => {
                    self.open_able = true;
                    Ok(())
                },
                Err(e) => Err(e),
            }
        } else if self.open_num > 1 {
            self.open_num = self.open_num - 1;
            Ok(())
        } else if self.open_num == 1 {
            match self.ops.close() {
                Ok(_) => {
                    self.open_num = 0;
                    Ok(())
                },
                Err(e) => Err(e),
            }
        } else {
            Err(IOError::CloseError)
        }
    }
}

impl<T: DeviceOps> DriverOps for Driver<T> {
    type Dev = T;

    open spec fn driver_wf(&self) -> bool {
        self.wf()
    }

    open spec fn driver_open_able(&self) -> bool {
        self.open_able
    }

    open spec fn driver_open_num(&self) -> u32 {
        self.open_num
    }

    open spec fn dev(&self) -> T {
        self.ops
    }

    fn control(&mut self, g: &DriverGuard, data: StdData) -> (r: Result<StdData, IOError>) {
        self.ops.control(data)
    }

    fn read(&mut self, g: &DriverGuard, address: usize, len: u32) -> (r: Result<StdData, IOError>)
    {
        if self.ops.is_block_dev() {
            self.ops.b_read(address, len as usize)
        } else {
            self.ops.read(len)
        }
    }

    fn write(&mut self, g: &DriverGuard, address: usize, data: StdData) -> (r: Result<
        (),
        IOError,
    >) {
        if self.ops.is_block_dev() {
            self.ops.b_write(address, data)
        } else {
            self.ops.write(data)
        }
    }

    fn sync(&mut self, g: &DriverGuard) -> (done: bool) {
        self.ops.sync()
    }

    fn async_read(&self, g: &DriverGuard, address: usize, len: u32) -> (r: Result<
        AsyncReadFuture,
        IOError,
    >) {
        if !self.open_able {
            Err(IOError::ReadError)
        } else {
            Ok(AsyncReadFuture { address, len })
        }
    }

    fn async_write<M: ToMakeStdData>(&self, g: &DriverGuard, address: usize, data: M) -> (r:
        Result<AsyncWriteFuture<M>, IOError>) {
        if !self.open_able {
            Err(IOError::ReadError)
        } else {
            Ok(AsyncWriteFuture { address, data })
        }
    }

    fn register_rx_indicate(&mut self, g: &DriverGuard, w: Waiter) {
        self.ops.register_rx_indicate(w)
    }
}

impl<T: DeviceOps> DriverAsyncHelper for Driver<T> {
    fn register_read_callback(&mut self, w: Waiter) -> (r: Result<(), IOError>) {
        self.ops.register_read_callback(w)
    }

    fn register_write_callback(&mut self, w: Waiter) -> (r: Result<(), IOError>) {
        self.ops.register_write_callback(w)
    }
}

} // verus!
