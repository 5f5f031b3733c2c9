//! Device-type abstractions: the capability contract every device
//! implements, the building-block ring buffer, and the concrete device
//! wrappers (serial streams, LEDs, flash).

use vstd::prelude::*;
use crate::async_rw::Waiter;
use crate::data::{OpenFlag, StdData};
use crate::error::IOError;

pub mod base;
pub mod led;
pub mod serial;
pub mod serial_simple;
pub mod spi_flash;
pub mod virtual_dev;

verus! {


/// The operation set a device exposes to the framework.
///
/// `inited` tracks whether the device is currently initialized: `open`
/// establishes it, `close` clears it, and every other operation leaves it
/// alone, which is what lets the lifecycle arbiter invoke `open` exactly
/// once per session. `dev_wf` is the device's own validity and is preserved
/// by every operation. A failing `open` or `close` leaves the device
/// exactly as it was, so the arbiter can roll its bookkeeping back.
///
/// Stream devices implement `read`/`write`; block devices report
/// `is_block_dev` and implement `b_read`/`b_write`. The framework routes by
/// category, and the defaults reject the operations of the other category
/// with an error rather than a fault.
pub trait DeviceOps: Sized {
    /// The device's own validity; every operation preserves it.
    spec fn dev_wf(&self) -> bool;

    /// Whether a session is active on the device.
    spec fn inited(&self) -> bool;

    /// Whether the device is block-addressed rather than stream-addressed.
    spec fn spec_is_block_dev(&self) -> bool;

    fn is_block_dev(&self) -> (r: bool)
        ensures
            r == self.spec_is_block_dev(),
    ;

    fn open(&mut self, flag: &OpenFlag) -> (r: Result<(), IOError>)
        requires
            old(self).dev_wf(),
        ensures
            final(self).dev_wf(),
            r is Ok ==> final(self).inited(),
            r is Err ==> *final(self) == *old(self),
            final(self).spec_is_block_dev() == old(self).spec_is_block_dev(),
    ;

    fn close(&mut self) -> (r: Result<(), IOError>)
        requires
            old(self).dev_wf(),
        ensures
            final(self).dev_wf(),
            r is Ok ==> !final(self).inited(),
            r is Err ==> *final(self) == *old(self),
            final(self).spec_is_block_dev() == old(self).spec_is_block_dev(),
    ;

    fn read(&mut self, len: u32) -> (r: Result<StdData, IOError>)
        requires
            old(self).dev_wf(),
            old(self).inited(),
        ensures
            final(self).dev_wf(),
            final(self).inited() == old(self).inited(),
            final(self).spec_is_block_dev() == old(self).spec_is_block_dev(),
    {
        Err(IOError::ReadError)
    }

    fn write(&mut self, data: StdData) -> (r: Result<(), IOError>)
        requires
            old(self).dev_wf(),
            old(self).inited(),
        ensures
            final(self).dev_wf(),
            final(self).inited() == old(self).inited(),
            final(self).spec_is_block_dev() == old(self).spec_is_block_dev(),
    {
        Err(IOError::ReadError)
    }

    fn control(&mut self, data: StdData) -> (r: Result<StdData, IOError>)
        requires
            old(self).dev_wf(),
            old(self).inited(),
        ensures
            final(self).dev_wf(),
            final(self).inited() == old(self).inited(),
            final(self).spec_is_block_dev() == old(self).spec_is_block_dev(),
    ;

    fn b_read(&mut self, address: usize, len: usize) -> (r: Result<StdData, IOError>)
        requires
            old(self).dev_wf(),
            old(self).inited(),
        ensures
            final(self).dev_wf(),
            final(self).inited() == old(self).inited(),
            final(self).spec_is_block_dev() == old(self).spec_is_block_dev(),
    {
        Err(IOError::DeviceOpsError)
    }

    fn b_write(&mut self, address: usize, data: StdData) -> (r: Result<(), IOError>)
        requires
            old(self).dev_wf(),
            old(self).inited(),
        ensures
            final(self).dev_wf(),
            final(self).inited() == old(self).inited(),
            final(self).spec_is_block_dev() == old(self).spec_is_block_dev(),
    {
        Err(IOError::DeviceOpsError)
    }

    /// One step of draining pending output; true when nothing is pending.
    /// A caller that must block repeats the step from task context.
    fn sync(&mut self) -> (done: bool)
        requires
            old(self).dev_wf(),
            old(self).inited(),
        ensures
            final(self).dev_wf(),
            final(self).inited() == old(self).inited(),
            final(self).spec_is_block_dev() == old(self).spec_is_block_dev(),
    {
        true
    }

    /// Registers one waiter to be resumed when data arrives. The waiter is
    /// notified at most once; registering again is the only way to be
    /// notified again.
    fn register_read_callback(&mut self, w: Waiter) -> (r: Result<(), IOError>)
        requires
            old(self).dev_wf(),
            old(self).inited(),
        ensures
            final(self).dev_wf(),
            final(self).inited() == old(self).inited(),
            final(self).spec_is_block_dev() == old(self).spec_is_block_dev(),
    {
        Ok(())
    }

    /// Registers one waiter to be resumed when the device becomes ready to
    /// accept output.
    fn register_write_callback(&mut self, w: Waiter) -> (r: Result<(), IOError>)
        requires
            old(self).dev_wf(),
            old(self).inited(),
        ensures
            final(self).dev_wf(),
            final(self).inited() == old(self).inited(),
            final(self).spec_is_block_dev() == old(self).spec_is_block_dev(),
    {
        Ok(())
    }

    /// Installs the single receive-indication callback used by
    /// callback-style consumers.
    fn register_rx_indicate(&mut self, w: Waiter)
        requires
            old(self).dev_wf(),
            old(self).inited(),
        ensures
            final(self).dev_wf(),
            final(self).inited() == old(self).inited(),
            final(self).spec_is_block_dev() == old(self).spec_is_block_dev(),
    {
    }
}


/// Registers a device in a registry under a name: fails with a
/// duplicate-name condition when the name is taken, otherwise wraps the
/// device in a fresh idle record.
pub fn register_device<T: DeviceOps>(reg: &mut crate::Registry<T>, raw_dev: T, name: &str) -> (r:
    Result<(), IOError>)
    requires
        old(reg).wf(),
        !raw_dev.inited(),
        raw_dev.dev_wf(),
    ensures
        final(reg).wf(),
        old(reg).spec_contains(name@) ==> r == Err::<(), IOError>(IOError::RegisterError)
            && *final(reg) == *old(reg),
        !old(reg).spec_contains(name@) ==> r == Ok::<(), IOError>(()) && final(reg).spec_len()
            == old(reg).spec_len() + 1 && final(reg).name_at(old(reg).spec_len()) == name@ && final(reg).dev_at(old(reg).spec_len()) == (crate::driver::Driver {
            open_able: true,
            open_num: 0,
            ops: raw_dev,
        }) && forall|i: int|
            0 <= i < old(reg).spec_len() ==> final(reg).name_at(i) == old(reg).name_at(i) && final(reg).dev_at(i) == old(reg).dev_at(i),
{
    reg.register(raw_dev, name)
}

/// Stores a fast device under a name: fails with a duplicate-name
/// condition when the name is taken.
pub fn register_fast_device<T>(reg: &mut crate::fast_dev::FastRegistry<T>, dev: T, name: &str) -> (
    r: Result<(), IOError>)
    requires
        old(reg).wf(),
    ensures
        final(reg).wf(),
        old(reg).spec_contains(name@) ==> r == Err::<(), IOError>(IOError::RegisterError)
            && *final(reg) == *old(reg),
        !old(reg).spec_contains(name@) ==> r == Ok::<(), IOError>(()) && final(reg).spec_len()
            == old(reg).spec_len() + 1 && final(reg).name_at(old(reg).spec_len()) == name@ && final(reg).dev_at(old(reg).spec_len()) == dev,
{
    reg.register(dev, name)
}

} // verus!
