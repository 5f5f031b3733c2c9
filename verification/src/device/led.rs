//! Simple binary-output devices: the capability contract a board-level LED
//! implements, and the wrapper exposing it through the device capability
//! contract. An LED reads back as a scalar (1 lit, 0 dark) and is written
//! with the same encoding.

use vstd::prelude::*;
use crate::async_rw::Waiter;
use crate::data::{OpenFlag, StdData, ToMakeStdData};
use crate::device::DeviceOps;
use crate::error::IOError;

verus! {

#[derive(Debug, Copy, Clone, PartialEq, Eq, Structural)]
pub enum LedError {
    InitError,
    OnOFFError,
    UninitError,
}

/// The two states of a binary output, exchanged as a 32-bit scalar: 1 for
/// lit, 0 for dark.
#[derive(Debug, Copy, Clone, PartialEq, Eq, Structural)]
pub enum LedState {
    On,
    Off,
}

impl ToMakeStdData for LedState {
    open spec fn data_matches(&self, d: StdData) -> bool {
        d == StdData::U32(
            match *self {
                LedState::On => 1u32,
                LedState::Off => 0u32,
            },
        )
    }

    fn make_data(&self) -> (r: StdData)
        ensures
            self.data_matches(r),
    {
        match *self {
            LedState::On => StdData::U32(1),
            LedState::Off => StdData::U32(0),
        }
    }
}

/// Recovering an LED state from an exchange value; only the exact scalars
/// 1 and 0 stand for a state.
pub trait ToLedState {
    /// Whether the value encodes an LED state at all.
    spec fn led_state_ok(&self) -> bool;

    fn to_led_state(&self) -> (r: LedState)
        requires
            self.led_state_ok(),
    ;
}

impl ToLedState for StdData {
    open spec fn led_state_ok(&self) -> bool {
        self matches StdData::U32(a) && (a == 0 || a == 1)
    }

    fn to_led_state(&self) -> (r: LedState)
        ensures
            *self == StdData::U32(1u32) ==> r is On,
            *self == StdData::U32(0u32) ==> r is Off,
    {
        match *self {
            StdData::U32(a) => {
                if a == 1 {
                    LedState::On
                } else {
                    LedState::Off
                }
            },
            _ => LedState::Off,
        }
    }
}

/// The capability contract a board-level binary output implements.
/// `dev_inited` tracks the initialized state; `spec_on` whether the output
/// is currently driven.
pub trait DeviceLed: Sized {
    spec fn dev_inited(&self) -> bool;

    spec fn spec_on(&self) -> bool;

    fn init(&mut self) -> (r: Result<(), LedError>)
        ensures
            r is Ok ==> final(self).dev_inited(),
            r is Err ==> *final(self) == *old(self),
    ;

    fn on(&mut self) -> (r: Result<(), LedError>)
        requires
            old(self).dev_inited(),
        ensures
            final(self).dev_inited() == old(self).dev_inited(),
            r is Ok ==> final(self).spec_on(),
            r is Err ==> *final(self) == *old(self),
    ;

    fn off(&mut self) -> (r: Result<(), LedError>)
        requires
            old(self).dev_inited(),
        ensures
            final(self).dev_inited() == old(self).dev_inited(),
            r is Ok ==> !final(self).spec_on(),
            r is Err ==> *final(self) == *old(self),
    ;

    fn is_on(&self) -> (r: bool)
        ensures
            r == self.spec_on(),
    ;

    fn uninit(&mut self) -> (r: Result<(), LedError>)
        ensures
            r is Ok ==> !final(self).dev_inited(),
            r is Err ==> *final(self) == *old(self),
    ;
}

/// A binary output exposed through the device capability contract.
pub struct Led<T: DeviceLed> {
    pub dev: T,
}

impl<T: DeviceLed> Led<T> {
    pub fn new(dev: T) -> (r: Led<T>)
        ensures
            r.dev == dev,
    {
        Led { dev }
    }
}

impl<T: DeviceLed> DeviceOps for Led<T> {
    open spec fn dev_wf(&self) -> bool {
        true
    }

    open spec fn inited(&self) -> bool {
        self.dev.dev_inited()
    }

    open spec fn spec_is_block_dev(&self) -> bool {
        false
    }

    fn is_block_dev(&self) -> (r: bool) {
        false
    }

    fn open(&mut self, flag: &OpenFlag) -> (r: Result<(), IOError>)
        ensures
            r is Err ==> r == Err::<(), IOError>(IOError::OpenError),
    {
        match self.dev.init() {
            Ok(_) => Ok(()),
            Err(_) => Err(IOError::OpenError),
        }
    }

    fn close(&mut self) -> (r: Result<(), IOError>)
        ensures
            r is Err ==> r == Err::<(), IOError>(IOError::CloseError),
    {
        match self.dev.uninit() {
            Ok(_) => Ok(()),
            Err(_) => Err(IOError::CloseError),
        }
    }

    /// The state reads back as a scalar: 1 when lit, 0 when dark.
    fn read(&mut self, len: u32) -> (r: Result<StdData, IOError>)
        ensures
            *final(self) == *old(self),
            r == Ok::<StdData, IOError>(
                StdData::U32(
                    if old(self).dev.spec_on() {
                        1u32
                    } else {
                        0u32
                    },
                ),
            ),
    {
        if self.dev.is_on() {
            Ok(StdData::U32(1))
        } else {
            Ok(StdData::U32(0))
        }
    }

    /// A zero scalar switches the output off, any other scalar switches it
    /// on; a payload that is not a scalar is a marshalling mismatch.
    fn write(&mut self, data: StdData) -> (r: Result<(), IOError>)
        ensures
            data matches StdData::U32(a) ==> {
                &&& (a == 0 && r is Ok ==> !final(self).dev.spec_on())
                &&& (a != 0 && r is Ok ==> final(self).dev.spec_on())
                &&& (r is Err ==> r == Err::<(), IOError>(IOError::WriteError) && *final(self)
                    == *old(self))
            },
            !(data is U32) ==> r == Err::<(), IOError>(IOError::DataError) && *final(self) == *old(
                self,
            ),
    {
        match data {
            StdData::U32(a) => {
                if a == 0 {
                    match self.dev.off() {
                        Ok(_) => Ok(()),
                        Err(_) => Err(IOError::WriteError),
                    }
                } else {
                    match self.dev.on() {
                        Ok(_) => Ok(()),
                        Err(_) => Err(IOError::WriteError),
                    }
                }
            },
            _ => Err(IOError::DataError),
        }
    }

    /// A binary output understands no control payload.
    fn control(&mut self, data: StdData) -> (r: Result<StdData, IOError>)
        ensures
            r == Err::<StdData, IOError>(IOError::ControlError),
            *final(self) == *old(self),
    {
        Err(IOError::ControlError)
    }

    /// A binary output supports no asynchronous reads.
    fn register_read_callback(&mut self, w: Waiter) -> (r: Result<(), IOError>)
        ensures
            r == Err::<(), IOError>(IOError::DeviceOpsError),
            *final(self) == *old(self),
    {
        Err(IOError::DeviceOpsError)
    }

    /// A binary output supports no asynchronous writes.
    fn register_write_callback(&mut self, w: Waiter) -> (r: Result<(), IOError>)
        ensures
            r == Err::<(), IOError>(IOError::DeviceOpsError),
            *final(self) == *old(self),
    {
        Err(IOError::DeviceOpsError)
    }
}

} // verus!
