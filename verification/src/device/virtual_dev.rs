//! In-memory devices implementing the capability contracts without any
//! hardware: a virtual LED and a virtual serial port. They let the
//! framework run and be exercised end to end on a plain machine.

use vstd::prelude::*;
use crate::data::OpenFlag;
use crate::device::led::{DeviceLed, LedError};
use crate::device::serial_simple::DeviceSerialSimple;
use crate::device::spi_flash::{DeviceFlash, SpiFlashError};
use crate::device::serial::{
    DeviceSerial, SerialBaudRate, SerialBitOrder, SerialDataBits, SerialError, SerialParity,
    SerialStopBits,
};

verus! {

/// What a virtual LED remembers: not initialized, lit, or dark.
#[derive(Debug, Copy, Clone, PartialEq, Eq, Structural)]
pub enum VirtualLedState {
    Uninit,
    On,
    Off,
}

/// The raw state behind a virtual LED.
#[derive(Debug, Copy, Clone, PartialEq, Eq, Structural)]
pub struct RawBspLed {
    pub state: VirtualLedState,
}

/// A binary output that exists only in memory.
#[derive(Debug, Copy, Clone, PartialEq, Eq, Structural)]
pub struct VirtualBspLed(pub RawBspLed);

impl VirtualBspLed {
    /// A fresh, uninitialized virtual LED.
    pub fn new() -> (r: VirtualBspLed)
        ensures
            !r.dev_inited(),
            r.0.state is Uninit,
    {
        VirtualBspLed(RawBspLed { state: VirtualLedState::Uninit })
    }
}

impl DeviceLed for VirtualBspLed {
    open spec fn dev_inited(&self) -> bool {
        !(self.0.state is Uninit)
    }

    open spec fn spec_on(&self) -> bool {
        self.0.state is On
    }

    fn init(&mut self) -> (r: Result<(), LedError>)
        ensures
            r is Ok,
            final(self).0.state is Off,
    {
        self.0.state = VirtualLedState::Off;
        Ok(())
    }

    fn on(&mut self) -> (r: Result<(), LedError>)
        ensures
            r is Ok,
    {
        self.0.state = VirtualLedState::On;
        Ok(())
    }

    fn off(&mut self) -> (r: Result<(), LedError>)
        ensures
            r is Ok,
    {
        self.0.state = VirtualLedState::Off;
        Ok(())
    }

    fn is_on(&self) -> (r: bool) {
        match self.0.state {
            VirtualLedState::On => true,
            _ => false,
        }
    }

    fn uninit(&mut self) -> (r: Result<(), LedError>)
        ensures
            r is Ok,
    {
        self.0.state = VirtualLedState::Uninit;
        Ok(())
    }
}

/// A character-stream device that exists only in memory: reads consume a
/// queue of pending input bytes, writes append to an output log, and
/// readiness is plain data the embedding test or application controls.
pub struct VirtualSerial {
    pub on: bool,
    pub ready: bool,
    pub input: Vec<u8>,
    pub output: Vec<u8>,
    pub rx_irq: bool,
    pub tx_irq: bool,
    pub baud: Option<SerialBaudRate>,
    pub init_count: u64,
    pub uninit_count: u64,
}

impl VirtualSerial {
    /// A fresh, uninitialized virtual serial port that accepts output.
    pub fn new() -> (r: VirtualSerial)
        ensures
            !r.dev_inited(),
            r.ready,
            r.input@ == Seq::<u8>::empty(),
            r.output@ == Seq::<u8>::empty(),
            r.init_count == 0,
            r.uninit_count == 0,
    {
        VirtualSerial {
            on: false,
            ready: true,
            input: Vec::new(),
            output: Vec::new(),
            rx_irq: false,
            tx_irq: false,
            baud: None,
            init_count: 0,
            uninit_count: 0,
        }
    }

    /// Queues one byte of pending input, as if it arrived on the wire.
    pub fn feed(&mut self, ch: u8)
        ensures
            final(self).input@ == old(self).input@.push(ch),
            final(self).on == old(self).on,
            final(self).ready == old(self).ready,
            final(self).output == old(self).output,
            final(self).rx_irq == old(self).rx_irq,
            final(self).tx_irq == old(self).tx_irq,
            final(self).baud == old(self).baud,
    {
        self.input.push(ch);
    }
}

impl DeviceSerial for VirtualSerial {
    open spec fn dev_inited(&self) -> bool {
        self.on
    }

    open spec fn spec_read_able(&self) -> bool {
        self.input@.len() > 0
    }

    open spec fn spec_write_able(&self) -> bool {
        self.ready
    }

    fn init(&mut self, f: &OpenFlag) -> (r: Result<(), SerialError>)
        ensures
            r is Ok,
            final(self).on,
            final(self).input == old(self).input,
            final(self).output == old(self).output,
            final(self).ready == old(self).ready,
            old(self).init_count < u64::MAX ==> final(self).init_count == old(self).init_count
                + 1,
    {
        self.on = true;
        if self.init_count < u64::MAX {
            self.init_count = self.init_count + 1;
        }
        Ok(())
    }

    fn uninit(&mut self) -> (r: Result<(), SerialError>)
        ensures
            r is Ok,
            !final(self).on,
            old(self).uninit_count < u64::MAX ==> final(self).uninit_count == old(
                self,
            ).uninit_count + 1,
    {
        self.on = false;
        if self.uninit_count < u64::MAX {
            self.uninit_count = self.uninit_count + 1;
        }
        Ok(())
    }

    fn read_char(&mut self) -> (r: Result<u8, SerialError>)
        ensures
            old(self).input@.len() == 0 ==> r == Err::<u8, SerialError>(SerialError::ReadError)
                && *final(self) == *old(self),
            old(self).input@.len() > 0 ==> r == Ok::<u8, SerialError>(old(self).input@[0])
                && final(self).input@ == old(self).input@.drop_first() && final(self).output
                == old(self).output && final(self).on == old(self).on && final(self).ready == old(self).ready,
    {
        if self.input.len() == 0 {
            Err(SerialError::ReadError)
        } else {
            Ok(self.input.remove(0))
        }
    }

    fn read_able(&self) -> (r: bool) {
        self.input.len() > 0
    }

    fn write_char(&mut self, val: u8) -> (r: Result<(), SerialError>)
        ensures
            !old(self).ready ==> r == Err::<(), SerialError>(SerialError::WriteError) && *final(self) == *old(self),
            old(self).ready ==> r == Ok::<(), SerialError>(()) && final(self).output@ == old(self).output@.push(val) && final(self).input == old(self).input && final(self).on == old(self).on && final(self).ready == old(self).ready,
    {
        if !self.ready {
            Err(SerialError::WriteError)
        } else {
            self.output.push(val);
            Ok(())
        }
    }

    fn write_able(&self) -> (r: bool) {
        self.ready
    }

    fn write_finish(&self) -> bool {
        true
    }

    fn rx_irq_en(&mut self, f: bool)
        ensures
            final(self).rx_irq == f,
            final(self).input == old(self).input,
            final(self).output == old(self).output,
            final(self).on == old(self).on,
            final(self).ready == old(self).ready,
    {
        self.rx_irq = f;
    }

    fn tx_irq_en(&mut self, f: bool)
        ensures
            final(self).tx_irq == f,
            final(self).input == old(self).input,
            final(self).output == old(self).output,
            final(self).on == old(self).on,
            final(self).ready == old(self).ready,
    {
        self.tx_irq = f;
    }

    fn config_baud(&mut self, val: SerialBaudRate)
        ensures
            final(self).baud == Some(val),
            final(self).input == old(self).input,
            final(self).output == old(self).output,
            final(self).on == old(self).on,
            final(self).ready == old(self).ready,
    {
        self.baud = Some(val);
    }

    fn stop_bots(&mut self, val: SerialStopBits)
        ensures
            *final(self) == *old(self),
    {
    }

    fn data_bits(&mut self, val: SerialDataBits)
        ensures
            *final(self) == *old(self),
    {
    }

    fn parity(&mut self, val: SerialParity)
        ensures
            *final(self) == *old(self),
    {
    }

    fn bit_order(&mut self, val: SerialBitOrder)
        ensures
            *final(self) == *old(self),
    {
    }

    fn update_flags(&self, f: OpenFlag) -> OpenFlag {
        f
    }
}



/// A self-driving serial device that exists only in memory: it records how
/// often it was initialized, torn down and nudged to drain output.
#[derive(Debug, Copy, Clone, PartialEq, Eq, Structural)]
pub struct VirtualSerialSimple {
    pub on: bool,
    pub nudges: u64,
}

impl VirtualSerialSimple {
    /// A fresh, uninitialized device.
    pub fn new() -> (r: VirtualSerialSimple)
        ensures
            !r.dev_inited(),
            r.nudges == 0,
    {
        VirtualSerialSimple { on: false, nudges: 0 }
    }
}

impl DeviceSerialSimple for VirtualSerialSimple {
    open spec fn dev_inited(&self) -> bool {
        self.on
    }

    fn init(&mut self) {
        self.on = true;
    }

    fn uninit(&mut self) {
        self.on = false;
    }

    fn info_write(&mut self)
        ensures
            old(self).nudges < u64::MAX ==> final(self).nudges == old(self).nudges + 1,
    {
        if self.nudges < u64::MAX {
            self.nudges = self.nudges + 1;
        }
    }
}

/// A flash medium that exists only in memory: a byte array with a
/// declared erase-unit size. Programming overwrites bytes directly, as an
/// engine whose program path handles erasure implicitly would.
pub struct VirtualFlash {
    pub on: bool,
    pub content: Vec<u8>,
    pub erase: u32,
}

impl VirtualFlash {
    /// A fresh, uninitialized medium of `capacity` zero bytes.
    pub fn new(capacity: u32, erase_size: u32) -> (r: VirtualFlash)
        requires
            erase_size >= 1,
        ensures
            !r.dev_inited(),
            r.spec_erase_size() == erase_size,
            r.content@.len() == capacity,
            forall|k: int| 0 <= k < capacity ==> r.content@[k] == 0u8,
    {
        let mut content: Vec<u8> = Vec::new();
        let n = capacity as usize;
        let mut i: usize = 0;
        while i < n
            invariant
                i <= n,
                content@.len() == i,
                forall|k: int| 0 <= k < i ==> content@[k] == 0u8,
            decreases n - i,
        {
            content.push(0);
            i = i + 1;
        }
        VirtualFlash { on: false, content, erase: erase_size }
    }
}

impl DeviceFlash for VirtualFlash {
    open spec fn dev_inited(&self) -> bool {
        self.on
    }

    open spec fn spec_capacity(&self) -> u32 {
        self.content@.len() as u32
    }

    open spec fn spec_erase_size(&self) -> u32 {
        self.erase
    }

    open spec fn spec_content(&self) -> Seq<u8> {
        self.content@
    }

    fn init(&mut self) -> (r: Result<(), SpiFlashError>)
        ensures
            r is Ok,
    {
        self.on = true;
        Ok(())
    }

    fn uninit(&mut self) -> (r: Result<(), SpiFlashError>)
        ensures
            r is Ok,
    {
        self.on = false;
        Ok(())
    }

    fn capacity(&self) -> (r: u32) {
        #[verifier::truncate] (self.content.len() as u32)
    }

    fn erase_size(&self) -> (r: u32) {
        self.erase
    }

    fn read(&mut self, address: u32, len: u32) -> (r: Result<Vec<u8>, SpiFlashError>) {
        let a = address as usize;
        let l = len as usize;
        if a > self.content.len() || l > self.content.len() - a {
            return Err(SpiFlashError::SomeError);
        }
        let mut out: Vec<u8> = Vec::new();
        let mut k: usize = 0;
        while k < l
            invariant
                k <= l,
                a + l <= self.content@.len(),
                a + l <= usize::MAX,
                out@ == self.content@.subrange(a as int, a + k),
                *self == *old(self),
            decreases l - k,
        {
            out.push(self.content[a + k]);
            k = k + 1;
            proof {
                assert(out@ =~= self.content@.subrange(a as int, a + k));
            }
        }
        Ok(out)
    }

    fn program(&mut self, address: u32, data: &[u8]) -> (r: Result<(), SpiFlashError>) {
        let a = address as usize;
        let l = data.len();
        if a > self.content.len() || l > self.content.len() - a {
            return Err(SpiFlashError::SomeError);
        }
        let mut k: usize = 0;
        while k < l
            invariant
                k <= l,
                a + l <= self.content@.len(),
                a + l <= usize::MAX,
                l == data@.len(),
                self.on == old(self).on,
                self.erase == old(self).erase,
                self.content@.len() == old(self).content@.len(),
                self.content@ == old(self).content@.subrange(0, a as int) + data@.take(k as int)
                    + old(self).content@.skip(a + k),
            decreases l - k,
        {
            self.content[a + k] = data[k];
            k = k + 1;
            proof {
                assert(self.content@ =~= old(self).content@.subrange(0, a as int) + data@.take(
                    k as int,
                ) + old(self).content@.skip(a + k));
            }
        }
        proof {
            assert(data@.take(l as int) =~= data@);
        }
        Ok(())
    }
}

} // verus!
