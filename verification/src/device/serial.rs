//! Character-stream devices: configuration, the capability contract a
//! board-level UART implements, and the buffered serial wrapper that moves
//! bytes between interrupt context and task context.

use vstd::prelude::*;
use crate::async_rw::Waiter;
use crate::data::{OpenFlag, StdData, ToMakeStdData, TypedData};
use crate::device::base::DynCycleQueue;
use crate::device::DeviceOps;
use crate::error::IOError;

verus! {

#[derive(Debug, Copy, Clone, PartialEq, Eq, Structural)]
pub enum SerialError {
    InitError,
    WriteError,
    ReadError,
    UninitError,
    BufferNull,
}

#[derive(Debug, Copy, Clone, PartialEq, Eq, Structural)]
pub enum SerialBaudRate {
    B2400,
    B4800,
    B9600,
    B19200,
    B38400,
    B57600,
    B115200,
    B230400,
    B460800,
    B921600,
    B2000000,
    B3000000,
}

#[derive(Debug, Copy, Clone, PartialEq, Eq, Structural)]
pub enum SerialDataBits {
    B5,
    B6,
    B7,
    B8,
    B9,
}

#[derive(Debug, Copy, Clone, PartialEq, Eq, Structural)]
pub enum SerialStopBits {
    B1,
    B2,
    B3,
    B4,
}

#[derive(Debug, Copy, Clone, PartialEq, Eq, Structural)]
pub enum SerialParity {
    NONE,
    ODD,
    EVEN,
}

#[derive(Debug, Copy, Clone, PartialEq, Eq, Structural)]
pub enum SerialBitOrder {
    MSB,
    LSB,
}

/// One reconfiguration request for an open serial device, delivered through
/// the control operation as a typed exchange payload.
#[derive(Debug, Copy, Clone, PartialEq, Eq, Structural)]
pub enum SerialConfig {
    Baud(SerialBaudRate),
    DataBits(SerialDataBits),
    StopBits(SerialStopBits),
    Parity(SerialParity),
    BitOrder(SerialBitOrder),
    WBufSize(u32),
    RBufSize(u32),
}



impl ToMakeStdData for SerialConfig {
    open spec fn data_matches(&self, d: StdData) -> bool {
        d == StdData::Type(TypedData::Serial(*self))
    }

    fn make_data(&self) -> (r: StdData)
        ensures
            self.data_matches(r),
    {
        StdData::Type(TypedData::Serial(*self))
    }
}

/// The capability contract a board-level character-stream device
/// implements: initialization, one-character transfers, readiness queries,
/// interrupt enables and line configuration. `dev_inited` tracks the
/// device's initialized state; a failing `init` or `uninit` leaves the
/// device exactly as it was.
pub trait DeviceSerial: Sized {
    spec fn dev_inited(&self) -> bool;

    /// Whether a character can be read right now.
    spec fn spec_read_able(&self) -> bool;

    /// Whether the device accepts a character right now.
    spec fn spec_write_able(&self) -> bool;

    fn init(&mut self, f: &OpenFlag) -> (r: Result<(), SerialError>)
        ensures
            r is Ok ==> final(self).dev_inited(),
            r is Err ==> *final(self) == *old(self),
    ;

    fn uninit(&mut self) -> (r: Result<(), SerialError>)
        ensures
            r is Ok ==> !final(self).dev_inited(),
            r is Err ==> *final(self) == *old(self),
    ;

    fn read_char(&mut self) -> (r: Result<u8, SerialError>)
        requires
            old(self).dev_inited(),
        ensures
            final(self).dev_inited() == old(self).dev_inited(),
    ;

    fn read_able(&self) -> (r: bool)
        ensures
            r == self.spec_read_able(),
    ;

    fn write_char(&mut self, val: u8) -> (r: Result<(), SerialError>)
        requires
            old(self).dev_inited(),
        ensures
            final(self).dev_inited() == old(self).dev_inited(),
    ;

    fn write_able(&self) -> (r: bool)
        ensures
            r == self.spec_write_able(),
    ;

    fn write_finish(&self) -> bool;

    fn rx_irq_en(&mut self, f: bool)
        ensures
            final(self).dev_inited() == old(self).dev_inited(),
    ;

    fn tx_irq_en(&mut self, f: bool)
        ensures
            final(self).dev_inited() == old(self).dev_inited(),
    ;

    fn config_baud(&mut self, val: SerialBaudRate)
        ensures
            final(self).dev_inited() == old(self).dev_inited(),
    ;

    fn stop_bots(&mut self, val: SerialStopBits)
        ensures
            final(self).dev_inited() == old(self).dev_inited(),
    ;

    fn data_bits(&mut self, val: SerialDataBits)
        ensures
            final(self).dev_inited() == old(self).dev_inited(),
    ;

    fn parity(&mut self, val: SerialParity)
        ensures
            final(self).dev_inited() == old(self).dev_inited(),
    ;

    fn bit_order(&mut self, val: SerialBitOrder)
        ensures
            final(self).dev_inited() == old(self).dev_inited(),
    ;

    /// The device's opportunity to adjust a requested configuration to
    /// what it supports.
    fn update_flags(&self, f: OpenFlag) -> OpenFlag;
}

/// The waiter queue of the suspend/resume bridge for one direction of one
/// serial device. Registration appends exactly one waiter; a notification
/// removes and returns exactly the oldest one, and a notification with no
/// registered waiter is a no-op. A removed waiter is gone, so one
/// registration is never notified twice.
pub struct BspAsyncSerial {
    pub async_wakers: Vec<Waiter>,
}

impl BspAsyncSerial {
    /// A bridge with no registered waiter.
    pub fn new() -> (r: BspAsyncSerial)
        ensures
            r.async_wakers@ == Seq::<Waiter>::empty(),
    {
        BspAsyncSerial { async_wakers: Vec::new() }
    }

    /// Registers exactly one waiter.
    pub fn register(&mut self, w: Waiter)
        ensures
            final(self).async_wakers@ == old(self).async_wakers@.push(w),
    {
        self.async_wakers.push(w);
    }

    /// Pops and returns the oldest registered waiter so the caller can
    /// notify it exactly once; with no waiter registered, nothing happens.
    pub fn notify(&mut self) -> (r: Option<Waiter>)
        ensures
            old(self).async_wakers@.len() == 0 ==> r is None && *final(self) == *old(self),
            old(self).async_wakers@.len() > 0 ==> r == Some(old(self).async_wakers@[0])
                && final(self).async_wakers@ == old(self).async_wakers@.drop_first(),
    {
        if self.async_wakers.len() == 0 {
            None
        } else {
            Some(self.async_wakers.remove(0))
        }
    }

    /// Drops every registered waiter; used at teardown.
    pub fn destroy(&mut self)
        ensures
            final(self).async_wakers@ == Seq::<Waiter>::empty(),
    {
        self.async_wakers.clear();
    }
}

/// One notification resumes exactly one registration, and never the same
/// one twice: when every registered waiter is distinct — each suspended
/// operation registers exactly once — the waiter a notification removed is
/// no longer in the queue, so no later notification can return it again.
pub proof fn lemma_notify_no_double(q: Seq<Waiter>)
    requires
        q.len() > 0,
        forall|i: int, j: int| 0 <= i < j < q.len() ==> q[i] != q[j],
    ensures
        !q.drop_first().contains(q[0]),
{
    if q.drop_first().contains(q[0]) {
        let k = choose|k: int| 0 <= k < q.drop_first().len() && q.drop_first()[k] == q[0];
        assert(q[k + 1] == q[0]);
    }
}

/// The state a serial device shares between task context and its
/// interrupt handler: the two ring buffers, the read-side waiter queue of
/// the async bridge, and the legacy receive-indication callback. In the
/// running system all of it is touched only inside interrupt-masked
/// critical sections; here exclusive references stand in for them.
pub struct BspSerial {
    pub read_async_helper: BspAsyncSerial,
    pub r_buffer: DynCycleQueue<u8>,
    pub w_buffer: DynCycleQueue<u8>,
    pub rx_indicate: Option<Waiter>,
}

impl BspSerial {
    /// Validity: both ring buffers are valid and can hold at least one
    /// element, so the interrupt handler's forced insertion is always
    /// possible.
    pub open spec fn wf(&self) -> bool {
        &&& self.r_buffer.wf()
        &&& self.r_buffer.cap() >= 2
        &&& self.w_buffer.wf()
        &&& self.w_buffer.cap() >= 2
    }

    /// Fresh shared state with empty buffers of the given capacities.
    pub fn new(r_cap: usize, w_cap: usize) -> (r: BspSerial)
        requires
            r_cap >= 2,
            w_cap >= 2,
        ensures
            r.wf(),
            r.r_buffer@ == Seq::<u8>::empty(),
            r.w_buffer@ == Seq::<u8>::empty(),
            r.read_async_helper.async_wakers@ == Seq::<Waiter>::empty(),
            r.rx_indicate is None,
    {
        BspSerial {
            read_async_helper: BspAsyncSerial::new(),
            r_buffer: DynCycleQueue::new(r_cap),
            w_buffer: DynCycleQueue::new(w_cap),
            rx_indicate: None,
        }
    }
}


/// The default capacity of a serial ring buffer; reconfigurable through
/// the control operation.
pub const SERIAL_BUF_CAP: usize = 64;

/// A buffered character-stream device: a board-level implementation of
/// [`DeviceSerial`] plus the interrupt-shared state, exposed to the
/// framework through the device capability contract.
///
/// The interrupt-side entry points (`irq_receive_char`, `irq_send_char`,
/// `notify_form_irq`, `call_rx_indicate`) are what the device's interrupt
/// handler calls; the runtime must mask that interrupt around any
/// task-context call that touches the same state.
pub struct Serial<T: DeviceSerial> {
    pub dev: T,
    pub flag: Option<OpenFlag>,
    pub helper: BspSerial,
}

impl<T: DeviceSerial> Serial<T> {
    /// Wraps a board-level device with fresh buffers, not yet opened.
    pub fn new(dev: T) -> (r: Serial<T>)
        requires
            !dev.dev_inited(),
        ensures
            r.dev == dev,
            r.flag is None,
            r.helper.wf(),
            r.helper.r_buffer@ == Seq::<u8>::empty(),
            r.helper.w_buffer@ == Seq::<u8>::empty(),
            r.helper.read_async_helper.async_wakers@ == Seq::<Waiter>::empty(),
            r.helper.rx_indicate is None,
    {
        Serial { dev, flag: None, helper: BspSerial::new(SERIAL_BUF_CAP, SERIAL_BUF_CAP) }
    }

    /// Interrupt context: a character arrived on the wire. It is forced
    /// into the read buffer; when the buffer is full the oldest unread
    /// character is evicted and returned.
    pub fn irq_receive_char(&mut self, ch: u8) -> (evicted: Option<u8>)
        requires
            old(self).helper.wf(),
        ensures
            final(self).helper.wf(),
            final(self).dev == old(self).dev,
            final(self).flag == old(self).flag,
            final(self).helper.w_buffer == old(self).helper.w_buffer,
            final(self).helper.read_async_helper == old(self).helper.read_async_helper,
            final(self).helper.rx_indicate == old(self).helper.rx_indicate,
            old(self).helper.r_buffer@.len() == old(self).helper.r_buffer.cap() - 1 ==> evicted
                == Some(old(self).helper.r_buffer@[0]) && final(self).helper.r_buffer@ == old(self).helper.r_buffer@.drop_first().push(ch),
            old(self).helper.r_buffer@.len() < old(self).helper.r_buffer.cap() - 1 ==> evicted
                is None && final(self).helper.r_buffer@ == old(self).helper.r_buffer@.push(ch),
    {
        self.helper.r_buffer.force_push(ch)
    }

    /// Interrupt context: the device is ready for the next character. The
    /// oldest buffered character is handed to it; with nothing buffered the
    /// transmit interrupt is switched off instead.
    pub fn irq_send_char(&mut self)
        requires
            old(self).helper.wf(),
            old(self).dev.dev_inited(),
        ensures
            final(self).helper.wf(),
            final(self).flag == old(self).flag,
            final(self).dev.dev_inited() == old(self).dev.dev_inited(),
            final(self).helper.r_buffer == old(self).helper.r_buffer,
            final(self).helper.read_async_helper == old(self).helper.read_async_helper,
            final(self).helper.rx_indicate == old(self).helper.rx_indicate,
            old(self).helper.w_buffer@.len() == 0 ==> final(self).helper.w_buffer@ == old(self).helper.w_buffer@,
            old(self).helper.w_buffer@.len() > 0 ==> final(self).helper.w_buffer@ == old(self).helper.w_buffer@.drop_first(),
    {
        match self.helper.w_buffer.pop() {
            None => {
                self.dev.tx_irq_en(false);
            },
            Some(a) => {
                let _ = self.dev.write_char(a);
            },
        }
    }

    /// Interrupt context: data arrived, resume one suspended read. Pops
    /// and returns the oldest registered waiter so the handler can invoke
    /// its notification exactly once; with no waiter registered this is a
    /// no-op.
    pub fn notify_form_irq(&mut self) -> (r: Option<Waiter>)
        ensures
            final(self).dev == old(self).dev,
            final(self).flag == old(self).flag,
            final(self).helper.r_buffer == old(self).helper.r_buffer,
            final(self).helper.w_buffer == old(self).helper.w_buffer,
            final(self).helper.rx_indicate == old(self).helper.rx_indicate,
            old(self).helper.read_async_helper.async_wakers@.len() == 0 ==> r is None && final(self).helper.read_async_helper == old(self).helper.read_async_helper,
            old(self).helper.read_async_helper.async_wakers@.len() > 0 ==> r == Some(
                old(self).helper.read_async_helper.async_wakers@[0],
            ) && final(self).helper.read_async_helper.async_wakers@ == old(self).helper.read_async_helper.async_wakers@.drop_first(),
    {
        self.helper.read_async_helper.notify()
    }

    /// Interrupt context: the legacy receive indication to fire, if one is
    /// installed.
    pub fn call_rx_indicate(&self) -> (r: Option<Waiter>)
        ensures
            r == self.helper.rx_indicate,
    {
        self.helper.rx_indicate
    }
}

impl<T: DeviceSerial> DeviceOps for Serial<T> {
    /// Validity: the shared state is valid and the stored configuration
    /// tracks the device's initialized state.
    open spec fn dev_wf(&self) -> bool {
        &&& self.helper.wf()
        &&& (self.flag is Some <==> self.dev.dev_inited())
    }

    open spec fn inited(&self) -> bool {
        self.flag is Some
    }

    open spec fn spec_is_block_dev(&self) -> bool {
        false
    }

    fn is_block_dev(&self) -> (r: bool) {
        false
    }

    fn open(&mut self, flag: &OpenFlag) -> (r: Result<(), IOError>)
        ensures
            r is Ok ==> final(self).flag == Some(*flag) && final(self).helper == old(self).helper,
    {
        match self.dev.init(flag) {
            Err(_) => Err(IOError::DeviceOpsError),
            Ok(_) => {
                if flag.get_read_int() || flag.get_read_async() {
                    self.dev.rx_irq_en(true);
                }
                self.flag = Some(*flag);
                Ok(())
            },
        }
    }

    fn close(&mut self) -> (r: Result<(), IOError>)
        ensures
            r is Ok ==> final(self).flag is None && final(self).helper.r_buffer@ == Seq::<
                u8,
            >::empty() && final(self).helper.w_buffer@ == Seq::<u8>::empty() && final(self).helper.read_async_helper.async_wakers@ == Seq::<Waiter>::empty(),
    {
        match self.dev.uninit() {
            Err(_) => Err(IOError::DeviceOpsError),
            Ok(_) => {
                self.flag = None;
                self.helper.r_buffer.clean();
                self.helper.w_buffer.clean();
                self.helper.read_async_helper.destroy();
                Ok(())
            },
        }
    }

    fn read(&mut self, len: u32) -> (r: Result<StdData, IOError>)
        ensures
            ({
                let f = old(self).flag->Some_0;
                (f.spec_get_read_int() || f.spec_get_read_async()) ==> {
                    &&& final(self).flag == old(self).flag
                    &&& final(self).dev == old(self).dev
                    &&& final(self).helper.w_buffer == old(self).helper.w_buffer
                    &&& final(self).helper.read_async_helper == old(self).helper.read_async_helper
                    &&& final(self).helper.rx_indicate == old(self).helper.rx_indicate
                    &&& (old(self).helper.r_buffer@.len() == 0 ==> r == Ok::<StdData, IOError>(
                        StdData::Null,
                    ) && final(self).helper.r_buffer@ == old(self).helper.r_buffer@)
                    &&& (old(self).helper.r_buffer@.len() > 0 ==> r == Ok::<StdData, IOError>(
                        StdData::U32(old(self).helper.r_buffer@[0] as u32),
                    ) && final(self).helper.r_buffer@ == old(self).helper.r_buffer@.drop_first())
                }
            }),
            ({
                let f = old(self).flag->Some_0;
                !(f.spec_get_read_int() || f.spec_get_read_async()) ==> {
                    &&& final(self).helper == old(self).helper
                    &&& final(self).flag == old(self).flag
                    &&& (!old(self).dev.spec_read_able() ==> r == Err::<StdData, IOError>(
                        IOError::ReadEmpty,
                    ) && final(self).dev == old(self).dev)
                    &&& (old(self).dev.spec_read_able() ==> ((r matches Ok(d) && d is U32) || r
                        == Err::<StdData, IOError>(IOError::ReadError)))
                }
            }),
    {
        let f = self.flag.unwrap();
        if f.get_read_int() || f.get_read_async() {
            match self.helper.r_buffer.pop() {
                None => Ok(StdData::Null),
                Some(a) => Ok(StdData::U32(a as u32)),
            }
        } else {
            if !self.dev.read_able() {
                Err(IOError::ReadEmpty)
            } else {
                match self.dev.read_char() {
                    Ok(a) => Ok(StdData::U32(a as u32)),
                    Err(_) => Err(IOError::ReadError),
                }
            }
        }
    }

    fn write(&mut self, data: StdData) -> (r: Result<(), IOError>)
        ensures
            final(self).flag == old(self).flag,
            final(self).helper.r_buffer == old(self).helper.r_buffer,
            final(self).helper.read_async_helper == old(self).helper.read_async_helper,
            final(self).helper.rx_indicate == old(self).helper.rx_indicate,
            ({
                let f = old(self).flag->Some_0;
                data matches StdData::Bytes(a) ==> (if f.spec_get_write_block() {
                    &&& final(self).helper.w_buffer == old(self).helper.w_buffer
                    &&& (r is Ok || (r matches Err(e) && (e is WriteError || (e matches
                    IOError::WriteFull(d) && d is Bytes))))
                } else {
                    let free = old(self).helper.w_buffer.cap() - 1
                        - old(self).helper.w_buffer@.len();
                    let n = if a@.len() <= free {
                        a@.len() as int
                    } else {
                        free
                    };
                    &&& (a@.len() == 0 ==> r == Ok::<(), IOError>(()) && final(self).helper.w_buffer
                        == old(self).helper.w_buffer)
                    &&& (a@.len() > 0 ==> final(self).helper.w_buffer@ == old(self).helper.w_buffer@
                        + a@.take(n))
                    &&& (0 < a@.len() <= free ==> r == Ok::<(), IOError>(()))
                    &&& (a@.len() > free ==> (r matches Err(e) && e matches IOError::WriteFull(d)
                        && d matches StdData::Bytes(v) && v@ == a@.skip(n)))
                })
            }),
            ({
                let f = old(self).flag->Some_0;
                data matches StdData::U32(b) ==> {
                    &&& final(self).helper.w_buffer == old(self).helper.w_buffer
                    &&& (!old(self).dev.spec_write_able() ==> r == Err::<(), IOError>(
                        IOError::WriteBusy,
                    ) && final(self).dev == old(self).dev)
                    &&& (old(self).dev.spec_write_able() ==> (r is Ok || r == Err::<(), IOError>(
                        IOError::DeviceOpsError,
                    )))
                }
            }),
            ({
                let f = old(self).flag->Some_0;
                data matches StdData::U8(b) ==> {
                    &&& final(self).helper.w_buffer == old(self).helper.w_buffer
                    &&& (!old(self).dev.spec_write_able() ==> r == Err::<(), IOError>(
                        IOError::WriteBusy,
                    ) && final(self).dev == old(self).dev)
                    &&& (old(self).dev.spec_write_able() ==> (r is Ok || r == Err::<(), IOError>(
                        IOError::DeviceOpsError,
                    )))
                }
            }),
            (data is OpenFlag || data is Type || data is Null) ==> r == Err::<(), IOError>(
                IOError::WriteError,
            ) && *final(self) == *old(self),
    {
        proof {
            old(self).helper.w_buffer.lemma_len_bound();
        }
        let f = self.flag.unwrap();
        match data {
            StdData::Bytes(a) => {
                if f.get_write_block() {
                    self.write_bytes_direct(a)
                } else {
                    self.write_bytes_buffered(a)
                }
            },
            StdData::U32(b) => self.write_scalar(#[verifier::truncate] (b as u8)),
            StdData::U8(b) => self.write_scalar(b),
            _ => Err(IOError::WriteError),
        }
    }

    fn control(&mut self, data: StdData) -> (r: Result<StdData, IOError>)
        ensures
            final(self).flag == old(self).flag,
            final(self).helper.read_async_helper == old(self).helper.read_async_helper,
            final(self).helper.rx_indicate == old(self).helper.rx_indicate,
            !(data matches StdData::Type(TypedData::Serial(_))) ==> r == Err::<StdData, IOError>(
                IOError::ControlError,
            ) && *final(self) == *old(self),
            data matches StdData::Type(TypedData::Serial(cfg)) ==> {
                &&& (cfg matches SerialConfig::WBufSize(n) ==> (if n < 2 {
                    r == Err::<StdData, IOError>(IOError::ControlError) && *final(self) == *old(
                        self,
                    )
                } else {
                    r == Ok::<StdData, IOError>(StdData::Null) && final(self).helper.w_buffer@
                        == Seq::<u8>::empty() && final(self).helper.w_buffer.cap() == n && final(self).helper.r_buffer == old(self).helper.r_buffer && final(self).dev
                        == old(self).dev
                }))
                &&& (cfg matches SerialConfig::RBufSize(n) ==> (if n < 2 {
                    r == Err::<StdData, IOError>(IOError::ControlError) && *final(self) == *old(
                        self,
                    )
                } else {
                    r == Ok::<StdData, IOError>(StdData::Null) && final(self).helper.r_buffer@
                        == Seq::<u8>::empty() && final(self).helper.r_buffer.cap() == n && final(self).helper.w_buffer == old(self).helper.w_buffer && final(self).dev
                        == old(self).dev
                }))
                &&& (!(cfg is WBufSize || cfg is RBufSize) ==> r == Ok::<StdData, IOError>(
                    StdData::Null,
                ) && final(self).helper == old(self).helper)
            },
    {
        match data {
            StdData::Type(TypedData::Serial(cfg)) => {
                match cfg {
                    SerialConfig::Baud(b) => {
                        self.dev.config_baud(b);
                        Ok(StdData::Null)
                    },
                    SerialConfig::WBufSize(n) => {
                        if n < 2 {
                            Err(IOError::ControlError)
                        } else {
                            self.helper.w_buffer.resize(n as usize);
                            Ok(StdData::Null)
                        }
                    },
                    SerialConfig::RBufSize(n) => {
                        if n < 2 {
                            Err(IOError::ControlError)
                        } else {
                            self.helper.r_buffer.resize(n as usize);
                            Ok(StdData::Null)
                        }
                    },
                    _ => Ok(StdData::Null),
                }
            },
            _ => Err(IOError::ControlError),
        }
    }

    /// One drain step: done exactly when the write buffer is empty.
    fn sync(&mut self) -> (done: bool)
        ensures
            *final(self) == *old(self),
            done == (old(self).helper.w_buffer@.len() == 0),
    {
        self.helper.w_buffer.empty()
    }

    fn register_read_callback(&mut self, w: Waiter) -> (r: Result<(), IOError>)
        ensures
            r is Ok,
            final(self).dev == old(self).dev,
            final(self).flag == old(self).flag,
            final(self).helper.r_buffer == old(self).helper.r_buffer,
            final(self).helper.w_buffer == old(self).helper.w_buffer,
            final(self).helper.rx_indicate == old(self).helper.rx_indicate,
            final(self).helper.read_async_helper.async_wakers@ == old(self).helper.read_async_helper.async_wakers@.push(w),
    {
        self.helper.read_async_helper.register(w);
        Ok(())
    }

    fn register_rx_indicate(&mut self, w: Waiter)
        ensures
            old(self).flag->Some_0.spec_get_read_c_type() ==> final(self).helper.rx_indicate
                == Some(w) && final(self).dev == old(self).dev && final(self).flag == old(self).flag
                && final(self).helper.r_buffer == old(self).helper.r_buffer && final(self).helper.w_buffer == old(self).helper.w_buffer && final(self).helper.read_async_helper
                == old(self).helper.read_async_helper,
            !old(self).flag->Some_0.spec_get_read_c_type() ==> *final(self) == *old(self),
    {
        let f = self.flag.unwrap();
        if f.get_read_c_type() {
            self.helper.rx_indicate = Some(w);
        }
    }
}

impl<T: DeviceSerial> Serial<T> {
    /// Device-paced write of a byte sequence: leading bytes are written
    /// while the device is ready, and the unsent tail is handed back for
    /// backpressure-driven retry rather than dropped.
    fn write_bytes_direct(&mut self, a: Vec<u8>) -> (r: Result<(), IOError>)
        requires
            old(self).dev.dev_inited(),
        ensures
            final(self).flag == old(self).flag,
            final(self).helper == old(self).helper,
            final(self).dev.dev_inited() == old(self).dev.dev_inited(),
            r is Ok || (r matches Err(e) && (e is WriteError || (e matches IOError::WriteFull(
                d,
            ) && d is Bytes))),
    {
        let mut i: usize = 0;
        let n = a.len();
        while i < n
            invariant
                i <= n,
                n == a@.len(),
                self.dev.dev_inited(),
                old(self).dev.dev_inited(),
                self.flag == old(self).flag,
                self.helper == old(self).helper,
            decreases n - i,
        {
            if !self.dev.write_able() {
                let mut rest: Vec<u8> = Vec::new();
                let mut j: usize = i;
                while j < n
                    invariant
                        i <= j <= n,
                        n == a@.len(),
                        rest@ == a@.subrange(i as int, j as int),
                    decreases n - j,
                {
                    rest.push(a[j]);
                    j = j + 1;
                }
                return Err(IOError::WriteFull(StdData::Bytes(rest)));
            }
            match self.dev.write_char(a[i]) {
                Ok(_) => {},
                Err(_) => {
                    return Err(IOError::WriteError);
                },
            }
            i = i + 1;
        }
        Ok(())
    }

    /// Buffered write of a byte sequence: as many leading bytes as the
    /// write buffer can hold are queued for the transmit interrupt, and
    /// the unsent tail is handed back for backpressure-driven retry.
    fn write_bytes_buffered(&mut self, a: Vec<u8>) -> (r: Result<(), IOError>)
        requires
            old(self).dev.dev_inited(),
            old(self).helper.wf(),
        ensures
            final(self).flag == old(self).flag,
            final(self).helper.wf(),
            final(self).helper.r_buffer == old(self).helper.r_buffer,
            final(self).helper.read_async_helper == old(self).helper.read_async_helper,
            final(self).helper.rx_indicate == old(self).helper.rx_indicate,
            final(self).dev.dev_inited() == old(self).dev.dev_inited(),
            ({
                let free = old(self).helper.w_buffer.cap() - 1 - old(self).helper.w_buffer@.len();
                let n = if a@.len() <= free {
                    a@.len() as int
                } else {
                    free
                };
                &&& (a@.len() == 0 ==> r == Ok::<(), IOError>(()) && final(self).helper.w_buffer
                    == old(self).helper.w_buffer)
                &&& (a@.len() > 0 ==> final(self).helper.w_buffer@ == old(self).helper.w_buffer@
                    + a@.take(n))
                &&& (0 < a@.len() <= free ==> r == Ok::<(), IOError>(()))
                &&& (a@.len() > free ==> (r matches Err(e) && e matches IOError::WriteFull(d)
                    && d matches StdData::Bytes(v) && v@ == a@.skip(n)))
            }),
    {
        proof {
            old(self).helper.w_buffer.lemma_len_bound();
        }
        if a.len() == 0 {
            return Ok(());
        }
        let free = self.helper.w_buffer.free_len();
        let take_n = if a.len() <= free {
            a.len()
        } else {
            free
        };
        let mut i: usize = 0;
        while i < take_n
            invariant
                i <= take_n,
                take_n <= a@.len(),
                take_n <= old(self).helper.w_buffer.cap() - 1 - old(self).helper.w_buffer@.len(),
                self.flag == old(self).flag,
                self.dev == old(self).dev,
                self.helper.r_buffer == old(self).helper.r_buffer,
                self.helper.read_async_helper == old(self).helper.read_async_helper,
                self.helper.rx_indicate == old(self).helper.rx_indicate,
                self.helper.w_buffer.wf(),
                self.helper.w_buffer.cap() == old(self).helper.w_buffer.cap(),
                self.helper.w_buffer@ == old(self).helper.w_buffer@ + a@.take(i as int),
            decreases take_n - i,
        {
            let _ = self.helper.w_buffer.push(a[i]);
            i = i + 1;
            proof {
                assert(self.helper.w_buffer@ =~= old(self).helper.w_buffer@ + a@.take(i as int));
            }
        }
        self.dev.tx_irq_en(true);
        if take_n == a.len() {
            Ok(())
        } else {
            let mut rest: Vec<u8> = Vec::new();
            let mut j: usize = take_n;
            let n = a.len();
            while j < n
                invariant
                    take_n <= j <= n,
                    n == a@.len(),
                    rest@ == a@.subrange(take_n as int, j as int),
                decreases n - j,
            {
                rest.push(a[j]);
                j = j + 1;
            }
            proof {
                assert(rest@ =~= a@.skip(take_n as int));
            }
            Err(IOError::WriteFull(StdData::Bytes(rest)))
        }
    }

    /// Single attempt to hand one character to the device: transiently
    /// busy when the device is not ready, so the caller can retry.
    fn write_scalar(&mut self, b: u8) -> (r: Result<(), IOError>)
        requires
            old(self).dev.dev_inited(),
        ensures
            final(self).flag == old(self).flag,
            final(self).helper == old(self).helper,
            final(self).dev.dev_inited() == old(self).dev.dev_inited(),
            !old(self).dev.spec_write_able() ==> r == Err::<(), IOError>(IOError::WriteBusy)
                && final(self).dev == old(self).dev,
            old(self).dev.spec_write_able() ==> (r is Ok || r == Err::<(), IOError>(
                IOError::DeviceOpsError,
            )),
    {
        if !self.dev.write_able() {
            Err(IOError::WriteBusy)
        } else {
            match self.dev.write_char(b) {
                Ok(_) => Ok(()),
                Err(_) => Err(IOError::DeviceOpsError),
            }
        }
    }
}

} // verus!
