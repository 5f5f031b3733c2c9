//! A minimal serial abstraction for driver authors who want the framework
//! to do no more than buffer bytes: the device is told when output is
//! pending and does everything else itself.

use vstd::prelude::*;
use crate::async_rw::Waiter;
use crate::data::{OpenFlag, StdData};
use crate::device::base::DynCycleQueue;
use crate::device::serial::SERIAL_BUF_CAP;
use crate::device::DeviceOps;
use crate::error::IOError;

verus! {

/// The capability contract of a self-driving serial device: initialization,
/// teardown, and a nudge that output is waiting in the shared buffer.
pub trait DeviceSerialSimple: Sized {
    spec fn dev_inited(&self) -> bool;

    fn init(&mut self)
        ensures
            final(self).dev_inited(),
    ;

    fn uninit(&mut self)
        ensures
            !final(self).dev_inited(),
    ;

    /// Tells the device that the shared buffer holds output to drain.
    fn info_write(&mut self)
        ensures
            final(self).dev_inited() == old(self).dev_inited(),
    ;
}

/// What remains of a byte queue of capacity `cap` after forcing the bytes
/// of `a` into it one by one, evicting the oldest byte whenever the queue
/// is full: the last `cap - 1` bytes of the concatenation.
pub open spec fn forced_tail(q: Seq<u8>, a: Seq<u8>, cap: int) -> Seq<u8> {
    let all = q + a;
    if all.len() <= cap - 1 {
        all
    } else {
        all.skip(all.len() - (cap - 1))
    }
}

/// A buffered wrapper over a self-driving serial device. Writes force
/// their bytes into the shared buffer — newest data wins when the buffer
/// overflows — and nudge the device; reads pop the same buffer.
pub struct SerialSimple<T: DeviceSerialSimple> {
    pub dev: T,
    pub buffer: DynCycleQueue<u8>,
}

impl<T: DeviceSerialSimple> SerialSimple<T> {
    /// Wraps a device with a fresh buffer, not yet opened.
    pub fn new(dev: T) -> (r: SerialSimple<T>)
        requires
            !dev.dev_inited(),
        ensures
            r.dev == dev,
            r.buffer@ == Seq::<u8>::empty(),
            r.dev_wf(),
            !r.inited(),
    {
        SerialSimple { dev, buffer: DynCycleQueue::new(SERIAL_BUF_CAP) }
    }

    /// Forces every byte of `a` into the buffer, oldest evicted first.
    fn force_bytes(&mut self, a: &Vec<u8>)
        requires
            old(self).buffer.wf(),
            old(self).buffer.cap() >= 2,
        ensures
            final(self).buffer.wf(),
            final(self).buffer.cap() == old(self).buffer.cap(),
            final(self).dev == old(self).dev,
            final(self).buffer@ == forced_tail(old(self).buffer@, a@, old(self).buffer.cap()),
    {
        let n = a.len();
        let mut i: usize = 0;
        proof {
            old(self).buffer.lemma_len_bound();
            assert(old(self).buffer@ + a@.take(0) =~= old(self).buffer@);
        }
        while i < n
            invariant
                i <= n,
                n == a@.len(),
                self.dev == old(self).dev,
                self.buffer.wf(),
                self.buffer.cap() == old(self).buffer.cap(),
                self.buffer.cap() >= 2,
                self.buffer@ == forced_tail(
                    old(self).buffer@,
                    a@.take(i as int),
                    old(self).buffer.cap(),
                ),
            decreases n - i,
        {
            proof {
                self.buffer.lemma_len_bound();
            }
            let ghost prev = self.buffer@;
            let _ = self.buffer.force_push(a[i]);
            i = i + 1;
            proof {
                let cap = old(self).buffer.cap();
                let all_prev = old(self).buffer@ + a@.take(i - 1);
                let all = old(self).buffer@ + a@.take(i as int);
                assert(a@.take(i as int) =~= a@.take(i - 1).push(a@[i - 1]));
                assert(all =~= all_prev.push(a@[i - 1]));
                if prev.len() < cap - 1 {
                    assert(self.buffer@ =~= prev.push(a@[i - 1]));
                    if all_prev.len() <= cap - 1 {
                        assert(self.buffer@ =~= forced_tail(old(self).buffer@, a@.take(i as int), cap));
                    } else {
                        assert(self.buffer@ =~= forced_tail(old(self).buffer@, a@.take(i as int), cap));
                    }
                } else {
                    assert(self.buffer@ =~= prev.drop_first().push(a@[i - 1]));
                    assert(self.buffer@ =~= forced_tail(old(self).buffer@, a@.take(i as int), cap));
                }
            }
        }
        proof {
            assert(a@.take(n as int) =~= a@);
        }
    }
}

impl<T: DeviceSerialSimple> DeviceOps for SerialSimple<T> {
    open spec fn dev_wf(&self) -> bool {
        self.buffer.wf() && self.buffer.cap() >= 2
    }

    open spec fn inited(&self) -> bool {
        self.dev.dev_inited()
    }

    open spec fn spec_is_block_dev(&self) -> bool {
        false
    }

    fn is_block_dev(&self) -> (r: bool) {
        false
    }

    fn open(&mut self, flag: &OpenFlag) -> (r: Result<(), IOError>)
        ensures
            r is Ok,
            final(self).buffer == old(self).buffer,
    {
        self.dev.init();
        Ok(())
    }

    fn close(&mut self) -> (r: Result<(), IOError>)
        ensures
            r is Ok,
            final(self).buffer == old(self).buffer,
    {
        self.dev.uninit();
        Ok(())
    }

    /// Pops the oldest buffered byte; empty is reported as a read-empty
    /// condition, which a blocking caller turns into wait-and-retry.
    fn read(&mut self, len: u32) -> (r: Result<StdData, IOError>)
        ensures
            final(self).dev == old(self).dev,
            old(self).buffer@.len() == 0 ==> r == Err::<StdData, IOError>(IOError::ReadEmpty)
                && final(self).buffer@ == old(self).buffer@,
            old(self).buffer@.len() > 0 ==> r == Ok::<StdData, IOError>(
                StdData::U32(old(self).buffer@[0] as u32),
            ) && final(self).buffer@ == old(self).buffer@.drop_first(),
    {
        match self.buffer.pop() {
            None => Err(IOError::ReadEmpty),
            Some(ch) => Ok(StdData::U32(ch as u32)),
        }
    }

    /// Forces the payload's bytes into the buffer — newest data wins when
    /// the buffer overflows — and nudges the device to drain it. A payload
    /// with no bytes to contribute is accepted and ignored.
    fn write(&mut self, data: StdData) -> (r: Result<(), IOError>)
        ensures
            r is Ok,
            data matches StdData::Bytes(a) ==> final(self).buffer@ == forced_tail(
                old(self).buffer@,
                a@,
                old(self).buffer.cap(),
            ),
            data matches StdData::U32(b) ==> final(self).buffer@ == forced_tail(
                old(self).buffer@,
                seq![b as u8],
                old(self).buffer.cap(),
            ),
            data matches StdData::U8(b) ==> final(self).buffer@ == forced_tail(
                old(self).buffer@,
                seq![b],
                old(self).buffer.cap(),
            ),
            (data is OpenFlag || data is Type || data is Null) ==> final(self).buffer == old(
                self,
            ).buffer,
    {
        match data {
            StdData::Bytes(a) => {
                self.force_bytes(&a);
                self.dev.info_write();
                Ok(())
            },
            StdData::U32(b) => {
                let mut one: Vec<u8> = Vec::new();
                one.push(#[verifier::truncate] (b as u8));
                proof {
                    assert(one@ =~= seq![b as u8]);
                }
                self.force_bytes(&one);
                self.dev.info_write();
                Ok(())
            },
            StdData::U8(b) => {
                let mut one: Vec<u8> = Vec::new();
                one.push(b);
                proof {
                    assert(one@ =~= seq![b]);
                }
                self.force_bytes(&one);
                self.dev.info_write();
                Ok(())
            },
            _ => Ok(()),
        }
    }

    /// A self-driving serial device understands no control payload.
    fn control(&mut self, data: StdData) -> (r: Result<StdData, IOError>)
        ensures
            r == Err::<StdData, IOError>(IOError::ControlError),
            *final(self) == *old(self),
    {
        Err(IOError::ControlError)
    }
}

} // verus!
