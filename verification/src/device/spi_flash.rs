//! Block-style flash devices: the control payloads of the geometry query,
//! and the wrapper that exposes a flash engine through the device
//! capability contract.

use vstd::prelude::*;
use crate::data::{OpenFlag, StdData, ToMakeStdData, TypedData};
use crate::device::DeviceOps;
use crate::error::IOError;

verus! {

#[derive(Debug, Copy, Clone, PartialEq, Eq, Structural)]
pub enum SpiFlashError {
    SomeError,
}

/// Control payload: ask a block device for its geometry.
#[derive(Debug, Copy, Clone, PartialEq, Eq, Structural)]
pub struct GetFlashInfo;

/// Control payload: erase the block holding the given address. Erasure is
/// handled implicitly by the flash engine's program path, so the command is
/// accepted and nothing further happens.
#[derive(Debug, Copy, Clone, PartialEq, Eq, Structural)]
pub struct EraseFlash(pub u32);

/// Control payload: flush pending writes to the medium.
#[derive(Debug, Copy, Clone, PartialEq, Eq, Structural)]
pub struct SyncFlash;

/// The geometry of a block device, as answered to [`GetFlashInfo`].
#[derive(Debug, Copy, Clone, PartialEq, Eq, Structural)]
pub struct FlashInfo {
    pub sector_count: u32,
    pub bytes_per_sector: u32,
    pub block_size: u32,
}



impl ToMakeStdData for GetFlashInfo {
    open spec fn data_matches(&self, d: StdData) -> bool {
        d == StdData::Type(TypedData::FlashGet(*self))
    }

    fn make_data(&self) -> (r: StdData)
        ensures
            self.data_matches(r),
    {
        StdData::Type(TypedData::FlashGet(*self))
    }
}

impl ToMakeStdData for EraseFlash {
    open spec fn data_matches(&self, d: StdData) -> bool {
        d == StdData::Type(TypedData::FlashErase(*self))
    }

    fn make_data(&self) -> (r: StdData)
        ensures
            self.data_matches(r),
    {
        StdData::Type(TypedData::FlashErase(*self))
    }
}

impl ToMakeStdData for SyncFlash {
    open spec fn data_matches(&self, d: StdData) -> bool {
        d == StdData::Type(TypedData::FlashSync(*self))
    }

    fn make_data(&self) -> (r: StdData)
        ensures
            self.data_matches(r),
    {
        StdData::Type(TypedData::FlashSync(*self))
    }
}

impl ToMakeStdData for FlashInfo {
    open spec fn data_matches(&self, d: StdData) -> bool {
        d == StdData::Type(TypedData::FlashInfo(*self))
    }

    fn make_data(&self) -> (r: StdData)
        ensures
            self.data_matches(r),
    {
        StdData::Type(TypedData::FlashInfo(*self))
    }
}

/// The capability contract of a flash engine: the command, SFDP and
/// erase-planning machinery behind it is a collaborator; the framework
/// sees an initialized byte store with a fixed geometry. `spec_content`
/// is the engine's view of the medium; reads return slices of it and
/// programming overwrites a range of it.
pub trait DeviceFlash: Sized {
    spec fn dev_inited(&self) -> bool;

    spec fn spec_capacity(&self) -> u32;

    spec fn spec_erase_size(&self) -> u32;

    spec fn spec_content(&self) -> Seq<u8>;

    fn init(&mut self) -> (r: Result<(), SpiFlashError>)
        ensures
            r is Ok ==> final(self).dev_inited(),
            r is Err ==> *final(self) == *old(self),
            final(self).spec_capacity() == old(self).spec_capacity(),
            final(self).spec_erase_size() == old(self).spec_erase_size(),
            final(self).spec_content() == old(self).spec_content(),
    ;

    fn uninit(&mut self) -> (r: Result<(), SpiFlashError>)
        ensures
            r is Ok ==> !final(self).dev_inited(),
            r is Err ==> *final(self) == *old(self),
            final(self).spec_capacity() == old(self).spec_capacity(),
            final(self).spec_erase_size() == old(self).spec_erase_size(),
            final(self).spec_content() == old(self).spec_content(),
    ;

    fn capacity(&self) -> (r: u32)
        ensures
            r == self.spec_capacity(),
    ;

    fn erase_size(&self) -> (r: u32)
        ensures
            r == self.spec_erase_size(),
    ;

    fn read(&mut self, address: u32, len: u32) -> (r: Result<Vec<u8>, SpiFlashError>)
        requires
            old(self).dev_inited(),
            address + len <= old(self).spec_capacity(),
        ensures
            final(self).dev_inited() == old(self).dev_inited(),
            final(self).spec_capacity() == old(self).spec_capacity(),
            final(self).spec_erase_size() == old(self).spec_erase_size(),
            final(self).spec_content() == old(self).spec_content(),
            r matches Ok(v) ==> v@ == old(self).spec_content().subrange(
                address as int,
                address + len,
            ),
    ;

    fn program(&mut self, address: u32, data: &[u8]) -> (r: Result<(), SpiFlashError>)
        requires
            old(self).dev_inited(),
            address + data@.len() <= old(self).spec_capacity(),
        ensures
            final(self).dev_inited() == old(self).dev_inited(),
            final(self).spec_capacity() == old(self).spec_capacity(),
            final(self).spec_erase_size() == old(self).spec_erase_size(),
            r is Ok ==> final(self).spec_content() == old(self).spec_content().subrange(
                0,
                address as int,
            ) + data@ + old(self).spec_content().skip(address + data@.len()),
            r is Err ==> final(self).spec_content() == old(self).spec_content(),
    ;
}

/// The fixed geometry answered to [`GetFlashInfo`]: one sector per erase
/// unit, and a block of sixteen erase units.
pub fn flash_geometry(capacity: u32, erase_size: u32) -> (r: FlashInfo)
    requires
        erase_size >= 1,
        erase_size <= u32::MAX / 16,
    ensures
        r.sector_count == capacity as int / erase_size as int,
        r.bytes_per_sector == erase_size,
        r.block_size == erase_size * 16,
{
    FlashInfo {
        sector_count: capacity / erase_size,
        bytes_per_sector: erase_size,
        block_size: erase_size * 16,
    }
}

/// A block-addressed flash device: a flash engine exposed through the
/// device capability contract. Reads and writes are routed to the engine
/// with their byte address; the control operation answers the geometry
/// query, accepts the sync command, and accepts the erase command as a
/// no-op, since erasure is handled implicitly by the engine's program
/// path.
pub struct SpiFlash<T: DeviceFlash> {
    pub dev: T,
}

impl<T: DeviceFlash> SpiFlash<T> {
    pub fn new(dev: T) -> (r: SpiFlash<T>)
        ensures
            r.dev == dev,
    {
        SpiFlash { dev }
    }
}

impl<T: DeviceFlash> DeviceOps for SpiFlash<T> {
    open spec fn dev_wf(&self) -> bool {
        true
    }

    open spec fn inited(&self) -> bool {
        self.dev.dev_inited()
    }

    open spec fn spec_is_block_dev(&self) -> bool {
        true
    }

    fn is_block_dev(&self) -> (r: bool) {
        true
    }

    fn open(&mut self, flag: &OpenFlag) -> (r: Result<(), IOError>)
        ensures
            r is Err ==> r == Err::<(), IOError>(IOError::OpenError),
    {
        match self.dev.init() {
            Ok(_) => Ok(()),
            Err(_) => Err(IOError::OpenError),
        }
    }

    fn close(&mut self) -> (r: Result<(), IOError>)
        ensures
            r is Err ==> r == Err::<(), IOError>(IOError::CloseError),
    {
        match self.dev.uninit() {
            Ok(_) => Ok(()),
            Err(_) => Err(IOError::CloseError),
        }
    }

    /// Reads `len` bytes starting at the byte address; a range beyond the
    /// medium is a read error.
    fn b_read(&mut self, address: usize, len: usize) -> (r: Result<StdData, IOError>)
        ensures
            final(self).dev.spec_capacity() == old(self).dev.spec_capacity(),
            final(self).dev.spec_erase_size() == old(self).dev.spec_erase_size(),
            final(self).dev.spec_content() == old(self).dev.spec_content(),
            address + len > old(self).dev.spec_capacity() ==> r == Err::<StdData, IOError>(
                IOError::ReadError,
            ) && *final(self) == *old(self),
            r matches Ok(d) ==> (d matches StdData::Bytes(v) && v@ == old(self).dev.spec_content().subrange(address as int, address + len)),
    {
        let cap = self.dev.capacity();
        if address > cap as usize || len > cap as usize - address {
            return Err(IOError::ReadError);
        }
        match self.dev.read(address as u32, len as u32) {
            Ok(v) => Ok(StdData::Bytes(v)),
            Err(_) => Err(IOError::ReadError),
        }
    }

    /// Programs a byte payload at the byte address; a payload that is not
    /// a byte sequence is a marshalling mismatch, and a range beyond the
    /// medium is a write error.
    fn b_write(&mut self, address: usize, data: StdData) -> (r: Result<(), IOError>)
        ensures
            final(self).dev.spec_capacity() == old(self).dev.spec_capacity(),
            final(self).dev.spec_erase_size() == old(self).dev.spec_erase_size(),
            !(data is Bytes) ==> r == Err::<(), IOError>(IOError::DataError) && *final(self)
                == *old(self),
            data matches StdData::Bytes(a) ==> {
                &&& (address + a@.len() > old(self).dev.spec_capacity() ==> r == Err::<
                    (),
                    IOError,
                >(IOError::WriteError) && *final(self) == *old(self))
                &&& (r is Ok ==> final(self).dev.spec_content() == old(self).dev.spec_content().subrange(0, address as int) + a@ + old(self).dev.spec_content().skip(
                    address + a@.len(),
                ))
            },
    {
        let a = match data.take_bytes() {
            Ok(a) => a,
            Err(_) => {
                return Err(IOError::DataError);
            },
        };
        let cap = self.dev.capacity();
        if address > cap as usize || a.len() > cap as usize - address {
            return Err(IOError::WriteError);
        }
        match self.dev.program(address as u32, a.as_slice()) {
            Ok(_) => Ok(()),
            Err(_) => Err(IOError::WriteError),
        }
    }

    /// Answers the geometry query with the engine's reported capacity and
    /// erase size; accepts the sync and erase commands; any other payload
    /// is a control error.
    fn control(&mut self, data: StdData) -> (r: Result<StdData, IOError>)
        ensures
            *final(self) == *old(self),
            data matches StdData::Type(TypedData::FlashGet(_)) && old(self).dev.spec_erase_size()
                >= 1 && old(self).dev.spec_erase_size() <= u32::MAX / 16 ==> r == Ok::<
                StdData,
                IOError,
            >(
                StdData::Type(
                    TypedData::FlashInfo(
                        (FlashInfo {
                            sector_count: (old(self).dev.spec_capacity() as int / old(self).dev.spec_erase_size() as int) as u32,
                            bytes_per_sector: old(self).dev.spec_erase_size(),
                            block_size: (old(self).dev.spec_erase_size() * 16) as u32,
                        }),
                    ),
                ),
            ),
            data matches StdData::Type(TypedData::FlashSync(_)) ==> r == Ok::<StdData, IOError>(
                StdData::Null,
            ),
            data matches StdData::Type(TypedData::FlashErase(_)) ==> r == Ok::<StdData, IOError>(
                StdData::Null,
            ),
            !(data matches StdData::Type(t) && (t is FlashGet || t is FlashSync || t
                is FlashErase)) ==> r == Err::<StdData, IOError>(IOError::ControlError),
    {
        match data {
            StdData::Type(TypedData::FlashGet(_)) => {
                let es = self.dev.erase_size();
                if es == 0 || es > u32::MAX / 16 {
                    return Err(IOError::ControlError);
                }
                let info = flash_geometry(self.dev.capacity(), es);
                Ok(StdData::Type(TypedData::FlashInfo(info)))
            },
            StdData::Type(TypedData::FlashSync(_)) => Ok(StdData::Null),
            StdData::Type(TypedData::FlashErase(_)) => Ok(StdData::Null),
            _ => Err(IOError::ControlError),
        }
    }
}

} // verus!
