//! The open-configuration bitset and the tagged exchange value that carry
//! payloads between callers and heterogeneous devices.

use vstd::prelude::*;
use vstd::string::StringSliceAdditionalSpecFns;

verus! {

/// How a caller wants to use a device, chosen once at open time: a
/// fixed-width bitset of independent boolean options. Setting or reading one
/// option never affects another.
#[derive(Debug, Copy, Clone)]
pub struct OpenFlag(pub u32);

impl OpenFlag {
    /// Exclusive open: sole access, device usable by exactly one guard.
    pub open spec fn spec_get_only(&self) -> bool {
        self.0 & 0x0001u32 != 0u32
    }

    /// Interrupt-driven read.
    pub open spec fn spec_get_read_int(&self) -> bool {
        self.0 & 0x0008u32 != 0u32
    }

    /// Interrupt-driven write.
    pub open spec fn spec_get_write_int(&self) -> bool {
        self.0 & 0x0010u32 != 0u32
    }

    /// Blocking read: retry until a character is available.
    pub open spec fn spec_get_read_block(&self) -> bool {
        self.0 & 0x0020u32 != 0u32
    }

    /// Blocking write: retry until the device accepts the data.
    pub open spec fn spec_get_write_block(&self) -> bool {
        self.0 & 0x0040u32 != 0u32
    }

    /// Callback-style read for legacy consumers.
    pub open spec fn spec_get_read_c_type(&self) -> bool {
        self.0 & 0x0080u32 != 0u32
    }

    /// Asynchronous read through the suspend/resume bridge.
    pub open spec fn spec_get_read_async(&self) -> bool {
        self.0 & 0x0100u32 != 0u32
    }

    /// Asynchronous write through the suspend/resume bridge.
    pub open spec fn spec_get_write_async(&self) -> bool {
        self.0 & 0x0200u32 != 0u32
    }

    /// The configuration with every option off.
    pub fn zero() -> (r: OpenFlag)
        ensures
            !r.spec_get_only(),
            !r.spec_get_read_int(),
            !r.spec_get_write_int(),
            !r.spec_get_read_block(),
            !r.spec_get_write_block(),
            !r.spec_get_read_c_type(),
            !r.spec_get_read_async(),
            !r.spec_get_write_async(),
    {
        proof {
            assert(0u32 & 0x0001u32 == 0u32 && 0u32 & 0x0008u32 == 0u32 && 0u32 & 0x0010u32
                == 0u32 && 0u32 & 0x0020u32 == 0u32 && 0u32 & 0x0040u32 == 0u32 && 0u32
                & 0x0080u32 == 0u32 && 0u32 & 0x0100u32 == 0u32 && 0u32 & 0x0200u32 == 0u32)
                by (bit_vector);
        }
        OpenFlag(0)
    }

    pub fn get_only(&self) -> (r: bool)
        ensures
            r == self.spec_get_only(),
    {
        self.0 & 0x0001u32 != 0u32
    }

    pub fn get_read_int(&self) -> (r: bool)
        ensures
            r == self.spec_get_read_int(),
    {
        self.0 & 0x0008u32 != 0u32
    }

    pub fn get_write_int(&self) -> (r: bool)
        ensures
            r == self.spec_get_write_int(),
    {
        self.0 & 0x0010u32 != 0u32
    }

    pub fn get_read_block(&self) -> (r: bool)
        ensures
            r == self.spec_get_read_block(),
    {
        self.0 & 0x0020u32 != 0u32
    }

    pub fn get_write_block(&self) -> (r: bool)
        ensures
            r == self.spec_get_write_block(),
    {
        self.0 & 0x0040u32 != 0u32
    }

    pub fn get_read_c_type(&self) -> (r: bool)
        ensures
            r == self.spec_get_read_c_type(),
    {
        self.0 & 0x0080u32 != 0u32
    }

    pub fn get_read_async(&self) -> (r: bool)
        ensures
            r == self.spec_get_read_async(),
    {
        self.0 & 0x0100u32 != 0u32
    }

    pub fn get_write_async(&self) -> (r: bool)
        ensures
            r == self.spec_get_write_async(),
    {
        self.0 & 0x0200u32 != 0u32
    }

    pub fn set_only(&mut self, f: bool)
        ensures
            final(self).spec_get_only() == f,
            final(self).spec_get_read_int() == old(self).spec_get_read_int(),
            final(self).spec_get_write_int() == old(self).spec_get_write_int(),
            final(self).spec_get_read_block() == old(self).spec_get_read_block(),
            final(self).spec_get_write_block() == old(self).spec_get_write_block(),
            final(self).spec_get_read_c_type() == old(self).spec_get_read_c_type(),
            final(self).spec_get_read_async() == old(self).spec_get_read_async(),
            final(self).spec_get_write_async() == old(self).spec_get_write_async(),
    {
        let v = self.0;
        if f {
            proof {
                assert((v | 0x0001u32) & 0x0001u32 != 0u32 && (v | 0x0001u32) & 0x0008u32 == v
                    & 0x0008u32 && (v | 0x0001u32) & 0x0010u32 == v & 0x0010u32 && (v
                    | 0x0001u32) & 0x0020u32 == v & 0x0020u32 && (v | 0x0001u32) & 0x0040u32
                    == v & 0x0040u32 && (v | 0x0001u32) & 0x0080u32 == v & 0x0080u32 && (v
                    | 0x0001u32) & 0x0100u32 == v & 0x0100u32 && (v | 0x0001u32) & 0x0200u32
                    == v & 0x0200u32) by (bit_vector);
            }
            self.0 = v | 0x0001u32;
        } else {
            proof {
                assert((v & !0x0001u32) & 0x0001u32 == 0u32 && (v & !0x0001u32) & 0x0008u32 == v
                    & 0x0008u32 && (v & !0x0001u32) & 0x0010u32 == v & 0x0010u32 && (v
                    & !0x0001u32) & 0x0020u32 == v & 0x0020u32 && (v & !0x0001u32) & 0x0040u32
                    == v & 0x0040u32 && (v & !0x0001u32) & 0x0080u32 == v & 0x0080u32 && (v
                    & !0x0001u32) & 0x0100u32 == v & 0x0100u32 && (v & !0x0001u32) & 0x0200u32
                    == v & 0x0200u32) by (bit_vector);
            }
            self.0 = v & !0x0001u32;
        }
    }

    pub fn set_read_int(&mut self, f: bool)
        ensures
            final(self).spec_get_read_int() == f,
            final(self).spec_get_only() == old(self).spec_get_only(),
            final(self).spec_get_write_int() == old(self).spec_get_write_int(),
            final(self).spec_get_read_block() == old(self).spec_get_read_block(),
            final(self).spec_get_write_block() == old(self).spec_get_write_block(),
            final(self).spec_get_read_c_type() == old(self).spec_get_read_c_type(),
            final(self).spec_get_read_async() == old(self).spec_get_read_async(),
            final(self).spec_get_write_async() == old(self).spec_get_write_async(),
    {
        let v = self.0;
        if f {
            proof {
                assert((v | 0x0008u32) & 0x0008u32 != 0u32 && (v | 0x0008u32) & 0x0001u32 == v & 0x0001u32 && (v | 0x0008u32) & 0x0010u32 == v & 0x0010u32 && (v | 0x0008u32) & 0x0020u32 == v & 0x0020u32 && (v | 0x0008u32) & 0x0040u32 == v & 0x0040u32 && (v | 0x0008u32) & 0x0080u32 == v & 0x0080u32 && (v | 0x0008u32) & 0x0100u32 == v & 0x0100u32 && (v | 0x0008u32) & 0x0200u32 == v & 0x0200u32) by (bit_vector);
            }
            self.0 = v | 0x0008u32;
        } else {
            proof {
                assert((v & !0x0008u32) & 0x0008u32 == 0u32 && (v & !0x0008u32) & 0x0001u32 == v & 0x0001u32 && (v & !0x0008u32) & 0x0010u32 == v & 0x0010u32 && (v & !0x0008u32) & 0x0020u32 == v & 0x0020u32 && (v & !0x0008u32) & 0x0040u32 == v & 0x0040u32 && (v & !0x0008u32) & 0x0080u32 == v & 0x0080u32 && (v & !0x0008u32) & 0x0100u32 == v & 0x0100u32 && (v & !0x0008u32) & 0x0200u32 == v & 0x0200u32) by (bit_vector);
            }
            self.0 = v & !0x0008u32;
        }
    }

    pub fn set_write_int(&mut self, f: bool)
        ensures
            final(self).spec_get_write_int() == f,
            final(self).spec_get_only() == old(self).spec_get_only(),
            final(self).spec_get_read_int() == old(self).spec_get_read_int(),
            final(self).spec_get_read_block() == old(self).spec_get_read_block(),
            final(self).spec_get_write_block() == old(self).spec_get_write_block(),
            final(self).spec_get_read_c_type() == old(self).spec_get_read_c_type(),
            final(self).spec_get_read_async() == old(self).spec_get_read_async(),
            final(self).spec_get_write_async() == old(self).spec_get_write_async(),
    {
        let v = self.0;
        if f {
            proof {
                assert((v | 0x0010u32) & 0x0010u32 != 0u32 && (v | 0x0010u32) & 0x0001u32 == v & 0x0001u32 && (v | 0x0010u32) & 0x0008u32 == v & 0x0008u32 && (v | 0x0010u32) & 0x0020u32 == v & 0x0020u32 && (v | 0x0010u32) & 0x0040u32 == v & 0x0040u32 && (v | 0x0010u32) & 0x0080u32 == v & 0x0080u32 && (v | 0x0010u32) & 0x0100u32 == v & 0x0100u32 && (v | 0x0010u32) & 0x0200u32 == v & 0x0200u32) by (bit_vector);
            }
            self.0 = v | 0x0010u32;
        } else {
            proof {
                assert((v & !0x0010u32) & 0x0010u32 == 0u32 && (v & !0x0010u32) & 0x0001u32 == v & 0x0001u32 && (v & !0x0010u32) & 0x0008u32 == v & 0x0008u32 && (v & !0x0010u32) & 0x0020u32 == v & 0x0020u32 && (v & !0x0010u32) & 0x0040u32 == v & 0x0040u32 && (v & !0x0010u32) & 0x0080u32 == v & 0x0080u32 && (v & !0x0010u32) & 0x0100u32 == v & 0x0100u32 && (v & !0x0010u32) & 0x0200u32 == v & 0x0200u32) by (bit_vector);
            }
            self.0 = v & !0x0010u32;
        }
    }

    pub fn set_read_block(&mut self, f: bool)
        ensures
            final(self).spec_get_read_block() == f,
            final(self).spec_get_only() == old(self).spec_get_only(),
            final(self).spec_get_read_int() == old(self).spec_get_read_int(),
            final(self).spec_get_write_int() == old(self).spec_get_write_int(),
            final(self).spec_get_write_block() == old(self).spec_get_write_block(),
            final(self).spec_get_read_c_type() == old(self).spec_get_read_c_type(),
            final(self).spec_get_read_async() == old(self).spec_get_read_async(),
            final(self).spec_get_write_async() == old(self).spec_get_write_async(),
    {
        let v = self.0;
        if f {
            proof {
                assert((v | 0x0020u32) & 0x0020u32 != 0u32 && (v | 0x0020u32) & 0x0001u32 == v & 0x0001u32 && (v | 0x0020u32) & 0x0008u32 == v & 0x0008u32 && (v | 0x0020u32) & 0x0010u32 == v & 0x0010u32 && (v | 0x0020u32) & 0x0040u32 == v & 0x0040u32 && (v | 0x0020u32) & 0x0080u32 == v & 0x0080u32 && (v | 0x0020u32) & 0x0100u32 == v & 0x0100u32 && (v | 0x0020u32) & 0x0200u32 == v & 0x0200u32) by (bit_vector);
            }
            self.0 = v | 0x0020u32;
        } else {
            proof {
                assert((v & !0x0020u32) & 0x0020u32 == 0u32 && (v & !0x0020u32) & 0x0001u32 == v & 0x0001u32 && (v & !0x0020u32) & 0x0008u32 == v & 0x0008u32 && (v & !0x0020u32) & 0x0010u32 == v & 0x0010u32 && (v & !0x0020u32) & 0x0040u32 == v & 0x0040u32 && (v & !0x0020u32) & 0x0080u32 == v & 0x0080u32 && (v & !0x0020u32) & 0x0100u32 == v & 0x0100u32 && (v & !0x0020u32) & 0x0200u32 == v & 0x0200u32) by (bit_vector);
            }
            self.0 = v & !0x0020u32;
        }
    }

    pub fn set_write_block(&mut self, f: bool)
        ensures
            final(self).spec_get_write_block() == f,
            final(self).spec_get_only() == old(self).spec_get_only(),
            final(self).spec_get_read_int() == old(self).spec_get_read_int(),
            final(self).spec_get_write_int() == old(self).spec_get_write_int(),
            final(self).spec_get_read_block() == old(self).spec_get_read_block(),
            final(self).spec_get_read_c_type() == old(self).spec_get_read_c_type(),
            final(self).spec_get_read_async() == old(self).spec_get_read_async(),
            final(self).spec_get_write_async() == old(self).spec_get_write_async(),
    {
        let v = self.0;
        if f {
            proof {
                assert((v | 0x0040u32) & 0x0040u32 != 0u32 && (v | 0x0040u32) & 0x0001u32 == v & 0x0001u32 && (v | 0x0040u32) & 0x0008u32 == v & 0x0008u32 && (v | 0x0040u32) & 0x0010u32 == v & 0x0010u32 && (v | 0x0040u32) & 0x0020u32 == v & 0x0020u32 && (v | 0x0040u32) & 0x0080u32 == v & 0x0080u32 && (v | 0x0040u32) & 0x0100u32 == v & 0x0100u32 && (v | 0x0040u32) & 0x0200u32 == v & 0x0200u32) by (bit_vector);
            }
            self.0 = v | 0x0040u32;
        } else {
            proof {
                assert((v & !0x0040u32) & 0x0040u32 == 0u32 && (v & !0x0040u32) & 0x0001u32 == v & 0x0001u32 && (v & !0x0040u32) & 0x0008u32 == v & 0x0008u32 && (v & !0x0040u32) & 0x0010u32 == v & 0x0010u32 && (v & !0x0040u32) & 0x0020u32 == v & 0x0020u32 && (v & !0x0040u32) & 0x0080u32 == v & 0x0080u32 && (v & !0x0040u32) & 0x0100u32 == v & 0x0100u32 && (v & !0x0040u32) & 0x0200u32 == v & 0x0200u32) by (bit_vector);
            }
            self.0 = v & !0x0040u32;
        }
    }

    pub fn set_read_c_type(&mut self, f: bool)
        ensures
            final(self).spec_get_read_c_type() == f,
            final(self).spec_get_only() == old(self).spec_get_only(),
            final(self).spec_get_read_int() == old(self).spec_get_read_int(),
            final(self).spec_get_write_int() == old(self).spec_get_write_int(),
            final(self).spec_get_read_block() == old(self).spec_get_read_block(),
            final(self).spec_get_write_block() == old(self).spec_get_write_block(),
            final(self).spec_get_read_async() == old(self).spec_get_read_async(),
            final(self).spec_get_write_async() == old(self).spec_get_write_async(),
    {
        let v = self.0;
        if f {
            proof {
                assert((v | 0x0080u32) & 0x0080u32 != 0u32 && (v | 0x0080u32) & 0x0001u32 == v & 0x0001u32 && (v | 0x0080u32) & 0x0008u32 == v & 0x0008u32 && (v | 0x0080u32) & 0x0010u32 == v & 0x0010u32 && (v | 0x0080u32) & 0x0020u32 == v & 0x0020u32 && (v | 0x0080u32) & 0x0040u32 == v & 0x0040u32 && (v | 0x0080u32) & 0x0100u32 == v & 0x0100u32 && (v | 0x0080u32) & 0x0200u32 == v & 0x0200u32) by (bit_vector);
            }
            self.0 = v | 0x0080u32;
        } else {
            proof {
                assert((v & !0x0080u32) & 0x0080u32 == 0u32 && (v & !0x0080u32) & 0x0001u32 == v & 0x0001u32 && (v & !0x0080u32) & 0x0008u32 == v & 0x0008u32 && (v & !0x0080u32) & 0x0010u32 == v & 0x0010u32 && (v & !0x0080u32) & 0x0020u32 == v & 0x0020u32 && (v & !0x0080u32) & 0x0040u32 == v & 0x0040u32 && (v & !0x0080u32) & 0x0100u32 == v & 0x0100u32 && (v & !0x0080u32) & 0x0200u32 == v & 0x0200u32) by (bit_vector);
            }
            self.0 = v & !0x0080u32;
        }
    }

    pub fn set_read_async(&mut self, f: bool)
        ensures
            final(self).spec_get_read_async() == f,
            final(self).spec_get_only() == old(self).spec_get_only(),
            final(self).spec_get_read_int() == old(self).spec_get_read_int(),
            final(self).spec_get_write_int() == old(self).spec_get_write_int(),
            final(self).spec_get_read_block() == old(self).spec_get_read_block(),
            final(self).spec_get_write_block() == old(self).spec_get_write_block(),
            final(self).spec_get_read_c_type() == old(self).spec_get_read_c_type(),
            final(self).spec_get_write_async() == old(self).spec_get_write_async(),
    {
        let v = self.0;
        if f {
            proof {
                assert((v | 0x0100u32) & 0x0100u32 != 0u32 && (v | 0x0100u32) & 0x0001u32 == v & 0x0001u32 && (v | 0x0100u32) & 0x0008u32 == v & 0x0008u32 && (v | 0x0100u32) & 0x0010u32 == v & 0x0010u32 && (v | 0x0100u32) & 0x0020u32 == v & 0x0020u32 && (v | 0x0100u32) & 0x0040u32 == v & 0x0040u32 && (v | 0x0100u32) & 0x0080u32 == v & 0x0080u32 && (v | 0x0100u32) & 0x0200u32 == v & 0x0200u32) by (bit_vector);
            }
            self.0 = v | 0x0100u32;
        } else {
            proof {
                assert((v & !0x0100u32) & 0x0100u32 == 0u32 && (v & !0x0100u32) & 0x0001u32 == v & 0x0001u32 && (v & !0x0100u32) & 0x0008u32 == v & 0x0008u32 && (v & !0x0100u32) & 0x0010u32 == v & 0x0010u32 && (v & !0x0100u32) & 0x0020u32 == v & 0x0020u32 && (v & !0x0100u32) & 0x0040u32 == v & 0x0040u32 && (v & !0x0100u32) & 0x0080u32 == v & 0x0080u32 && (v & !0x0100u32) & 0x0200u32 == v & 0x0200u32) by (bit_vector);
            }
            self.0 = v & !0x0100u32;
        }
    }

    pub fn set_write_async(&mut self, f: bool)
        ensures
            final(self).spec_get_write_async() == f,
            final(self).spec_get_only() == old(self).spec_get_only(),
            final(self).spec_get_read_int() == old(self).spec_get_read_int(),
            final(self).spec_get_write_int() == old(self).spec_get_write_int(),
            final(self).spec_get_read_block() == old(self).spec_get_read_block(),
            final(self).spec_get_write_block() == old(self).spec_get_write_block(),
            final(self).spec_get_read_c_type() == old(self).spec_get_read_c_type(),
            final(self).spec_get_read_async() == old(self).spec_get_read_async(),
    {
        let v = self.0;
        if f {
            proof {
                assert((v | 0x0200u32) & 0x0200u32 != 0u32 && (v | 0x0200u32) & 0x0001u32 == v & 0x0001u32 && (v | 0x0200u32) & 0x0008u32 == v & 0x0008u32 && (v | 0x0200u32) & 0x0010u32 == v & 0x0010u32 && (v | 0x0200u32) & 0x0020u32 == v & 0x0020u32 && (v | 0x0200u32) & 0x0040u32 == v & 0x0040u32 && (v | 0x0200u32) & 0x0080u32 == v & 0x0080u32 && (v | 0x0200u32) & 0x0100u32 == v & 0x0100u32) by (bit_vector);
            }
            self.0 = v | 0x0200u32;
        } else {
            proof {
                assert((v & !0x0200u32) & 0x0200u32 == 0u32 && (v & !0x0200u32) & 0x0001u32 == v & 0x0001u32 && (v & !0x0200u32) & 0x0008u32 == v & 0x0008u32 && (v & !0x0200u32) & 0x0010u32 == v & 0x0010u32 && (v & !0x0200u32) & 0x0020u32 == v & 0x0020u32 && (v & !0x0200u32) & 0x0040u32 == v & 0x0040u32 && (v & !0x0200u32) & 0x0080u32 == v & 0x0080u32 && (v & !0x0200u32) & 0x0100u32 == v & 0x0100u32) by (bit_vector);
            }
            self.0 = v & !0x0200u32;
        }
    }
} // impl OpenFlag


/// A tagged value moving heterogeneous read/write payloads across the
/// framework boundary: a byte sequence, an 8- or 32-bit scalar, a
/// configuration echo, a typed payload from the closed set in [`TypedData`],
/// or no data at all.
#[derive(Debug)]
pub enum StdData {
    Bytes(Vec<u8>),
    U32(u32),
    U8(u8),
    OpenFlag(OpenFlag),
    Type(TypedData),
    Null,
}

impl StdData {
    /// Extracts a byte sequence, or returns the value untouched when the tag
    /// does not match.
    pub fn take_bytes(self) -> (r: Result<Vec<u8>, StdData>)
        ensures
            self matches StdData::Bytes(a) ==> r == Ok::<Vec<u8>, StdData>(a),
            !(self is Bytes) ==> r == Err::<Vec<u8>, StdData>(self),
    {
        if let StdData::Bytes(a) = self {
            Ok(a)
        } else {
            Err(self)
        }
    }

    /// Extracts a 32-bit scalar, or returns the value untouched when the tag
    /// does not match.
    pub fn take_u32(self) -> (r: Result<u32, StdData>)
        ensures
            self matches StdData::U32(a) ==> r == Ok::<u32, StdData>(a),
            !(self is U32) ==> r == Err::<u32, StdData>(self),
    {
        if let StdData::U32(a) = self {
            Ok(a)
        } else {
            Err(self)
        }
    }

    /// Extracts an 8-bit scalar, or returns the value untouched when the tag
    /// does not match.
    pub fn take_u8(self) -> (r: Result<u8, StdData>)
        ensures
            self matches StdData::U8(a) ==> r == Ok::<u8, StdData>(a),
            !(self is U8) ==> r == Err::<u8, StdData>(self),
    {
        if let StdData::U8(a) = self {
            Ok(a)
        } else {
            Err(self)
        }
    }

    /// Extracts a typed payload, or returns the value untouched when the tag
    /// does not match.
    pub fn take_type(self) -> (r: Result<TypedData, StdData>)
        ensures
            self matches StdData::Type(a) ==> r == Ok::<TypedData, StdData>(a),
            !(self is Type) ==> r == Err::<TypedData, StdData>(self),
    {
        if let StdData::Type(a) = self {
            Ok(a)
        } else {
            Err(self)
        }
    }

    /// Extracts a configuration echo, or returns the value untouched when
    /// the tag does not match.
    pub fn take_flag(self) -> (r: Result<OpenFlag, StdData>)
        ensures
            self matches StdData::OpenFlag(a) ==> r == Ok::<OpenFlag, StdData>(a),
            !(self is OpenFlag) ==> r == Err::<OpenFlag, StdData>(self),
    {
        if let StdData::OpenFlag(a) = self {
            Ok(a)
        } else {
            Err(self)
        }
    }

    /// True exactly when the value carries no data.
    pub fn is_null(&self) -> (r: bool)
        ensures
            r == (self is Null),
    {
        if let StdData::Null = self {
            true
        } else {
            false
        }
    }
}

/// The closed set of typed payloads that may ride inside
/// [`StdData::Type`]. Every payload a device understands is one of these
/// variants, so consumers recover it by matching rather than by a runtime
/// type check.
#[derive(Debug, Clone, Copy)]
pub enum TypedData {
    Serial(crate::device::serial::SerialConfig),
    FlashGet(crate::device::spi_flash::GetFlashInfo),
    FlashErase(crate::device::spi_flash::EraseFlash),
    FlashSync(crate::device::spi_flash::SyncFlash),
    FlashInfo(crate::device::spi_flash::FlashInfo),
}

/// Lossless conversion of a native value into the tagged exchange format.
/// `data_matches` says which exchange values faithfully carry `self`; a
/// `make_data` result always does.
pub trait ToMakeStdData {
    spec fn data_matches(&self, d: StdData) -> bool;

    fn make_data(&self) -> (r: StdData)
        ensures
            self.data_matches(r),
    ;
}

impl ToMakeStdData for u32 {
    open spec fn data_matches(&self, d: StdData) -> bool {
        d == StdData::U32(*self)
    }

    fn make_data(&self) -> (r: StdData)
        ensures
            self.data_matches(r),
    {
        StdData::U32(*self)
    }
}

impl ToMakeStdData for u8 {
    open spec fn data_matches(&self, d: StdData) -> bool {
        d == StdData::U8(*self)
    }

    fn make_data(&self) -> (r: StdData)
        ensures
            self.data_matches(r),
    {
        StdData::U8(*self)
    }
}

impl ToMakeStdData for OpenFlag {
    open spec fn data_matches(&self, d: StdData) -> bool {
        d == StdData::OpenFlag(*self)
    }

    fn make_data(&self) -> (r: StdData)
        ensures
            self.data_matches(r),
    {
        StdData::OpenFlag(*self)
    }
}

impl ToMakeStdData for &str {
    open spec fn data_matches(&self, d: StdData) -> bool {
        d matches StdData::Bytes(v) && v@ == self.spec_bytes()
    }

    fn make_data(&self) -> (r: StdData)
        ensures
            self.data_matches(r),
    {
        let bytes = self.as_bytes();
        let mut a: Vec<u8> = Vec::new();
        let mut i: usize = 0;
        while i < bytes.len()
            invariant
                i <= bytes@.len(),
                a@ == bytes@.subrange(0, i as int),
            decreases bytes@.len() - i,
        {
            a.push(bytes[i]);
            i = i + 1;
            proof {
                assert(a@ =~= bytes@.subrange(0, i as int));
            }
        }
        proof {
            assert(a@ =~= bytes@);
        }
        StdData::Bytes(a)
    }
}

} // verus!