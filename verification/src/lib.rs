//! A device-driver framework core: naming, opening, reading, writing,
//! configuring and closing heterogeneous peripherals while arbitrating
//! concurrent access.
//!
//! The crate provides the device lifecycle arbiter (exclusive and shared
//! opens with reference counting), the bounded ring buffer shared between
//! interrupt and task context, the asynchronous suspend/resume bridge, the
//! tagged exchange-value format, and the registry that maps device names to
//! device records. Board-specific peripheral implementations plug in through
//! the capability traits of the `device` module.
//!
//! In the running system every device record sits behind a per-device lock
//! and ring buffers are touched only inside interrupt-masked critical
//! sections. Here that serialization is structural: all mutating operations
//! take exclusive references, and the embedding runtime is responsible for
//! providing the lock or masked section around them.

use vstd::prelude::*;

pub mod api;
pub mod async_rw;
pub mod data;
pub mod device;
pub mod driver;
pub mod error;
pub mod fast_dev;
pub mod guard;

verus! {

/// The process-wide name-to-device mapping, owned by the application's
/// initialization code and passed to whoever needs a lookup. Names are
/// unique; registration order is irrelevant and there is no unregister
/// path, so a handle returned by a lookup stays valid.
pub struct Registry<T: crate::device::DeviceOps> {
    names: Vec<String>,
    devs: Vec<crate::driver::Driver<T>>,
}

impl<T: crate::device::DeviceOps> Registry<T> {
    /// Validity: one device per name, and every name registered once.
    pub closed spec fn wf(&self) -> bool {
        &&& self.names@.len() == self.devs@.len()
        &&& forall|i: int, j: int|
            0 <= i < j < self.names@.len() ==> self.names@[i]@ != self.names@[j]@
    }

    /// The number of registered devices.
    pub closed spec fn spec_len(&self) -> int {
        self.devs@.len() as int
    }

    /// The name of the record at an index.
    pub closed spec fn name_at(&self, i: int) -> Seq<char> {
        self.names@[i]@
    }

    /// The record at an index.
    pub closed spec fn dev_at(&self, i: int) -> crate::driver::Driver<T> {
        self.devs@[i]
    }

    /// Whether some record is registered under the name.
    pub open spec fn spec_contains(&self, n: Seq<char>) -> bool {
        exists|i: int| 0 <= i < self.spec_len() && self.name_at(i) == n
    }

    /// An empty registry.
    pub fn new() -> (r: Registry<T>)
        ensures
            r.wf(),
            r.spec_len() == 0,
    {
        Registry { names: Vec::new(), devs: Vec::new() }
    }

    /// Exclusive access to the record a lookup handle points at. The rest
    /// of the registry is untouched; the names do not change, so every
    /// other handle stays valid.
    pub fn driver_at(&mut self, h: usize) -> (d: &mut crate::driver::Driver<T>)
        requires
            old(self).wf(),
            h < old(self).spec_len(),
        ensures
            *d == old(self).dev_at(h as int),
            final(self).wf(),
            final(self).spec_len() == old(self).spec_len(),
            forall|i: int| 0 <= i < old(self).spec_len() ==> final(self).name_at(i) == old(self).name_at(i),
            forall|i: int|
                0 <= i < old(self).spec_len() && i != h ==> final(self).dev_at(i) == old(self).dev_at(i),
            final(self).dev_at(h as int) == *final(d),
    {
        &mut self.devs[h]
    }

    /// The index holding `name`, when some record is registered under it.
    fn find_index(&self, name: &str) -> (r: Option<usize>)
        requires
            self.wf(),
        ensures
            r matches Some(i) ==> i < self.spec_len() && self.name_at(i as int) == name@,
            r is None ==> !self.spec_contains(name@),
    {
        let key: String = name.to_owned();
        let n = self.names.len();
        let mut i: usize = 0;
        while i < n
            invariant
                self.wf(),
                n == self.spec_len(),
                i <= n,
                key@ == name@,
                forall|j: int| 0 <= j < i ==> self.name_at(j) != name@,
            decreases n - i,
        {
            if self.names[i] == key {
                return Some(i);
            }
            i = i + 1;
        }
        None
    }

    /// Registers a device under a name: fails with a duplicate-name
    /// condition when the name is taken, otherwise wraps the device in a
    /// fresh idle record and appends it. Existing records and handles are
    /// untouched either way.
    pub fn register(&mut self, raw_dev: T, name: &str) -> (r: Result<(), crate::error::IOError>)
        requires
            old(self).wf(),
            !raw_dev.inited(),
            raw_dev.dev_wf(),
        ensures
            final(self).wf(),
            old(self).spec_contains(name@) ==> r == Err::<(), crate::error::IOError>(
                crate::error::IOError::RegisterError,
            ) && *final(self) == *old(self),
            !old(self).spec_contains(name@) ==> r == Ok::<(), crate::error::IOError>(()) && final(self).spec_len() == old(self).spec_len() + 1 && final(self).name_at(old(self).spec_len())
                == name@ && final(self).dev_at(old(self).spec_len()) == (crate::driver::Driver {
                open_able: true,
                open_num: 0,
                ops: raw_dev,
            }) && forall|i: int|
                0 <= i < old(self).spec_len() ==> final(self).name_at(i) == old(self).name_at(i)
                    && final(self).dev_at(i) == old(self).dev_at(i),
    {
        match self.find_index(name) {
            Some(_) => Err(crate::error::IOError::RegisterError),
            None => {
                self.names.push(name.to_owned());
                self.devs.push(crate::driver::Driver::new(raw_dev));
                proof {
                    assert forall|i: int, j: int|
                        0 <= i < j < self.names@.len() implies self.names@[i]@
                        != self.names@[j]@ by {
                        if j == self.names@.len() - 1 {
                            assert(old(self).name_at(i) == name@ ==> old(self).spec_contains(
                                name@,
                            ));
                        }
                    }
                }
                Ok(())
            },
        }
    }

    /// Looks a device up by name: a handle usable with [`Registry::driver_at`]
    /// when the name is registered, and a not-found condition otherwise.
    pub fn find(&self, name: &str) -> (r: Result<usize, crate::error::IOError>)
        requires
            self.wf(),
        ensures
            r matches Ok(h) ==> h < self.spec_len() && self.name_at(h as int) == name@,
            r is Err ==> r == Err::<usize, crate::error::IOError>(crate::error::IOError::FindError)
                && !self.spec_contains(name@),
            self.spec_contains(name@) ==> r is Ok,
    {
        match self.find_index(name) {
            Some(i) => Ok(i),
            None => Err(crate::error::IOError::FindError),
        }
    }
}

} // verus!
