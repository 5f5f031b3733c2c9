//! The caller-facing surface of the lifecycle arbiter: how an open request
//! is resolved against the current state of a device record.

use vstd::prelude::*;
use crate::data::OpenFlag;
use crate::device::DeviceOps;
use crate::driver::{Driver, DriverOps};
use crate::error::IOError;
use crate::guard::DriverGuard;
use crate::fast_dev::{FastDev, FastRegistry};
use crate::Registry;

verus! {

/// How a successful open was resolved: sole access, the first shared
/// opener (which initialized the device), or an additional shared opener.
#[derive(Debug, Copy, Clone, PartialEq, Eq, Structural)]
pub enum OpenType {
    Master,
    Only,
    User,
}

/// Resolves one open request against the arbiter state.
///
/// An exclusive request succeeds only from idle and takes the exclusive
/// hold; any other state answers it with a busy condition. A shared
/// request on an idle device initializes it and becomes the first opener;
/// on a shared-held device it only increments the count, and the device's
/// own open is not invoked again; on an exclusively held device it is
/// busy. When the device's open fails, the record is left exactly as it
/// was.
pub fn raw_open<T: DeviceOps>(dev: &mut Driver<T>, f: &OpenFlag) -> (r: Result<OpenType, IOError>)
    requires
        old(dev).wf(),
        old(dev).open_num < u32::MAX,
    ensures
        final(dev).wf(),
        f.spec_get_only() && !old(dev).idle() ==> r == Err::<OpenType, IOError>(IOError::OpenError)
            && *final(dev) == *old(dev),
        !f.spec_get_only() && !old(dev).open_able ==> r == Err::<OpenType, IOError>(
            IOError::OpenError,
        ) && *final(dev) == *old(dev),
        f.spec_get_only() && old(dev).idle() ==> ((r == Ok::<OpenType, IOError>(OpenType::Only)
            && !final(dev).open_able && final(dev).open_num == 0 && final(dev).ops.inited()) || (
        r is Err && *final(dev) == *old(dev))),
        !f.spec_get_only() && old(dev).idle() ==> ((r == Ok::<OpenType, IOError>(OpenType::Master)
            && final(dev).open_able && final(dev).open_num == 1 && final(dev).ops.inited()) || (
        r is Err && *final(dev) == *old(dev))),
        !f.spec_get_only() && old(dev).open_able && old(dev).open_num > 0 ==> r == Ok::<
            OpenType,
            IOError,
        >(OpenType::User) && final(dev).open_able && final(dev).open_num == old(dev).open_num + 1
            && final(dev).ops == old(dev).ops,
{
    if f.get_only() {
        if !dev.open_able {
            Err(IOError::OpenError)
        } else if dev.open_num != 0 {
            Err(IOError::OpenError)
        } else {
            match dev.ops.open(f) {
                Ok(_) => {
                    dev.open_able = false;
                    Ok(OpenType::Only)
                },
                Err(e) => Err(e),
            }
        }
    } else {
        if !dev.open_able {
            Err(IOError::OpenError)
        } else if dev.open_num == 0 {
            match dev.ops.open(f) {
                Ok(_) => {
                    dev.open_num = 1;
                    Ok(OpenType::Master)
                },
                Err(e) => Err(e),
            }
        } else {
            dev.open_num = dev.open_num + 1;
            Ok(OpenType::User)
        }
    }
}

/// Opening a device record: resolves the request with [`raw_open`] and
/// wraps the resolution in a guard through which the session is used and
/// eventually released.
pub trait DevOpen: DriverOps + Sized {
    fn open(&mut self, f: &OpenFlag) -> (r: Result<DriverGuard, IOError>)
        requires
            old(self).driver_wf(),
            old(self).driver_open_num() < u32::MAX,
        ensures
            final(self).driver_wf(),
            f.spec_get_only() && !(old(self).driver_open_able() && old(self).driver_open_num()
                == 0) ==> r == Err::<DriverGuard, IOError>(IOError::OpenError) && *final(self)
                == *old(self),
            !f.spec_get_only() && !old(self).driver_open_able() ==> r == Err::<
                DriverGuard,
                IOError,
            >(IOError::OpenError) && *final(self) == *old(self),
            f.spec_get_only() && old(self).driver_open_able() && old(self).driver_open_num() == 0
                ==> ((r == Ok::<DriverGuard, IOError>((DriverGuard { o_type: OpenType::Only }))
                && !final(self).driver_open_able() && final(self).driver_open_num() == 0 && final(self).dev().inited()) || (r is Err && *final(self) == *old(self))),
            !f.spec_get_only() && old(self).driver_open_able() && old(self).driver_open_num() == 0
                ==> ((r == Ok::<DriverGuard, IOError>((DriverGuard { o_type: OpenType::Master }))
                && final(self).driver_open_able() && final(self).driver_open_num() == 1 && final(self).dev().inited()) || (r is Err && *final(self) == *old(self))),
            !f.spec_get_only() && old(self).driver_open_able() && old(self).driver_open_num() > 0
                ==> r == Ok::<DriverGuard, IOError>((DriverGuard { o_type: OpenType::User }))
                && final(self).driver_open_able() && final(self).driver_open_num() == old(self).driver_open_num() + 1 && final(self).dev() == old(self).dev(),
    ;
}

impl<T: DeviceOps> DevOpen for Driver<T> {
    fn open(&mut self, f: &OpenFlag) -> (r: Result<DriverGuard, IOError>) {
        match raw_open(self, f) {
            Ok(ot) => Ok(DriverGuard { o_type: ot }),
            Err(e) => Err(e),
        }
    }
}

/// Looks a device up by name in a registry: a handle for
/// [`Registry::driver_at`][crate::Registry::driver_at] when the name is
/// registered, and a not-found condition otherwise.
pub fn find<T: DeviceOps>(reg: &Registry<T>, name: &str) -> (r: Result<usize, IOError>)
    requires
        reg.wf(),
    ensures
        r matches Ok(h) ==> h < reg.spec_len() && reg.name_at(h as int) == name@,
        r is Err ==> r == Err::<usize, IOError>(IOError::FindError) && !reg.spec_contains(name@),
        reg.spec_contains(name@) ==> r is Ok,
{
    reg.find(name)
}

/// Takes a fast device out of its store by name, giving the caller the
/// concrete object itself; fails with a not-found condition when the name
/// is absent.
pub fn take_fast_dev<T>(reg: &mut FastRegistry<T>, name: &str) -> (r: Result<FastDev<T>, IOError>)
    requires
        old(reg).wf(),
    ensures
        final(reg).wf(),
        !old(reg).spec_contains(name@) ==> r == Err::<FastDev<T>, IOError>(IOError::FindError)
            && *final(reg) == *old(reg),
        old(reg).spec_contains(name@) ==> (r matches Ok(fd) && fd.name@ == name@ && fd.dev == old(reg).dev_at(old(reg).index_of(name@)) && final(reg).spec_len() == old(reg).spec_len() - 1
            && !final(reg).spec_contains(name@)),
{
    reg.take(name)
}

/// Returns a fast device to its store under the name it was taken with.
pub fn release_fast_dev<T>(reg: &mut FastRegistry<T>, dev: FastDev<T>)
    requires
        old(reg).wf(),
        !old(reg).spec_contains(dev.name@),
    ensures
        final(reg).wf(),
        final(reg).spec_len() == old(reg).spec_len() + 1,
        final(reg).spec_contains(dev.name@),
        final(reg).dev_at(old(reg).spec_len()) == dev.dev,
{
    let FastDev { dev: raw_dev, name: raw_name } = dev;
    let _ = reg.register(raw_dev, raw_name.as_str());
    proof {
        old(reg).lemma_len_nonneg();
        assert(raw_name@ == dev.name@);
        assert(reg.name_at(old(reg).spec_len()) == raw_name@);
        assert(reg.spec_contains(dev.name@));
    }
}

} // verus!
