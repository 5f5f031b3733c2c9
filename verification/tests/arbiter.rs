use devkit::api::{find, raw_open, DevOpen, OpenType};
use devkit::data::OpenFlag;
use devkit::device::register_device;
use devkit::device::serial::Serial;
use devkit::device::virtual_dev::VirtualSerial;
use devkit::error::IOError;
use devkit::Registry;

fn exclusive() -> OpenFlag {
    let mut f = OpenFlag::zero();
    f.set_only(true);
    f
}

#[test]
fn second_exclusive_open_fails_with_busy() {
    let mut reg: Registry<Serial<VirtualSerial>> = Registry::new();
    register_device(&mut reg, Serial::new(VirtualSerial::new()), "d0").unwrap();
    let h = find(&reg, "d0").unwrap();
    let d = reg.driver_at(h);
    let g1 = d.open(&exclusive()).unwrap();
    assert!(g1.is_only());
    match d.open(&exclusive()) {
        Err(IOError::OpenError) => {}
        _ => panic!("an exclusively held device must answer busy"),
    }
    d.release(g1).unwrap();
}

#[test]
fn shared_open_on_exclusively_held_device_fails_with_busy() {
    let mut reg: Registry<Serial<VirtualSerial>> = Registry::new();
    register_device(&mut reg, Serial::new(VirtualSerial::new()), "d0").unwrap();
    let h = find(&reg, "d0").unwrap();
    let d = reg.driver_at(h);
    let g1 = d.open(&exclusive()).unwrap();
    match d.open(&OpenFlag::zero()) {
        Err(IOError::OpenError) => {}
        _ => panic!("an exclusively held device must answer busy"),
    }
    d.release(g1).unwrap();
}

#[test]
fn exclusive_open_on_shared_held_device_fails_with_busy() {
    let mut reg: Registry<Serial<VirtualSerial>> = Registry::new();
    register_device(&mut reg, Serial::new(VirtualSerial::new()), "d0").unwrap();
    let h = find(&reg, "d0").unwrap();
    let d = reg.driver_at(h);
    let g1 = d.open(&OpenFlag::zero()).unwrap();
    match d.open(&exclusive()) {
        Err(IOError::OpenError) => {}
        _ => panic!("a shared-held device must answer an exclusive request with busy"),
    }
    d.release(g1).unwrap();
}

#[test]
fn shared_sessions_initialize_once_and_tear_down_once() {
    let mut reg: Registry<Serial<VirtualSerial>> = Registry::new();
    register_device(&mut reg, Serial::new(VirtualSerial::new()), "d0").unwrap();
    let h = find(&reg, "d0").unwrap();
    let d = reg.driver_at(h);

    let g1 = d.open(&OpenFlag::zero()).unwrap();
    assert!(g1.is_master());
    let g2 = d.open(&OpenFlag::zero()).unwrap();
    assert!(g2.is_user());
    assert_eq!(d.ops.dev.init_count, 1);
    assert_eq!(d.open_num, 2);
    assert!(d.open_able);

    d.release(g1).unwrap();
    assert_eq!(d.open_num, 1);
    assert_eq!(d.ops.dev.uninit_count, 0);

    d.release(g2).unwrap();
    assert_eq!(d.open_num, 0);
    assert!(d.open_able);
    assert_eq!(d.ops.dev.uninit_count, 1);
}

#[test]
fn exclusive_session_initializes_once_and_tears_down_once() {
    let mut reg: Registry<Serial<VirtualSerial>> = Registry::new();
    register_device(&mut reg, Serial::new(VirtualSerial::new()), "d0").unwrap();
    let h = find(&reg, "d0").unwrap();
    let d = reg.driver_at(h);
    let g = d.open(&exclusive()).unwrap();
    assert!(!d.open_able);
    assert_eq!(d.open_num, 0);
    assert_eq!(d.ops.dev.init_count, 1);
    d.release(g).unwrap();
    assert!(d.open_able);
    assert_eq!(d.ops.dev.uninit_count, 1);
}

#[test]
fn exclusive_hold_and_shared_count_never_overlap() {
    let mut reg: Registry<Serial<VirtualSerial>> = Registry::new();
    register_device(&mut reg, Serial::new(VirtualSerial::new()), "d0").unwrap();
    let h = find(&reg, "d0").unwrap();
    let d = reg.driver_at(h);
    assert!(!(d.open_able == false && d.open_num > 0));
    let g = d.open(&exclusive()).unwrap();
    assert!(!(d.open_able == false && d.open_num > 0));
    d.release(g).unwrap();
    assert!(!(d.open_able == false && d.open_num > 0));
    let g1 = d.open(&OpenFlag::zero()).unwrap();
    let g2 = d.open(&OpenFlag::zero()).unwrap();
    assert!(!(d.open_able == false && d.open_num > 0));
    d.release(g2).unwrap();
    d.release(g1).unwrap();
    assert!(!(d.open_able == false && d.open_num > 0));
}

#[test]
fn releasing_an_idle_device_is_a_reported_error() {
    let mut reg: Registry<Serial<VirtualSerial>> = Registry::new();
    register_device(&mut reg, Serial::new(VirtualSerial::new()), "d0").unwrap();
    let h = find(&reg, "d0").unwrap();
    let d = reg.driver_at(h);
    let g = d.open(&OpenFlag::zero()).unwrap();
    d.release(g).unwrap();
    let stale = devkit::guard::DriverGuard { o_type: OpenType::Master };
    match d.release(stale) {
        Err(IOError::CloseError) => {}
        _ => panic!("a release on an idle device must be a reported error"),
    }
    assert!(d.open_able);
    assert_eq!(d.open_num, 0);
}

#[test]
fn raw_open_resolves_the_three_open_kinds() {
    let mut reg: Registry<Serial<VirtualSerial>> = Registry::new();
    register_device(&mut reg, Serial::new(VirtualSerial::new()), "d0").unwrap();
    let h = find(&reg, "d0").unwrap();
    let d = reg.driver_at(h);
    assert_eq!(raw_open(d, &OpenFlag::zero()).unwrap(), OpenType::Master);
    assert_eq!(raw_open(d, &OpenFlag::zero()).unwrap(), OpenType::User);
    let g1 = devkit::guard::DriverGuard { o_type: OpenType::User };
    let g2 = devkit::guard::DriverGuard { o_type: OpenType::Master };
    d.release(g1).unwrap();
    d.release(g2).unwrap();
    assert_eq!(raw_open(d, &exclusive()).unwrap(), OpenType::Only);
}

#[test]
fn guard_kind_queries_are_exclusive_of_each_other() {
    let only = devkit::guard::DriverGuard { o_type: OpenType::Only };
    assert!(only.is_only() && !only.is_master() && !only.is_user());
    let master = devkit::guard::DriverGuard { o_type: OpenType::Master };
    assert!(!master.is_only() && master.is_master() && !master.is_user());
    let user = devkit::guard::DriverGuard { o_type: OpenType::User };
    assert!(!user.is_only() && !user.is_master() && user.is_user());
}
