use devkit::api::DevOpen;
use devkit::async_rw::{read_poll_decision, write_poll_decision, AsyncPoll, Waiter};
use devkit::data::{OpenFlag, StdData};
use devkit::device::serial::{BspAsyncSerial, Serial};
use devkit::device::virtual_dev::VirtualSerial;
use devkit::driver::{Driver, DriverOps};
use devkit::error::IOError;

fn async_read_flag() -> OpenFlag {
    let mut f = OpenFlag::zero();
    f.set_read_async(true);
    f
}

#[test]
fn suspended_read_is_resumed_by_exactly_one_notification() {
    let mut d = Driver::new(Serial::new(VirtualSerial::new()));
    let g = d.open(&async_read_flag()).unwrap();

    let fut = d.async_read(&g, 0, 1).unwrap();
    match fut.poll(&mut d, &g, Waiter(7)) {
        AsyncPoll::Pending => {}
        _ => panic!("an empty buffer must suspend the read"),
    }

    d.ops.irq_receive_char(b'k');
    assert_eq!(d.ops.notify_form_irq(), Some(Waiter(7)));

    match fut.poll(&mut d, &g, Waiter(7)) {
        AsyncPoll::Ready(Ok(StdData::U32(v))) => assert_eq!(v, b'k' as u32),
        _ => panic!("the resumed poll must complete with the pushed byte"),
    }
    d.release(g).unwrap();
}

#[test]
fn notify_without_a_waiter_is_a_no_op() {
    let mut d = Driver::new(Serial::new(VirtualSerial::new()));
    let g = d.open(&async_read_flag()).unwrap();
    assert_eq!(d.ops.notify_form_irq(), None);
    d.release(g).unwrap();
}

#[test]
fn a_registration_is_never_notified_twice() {
    let mut q = BspAsyncSerial::new();
    q.register(Waiter(1));
    q.register(Waiter(2));
    assert_eq!(q.notify(), Some(Waiter(1)));
    assert_eq!(q.notify(), Some(Waiter(2)));
    assert_eq!(q.notify(), None);
}

#[test]
fn waiter_queue_is_first_registered_first_notified() {
    let mut q = BspAsyncSerial::new();
    q.register(Waiter(10));
    q.register(Waiter(11));
    q.register(Waiter(12));
    assert_eq!(q.notify(), Some(Waiter(10)));
    q.register(Waiter(13));
    assert_eq!(q.notify(), Some(Waiter(11)));
    assert_eq!(q.notify(), Some(Waiter(12)));
    assert_eq!(q.notify(), Some(Waiter(13)));
    assert_eq!(q.notify(), None);
}

#[test]
fn destroy_drops_every_registration() {
    let mut q = BspAsyncSerial::new();
    q.register(Waiter(1));
    q.destroy();
    assert_eq!(q.notify(), None);
}

#[test]
fn read_decision_completes_suspends_or_fails() {
    match read_poll_decision(Ok(StdData::U32(5))) {
        AsyncPoll::Ready(Ok(StdData::U32(5))) => {}
        _ => panic!("data must complete the operation"),
    }
    match read_poll_decision(Ok(StdData::Null)) {
        AsyncPoll::Pending => {}
        _ => panic!("no data must suspend the operation"),
    }
    match read_poll_decision(Err(IOError::ControlError)) {
        AsyncPoll::Ready(Err(IOError::ReadError)) => {}
        _ => panic!("an error must complete the operation as a read failure"),
    }
}

#[test]
fn write_decision_suspends_only_on_transient_busy() {
    assert!(write_poll_decision(&Err(IOError::WriteBusy)));
    assert!(!write_poll_decision(&Ok(())));
    assert!(!write_poll_decision(&Err(IOError::WriteError)));
}

#[test]
fn suspended_write_retries_after_the_target_becomes_ready() {
    let mut d = Driver::new(Serial::new(VirtualSerial::new()));
    let g = d.open(&OpenFlag::zero()).unwrap();
    d.ops.dev.ready = false;
    let fut = d.async_write(&g, 0, 65u32).unwrap();
    match fut.poll(&mut d, &g, Waiter(3)) {
        AsyncPoll::Pending => {}
        _ => panic!("a busy target must suspend the write"),
    }
    d.ops.dev.ready = true;
    match fut.poll(&mut d, &g, Waiter(3)) {
        AsyncPoll::Ready(Ok(())) => {}
        _ => panic!("the retried write must succeed"),
    }
    assert_eq!(d.ops.dev.output, vec![65]);
    d.release(g).unwrap();
}

#[test]
fn async_operations_are_refused_on_an_exclusively_held_device() {
    let mut only = OpenFlag::zero();
    only.set_only(true);
    let mut d = Driver::new(Serial::new(VirtualSerial::new()));
    let g = d.open(&only).unwrap();
    match d.async_read(&g, 0, 1) {
        Err(IOError::ReadError) => {}
        _ => panic!("an exclusively held device must refuse an asynchronous read"),
    }
    assert!(d.async_write(&g, 0, 65u32).is_err());
    d.release(g).unwrap();
}
