use devkit::api::DevOpen;
use devkit::data::{OpenFlag, StdData, ToMakeStdData};
use devkit::device::serial::{Serial, SerialBaudRate, SerialConfig};
use devkit::device::virtual_dev::VirtualSerial;
use devkit::driver::{Driver, DriverOps};
use devkit::error::IOError;

fn int_read_flag() -> OpenFlag {
    let mut f = OpenFlag::zero();
    f.set_read_int(true);
    f
}

#[test]
fn interrupt_mode_read_pops_the_ring_buffer() {
    let mut d = Driver::new(Serial::new(VirtualSerial::new()));
    let g = d.open(&int_read_flag()).unwrap();
    d.ops.irq_receive_char(b'x');
    d.ops.irq_receive_char(b'y');
    match d.read(&g, 0, 1) {
        Ok(StdData::U32(v)) => assert_eq!(v, b'x' as u32),
        _ => panic!("a buffered character must come back as a scalar"),
    }
    match d.read(&g, 0, 1) {
        Ok(StdData::U32(v)) => assert_eq!(v, b'y' as u32),
        _ => panic!("characters must come back in arrival order"),
    }
    match d.read(&g, 0, 1) {
        Ok(StdData::Null) => {}
        _ => panic!("an empty buffer must read as no data"),
    }
    d.release(g).unwrap();
}

#[test]
fn plain_read_takes_a_character_or_reports_empty() {
    let mut d = Driver::new(Serial::new(VirtualSerial::new()));
    let g = d.open(&OpenFlag::zero()).unwrap();
    match d.read(&g, 0, 1) {
        Err(IOError::ReadEmpty) => {}
        _ => panic!("a device with nothing to read must report read-empty"),
    }
    d.ops.dev.feed(b'z');
    match d.read(&g, 0, 1) {
        Ok(StdData::U32(v)) => assert_eq!(v, b'z' as u32),
        _ => panic!("a ready character must be read"),
    }
    d.release(g).unwrap();
}

#[test]
fn buffered_write_queues_bytes_and_the_interrupt_drains_them() {
    let mut d = Driver::new(Serial::new(VirtualSerial::new()));
    let g = d.open(&OpenFlag::zero()).unwrap();
    d.write(&g, 0, "ab".make_data()).unwrap();
    assert!(d.ops.dev.tx_irq);
    assert!(!d.sync(&g));
    d.ops.irq_send_char();
    d.ops.irq_send_char();
    assert_eq!(d.ops.dev.output, vec![b'a', b'b']);
    assert!(d.sync(&g));
    d.ops.irq_send_char();
    assert!(!d.ops.dev.tx_irq);
    d.release(g).unwrap();
}

#[test]
fn overfull_buffered_write_returns_the_unsent_tail() {
    let mut d = Driver::new(Serial::new(VirtualSerial::new()));
    let g = d.open(&OpenFlag::zero()).unwrap();
    d.control(&g, SerialConfig::WBufSize(4).make_data()).unwrap();
    let payload = StdData::Bytes(vec![1, 2, 3, 4, 5]);
    match d.write(&g, 0, payload) {
        Err(IOError::WriteFull(StdData::Bytes(rest))) => assert_eq!(rest, vec![4, 5]),
        _ => panic!("the unsent remainder must come back for retry"),
    }
    d.release(g).unwrap();
}

#[test]
fn scalar_write_is_busy_until_the_device_is_ready() {
    let mut d = Driver::new(Serial::new(VirtualSerial::new()));
    let g = d.open(&OpenFlag::zero()).unwrap();
    d.ops.dev.ready = false;
    match d.write(&g, 0, 65u32.make_data()) {
        Err(IOError::WriteBusy) => {}
        _ => panic!("a not-ready device must answer write-busy"),
    }
    d.ops.dev.ready = true;
    d.write(&g, 0, 65u32.make_data()).unwrap();
    d.write(&g, 0, 66u8.make_data()).unwrap();
    assert_eq!(d.ops.dev.output, vec![65, 66]);
    d.release(g).unwrap();
}

#[test]
fn device_paced_write_hands_back_what_the_device_refused() {
    let mut fl = OpenFlag::zero();
    fl.set_write_block(true);
    let mut d = Driver::new(Serial::new(VirtualSerial::new()));
    let g = d.open(&fl).unwrap();
    d.ops.dev.ready = false;
    match d.write(&g, 0, StdData::Bytes(vec![7, 8])) {
        Err(IOError::WriteFull(StdData::Bytes(rest))) => assert_eq!(rest, vec![7, 8]),
        _ => panic!("a refused payload must come back whole"),
    }
    d.ops.dev.ready = true;
    d.write(&g, 0, StdData::Bytes(vec![7, 8])).unwrap();
    assert_eq!(d.ops.dev.output, vec![7, 8]);
    d.release(g).unwrap();
}

#[test]
fn write_rejects_payloads_no_stream_understands() {
    let mut d = Driver::new(Serial::new(VirtualSerial::new()));
    let g = d.open(&OpenFlag::zero()).unwrap();
    match d.write(&g, 0, StdData::Null) {
        Err(IOError::WriteError) => {}
        _ => panic!("no-data must be rejected as a write error"),
    }
    d.release(g).unwrap();
}

#[test]
fn control_reconfigures_baud_and_rejects_foreign_payloads() {
    let mut d = Driver::new(Serial::new(VirtualSerial::new()));
    let g = d.open(&OpenFlag::zero()).unwrap();
    match d.control(&g, SerialConfig::Baud(SerialBaudRate::B9600).make_data()) {
        Ok(StdData::Null) => {}
        _ => panic!("a baud change must be accepted"),
    }
    assert_eq!(d.ops.dev.baud, Some(SerialBaudRate::B9600));
    match d.control(&g, StdData::U32(3)) {
        Err(IOError::ControlError) => {}
        _ => panic!("a foreign payload must be a control error"),
    }
    match d.control(&g, SerialConfig::RBufSize(1).make_data()) {
        Err(IOError::ControlError) => {}
        _ => panic!("a buffer too small to operate must be rejected"),
    }
    d.release(g).unwrap();
}

#[test]
fn close_clears_buffers_and_waiters() {
    let mut fl = OpenFlag::zero();
    fl.set_read_int(true);
    let mut d = Driver::new(Serial::new(VirtualSerial::new()));
    let g = d.open(&fl).unwrap();
    d.ops.irq_receive_char(b'q');
    d.release(g).unwrap();
    let g = d.open(&fl).unwrap();
    match d.read(&g, 0, 1) {
        Ok(StdData::Null) => {}
        _ => panic!("a fresh session must start with an empty buffer"),
    }
    d.release(g).unwrap();
}

#[test]
fn rx_indicate_is_installed_only_for_callback_style_sessions() {
    let mut d = Driver::new(Serial::new(VirtualSerial::new()));
    let g = d.open(&OpenFlag::zero()).unwrap();
    d.register_rx_indicate(&g, devkit::async_rw::Waiter(9));
    assert_eq!(d.ops.call_rx_indicate(), None);
    d.release(g).unwrap();

    let mut fl = OpenFlag::zero();
    fl.set_read_c_type(true);
    let g = d.open(&fl).unwrap();
    d.register_rx_indicate(&g, devkit::async_rw::Waiter(9));
    assert_eq!(d.ops.call_rx_indicate(), Some(devkit::async_rw::Waiter(9)));
    d.release(g).unwrap();
}

#[test]
fn ring_buffer_eviction_keeps_the_newest_input() {
    let mut fl = OpenFlag::zero();
    fl.set_read_int(true);
    let mut d = Driver::new(Serial::new(VirtualSerial::new()));
    let g = d.open(&fl).unwrap();
    d.control(&g, SerialConfig::RBufSize(3).make_data()).unwrap();
    assert_eq!(d.ops.irq_receive_char(1), None);
    assert_eq!(d.ops.irq_receive_char(2), None);
    assert_eq!(d.ops.irq_receive_char(3), Some(1));
    match d.read(&g, 0, 1) {
        Ok(StdData::U32(v)) => assert_eq!(v, 2),
        _ => panic!("the oldest surviving character must come first"),
    }
    d.release(g).unwrap();
}
