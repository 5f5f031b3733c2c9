use devkit::api::DevOpen;
use devkit::data::{OpenFlag, StdData};
use devkit::device::serial_simple::SerialSimple;
use devkit::device::virtual_dev::VirtualSerialSimple;
use devkit::driver::{Driver, DriverOps};
use devkit::error::IOError;

#[test]
fn simple_write_buffers_bytes_and_nudges_the_device() {
    let mut d = Driver::new(SerialSimple::new(VirtualSerialSimple::new()));
    let g = d.open(&OpenFlag::zero()).unwrap();
    d.write(&g, 0, StdData::Bytes(vec![1, 2])).unwrap();
    assert_eq!(d.ops.dev.nudges, 1);
    match d.read(&g, 0, 1) {
        Ok(StdData::U32(1)) => {}
        _ => panic!("the oldest buffered byte must come first"),
    }
    match d.read(&g, 0, 1) {
        Ok(StdData::U32(2)) => {}
        _ => panic!("bytes must come back in order"),
    }
    match d.read(&g, 0, 1) {
        Err(IOError::ReadEmpty) => {}
        _ => panic!("an empty buffer must report read-empty"),
    }
    d.release(g).unwrap();
}

#[test]
fn simple_write_accepts_scalars_and_ignores_foreign_payloads() {
    let mut d = Driver::new(SerialSimple::new(VirtualSerialSimple::new()));
    let g = d.open(&OpenFlag::zero()).unwrap();
    d.write(&g, 0, StdData::U32(65)).unwrap();
    d.write(&g, 0, StdData::U8(66)).unwrap();
    d.write(&g, 0, StdData::Null).unwrap();
    match d.read(&g, 0, 1) {
        Ok(StdData::U32(65)) => {}
        _ => panic!("the first scalar must come back first"),
    }
    match d.read(&g, 0, 1) {
        Ok(StdData::U32(66)) => {}
        _ => panic!("the second scalar must follow"),
    }
    d.release(g).unwrap();
}

#[test]
fn simple_control_is_refused() {
    let mut d = Driver::new(SerialSimple::new(VirtualSerialSimple::new()));
    let g = d.open(&OpenFlag::zero()).unwrap();
    match d.control(&g, StdData::Null) {
        Err(IOError::ControlError) => {}
        _ => panic!("a self-driving serial device understands no control payload"),
    }
    d.release(g).unwrap();
}

#[test]
fn simple_write_evicts_the_oldest_bytes_when_the_buffer_overflows() {
    let mut d = Driver::new(SerialSimple::new(VirtualSerialSimple::new()));
    let g = d.open(&OpenFlag::zero()).unwrap();
    let payload: Vec<u8> = (0..70u8).collect();
    d.write(&g, 0, StdData::Bytes(payload)).unwrap();
    match d.read(&g, 0, 1) {
        Ok(StdData::U32(v)) => assert_eq!(v, 7),
        _ => panic!("the buffer keeps only the newest bytes, so the oldest surviving one is 7"),
    }
    d.release(g).unwrap();
}
