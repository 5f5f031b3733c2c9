use devkit::api::DevOpen;
use devkit::async_rw::Waiter;
use devkit::data::{OpenFlag, StdData, ToMakeStdData};
use devkit::device::led::{DeviceLed, Led, LedState, ToLedState};
use devkit::device::virtual_dev::{VirtualBspLed, VirtualLedState};
use devkit::device::DeviceOps;
use devkit::driver::{Driver, DriverOps};
use devkit::error::IOError;

#[test]
fn led_writes_drive_the_output_and_reads_echo_it() {
    let mut d = Driver::new(Led::new(VirtualBspLed::new()));
    let g = d.open(&OpenFlag::zero()).unwrap();
    d.write(&g, 0, LedState::On.make_data()).unwrap();
    match d.read(&g, 0, 1) {
        Ok(StdData::U32(1)) => {}
        _ => panic!("a lit output must read back as 1"),
    }
    d.write(&g, 0, LedState::Off.make_data()).unwrap();
    match d.read(&g, 0, 1) {
        Ok(StdData::U32(0)) => {}
        _ => panic!("a dark output must read back as 0"),
    }
    d.release(g).unwrap();
    assert!(matches!(d.ops.dev.0.state, VirtualLedState::Uninit));
}

#[test]
fn led_write_rejects_non_scalar_payloads() {
    let mut d = Driver::new(Led::new(VirtualBspLed::new()));
    let g = d.open(&OpenFlag::zero()).unwrap();
    match d.write(&g, 0, StdData::Bytes(vec![1])) {
        Err(IOError::DataError) => {}
        _ => panic!("a payload that is not a scalar is a marshalling mismatch"),
    }
    d.release(g).unwrap();
}

#[test]
fn led_understands_no_control_payload() {
    let mut d = Driver::new(Led::new(VirtualBspLed::new()));
    let g = d.open(&OpenFlag::zero()).unwrap();
    match d.control(&g, StdData::U32(1)) {
        Err(IOError::ControlError) => {}
        _ => panic!("a binary output must refuse every control payload"),
    }
    d.release(g).unwrap();
}

#[test]
fn led_refuses_async_registration() {
    let mut led = Led::new(VirtualBspLed::new());
    led.dev.init().ok();
    match led.register_read_callback(Waiter(1)) {
        Err(IOError::DeviceOpsError) => {}
        _ => panic!("a binary output supports no asynchronous reads"),
    }
    match led.register_write_callback(Waiter(1)) {
        Err(IOError::DeviceOpsError) => {}
        _ => panic!("a binary output supports no asynchronous writes"),
    }
}

#[test]
fn scalar_one_and_zero_decode_as_led_states() {
    assert!(matches!(StdData::U32(1).to_led_state(), LedState::On));
    assert!(matches!(StdData::U32(0).to_led_state(), LedState::Off));
}
