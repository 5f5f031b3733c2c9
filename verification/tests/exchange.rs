use devkit::data::{OpenFlag, StdData, ToMakeStdData, TypedData};
use devkit::device::led::LedState;
use devkit::device::serial::{SerialBaudRate, SerialConfig};
use devkit::device::spi_flash::{EraseFlash, FlashInfo, GetFlashInfo, SyncFlash};

#[test]
fn take_bytes_extracts_or_returns_original() {
    let d = StdData::Bytes(vec![1, 2, 3]);
    assert_eq!(d.take_bytes().unwrap(), vec![1, 2, 3]);
    let d = StdData::U32(7);
    match d.take_bytes() {
        Err(StdData::U32(7)) => {}
        _ => panic!("mismatched tag must hand the value back unchanged"),
    }
}

#[test]
fn take_u32_extracts_or_returns_original() {
    assert_eq!(StdData::U32(9).take_u32().unwrap(), 9);
    match StdData::U8(3).take_u32() {
        Err(StdData::U8(3)) => {}
        _ => panic!("mismatched tag must hand the value back unchanged"),
    }
}

#[test]
fn take_u8_extracts_or_returns_original() {
    assert_eq!(StdData::U8(200).take_u8().unwrap(), 200);
    match StdData::Null.take_u8() {
        Err(StdData::Null) => {}
        _ => panic!("mismatched tag must hand the value back unchanged"),
    }
}

#[test]
fn take_type_extracts_or_returns_original() {
    let d = StdData::Type(TypedData::FlashSync(SyncFlash));
    match d.take_type() {
        Ok(TypedData::FlashSync(_)) => {}
        _ => panic!("typed payload expected"),
    }
    match StdData::U32(1).take_type() {
        Err(StdData::U32(1)) => {}
        _ => panic!("mismatched tag must hand the value back unchanged"),
    }
}

#[test]
fn take_flag_extracts_or_returns_original() {
    let mut f = OpenFlag::zero();
    f.set_only(true);
    let d = StdData::OpenFlag(f);
    assert!(d.take_flag().unwrap().get_only());
    match StdData::Null.take_flag() {
        Err(StdData::Null) => {}
        _ => panic!("mismatched tag must hand the value back unchanged"),
    }
}

#[test]
fn is_null_is_exact() {
    assert!(StdData::Null.is_null());
    assert!(!StdData::U32(0).is_null());
}

#[test]
fn scalar_makers_carry_their_value() {
    match 5u32.make_data() {
        StdData::U32(5) => {}
        _ => panic!("u32 must become a 32-bit scalar"),
    }
    match 6u8.make_data() {
        StdData::U8(6) => {}
        _ => panic!("u8 must become an 8-bit scalar"),
    }
}

#[test]
fn flag_maker_echoes_the_configuration() {
    let mut f = OpenFlag::zero();
    f.set_read_async(true);
    match f.make_data() {
        StdData::OpenFlag(g) => assert!(g.get_read_async()),
        _ => panic!("configuration must echo as a configuration"),
    }
}

#[test]
fn str_maker_yields_its_bytes() {
    match "hi".make_data() {
        StdData::Bytes(v) => assert_eq!(v, vec![b'h', b'i']),
        _ => panic!("a str must become its bytes"),
    }
}

#[test]
fn led_state_maker_encodes_on_and_off() {
    match LedState::On.make_data() {
        StdData::U32(1) => {}
        _ => panic!("lit encodes as 1"),
    }
    match LedState::Off.make_data() {
        StdData::U32(0) => {}
        _ => panic!("dark encodes as 0"),
    }
}

#[test]
fn config_makers_ride_as_typed_payloads() {
    match SerialConfig::Baud(SerialBaudRate::B115200).make_data() {
        StdData::Type(TypedData::Serial(SerialConfig::Baud(SerialBaudRate::B115200))) => {}
        _ => panic!("serial configuration must ride as a typed payload"),
    }
    match GetFlashInfo.make_data() {
        StdData::Type(TypedData::FlashGet(_)) => {}
        _ => panic!("geometry query must ride as a typed payload"),
    }
    match EraseFlash(4).make_data() {
        StdData::Type(TypedData::FlashErase(EraseFlash(4))) => {}
        _ => panic!("erase command must ride as a typed payload"),
    }
    let info = FlashInfo { sector_count: 2, bytes_per_sector: 16, block_size: 256 };
    match info.make_data() {
        StdData::Type(TypedData::FlashInfo(i)) => assert_eq!(i, info),
        _ => panic!("geometry answer must ride as a typed payload"),
    }
}
