use devkit::api::DevOpen;
use devkit::data::{OpenFlag, StdData, ToMakeStdData, TypedData};
use devkit::device::spi_flash::{flash_geometry, EraseFlash, GetFlashInfo, SpiFlash, SyncFlash};
use devkit::device::virtual_dev::VirtualFlash;
use devkit::driver::{Driver, DriverOps};
use devkit::error::IOError;

#[test]
fn block_write_then_read_round_trips() {
    let mut d = Driver::new(SpiFlash::new(VirtualFlash::new(256, 16)));
    let g = d.open(&OpenFlag::zero()).unwrap();
    d.write(&g, 32, StdData::Bytes(vec![9, 8, 7])).unwrap();
    match d.read(&g, 32, 3) {
        Ok(StdData::Bytes(v)) => assert_eq!(v, vec![9, 8, 7]),
        _ => panic!("programmed bytes must read back"),
    }
    match d.read(&g, 31, 2) {
        Ok(StdData::Bytes(v)) => assert_eq!(v, vec![0, 9]),
        _ => panic!("bytes around the programmed range must be untouched"),
    }
    d.release(g).unwrap();
}

#[test]
fn geometry_query_answers_the_fixed_layout() {
    let mut d = Driver::new(SpiFlash::new(VirtualFlash::new(256, 16)));
    let g = d.open(&OpenFlag::zero()).unwrap();
    match d.control(&g, GetFlashInfo.make_data()) {
        Ok(StdData::Type(TypedData::FlashInfo(info))) => {
            assert_eq!(info.sector_count, 16);
            assert_eq!(info.bytes_per_sector, 16);
            assert_eq!(info.block_size, 256);
        }
        _ => panic!("the geometry query must answer with the fixed layout"),
    }
    d.release(g).unwrap();
}

#[test]
fn geometry_formula_divides_capacity_by_erase_unit() {
    let info = flash_geometry(4096, 256);
    assert_eq!(info.sector_count, 16);
    assert_eq!(info.bytes_per_sector, 256);
    assert_eq!(info.block_size, 4096);
}

#[test]
fn sync_and_erase_commands_are_accepted() {
    let mut d = Driver::new(SpiFlash::new(VirtualFlash::new(64, 16)));
    let g = d.open(&OpenFlag::zero()).unwrap();
    match d.control(&g, SyncFlash.make_data()) {
        Ok(StdData::Null) => {}
        _ => panic!("the sync command must be accepted"),
    }
    match d.control(&g, EraseFlash(0).make_data()) {
        Ok(StdData::Null) => {}
        _ => panic!("the erase command must be accepted"),
    }
    match d.control(&g, StdData::Null) {
        Err(IOError::ControlError) => {}
        _ => panic!("a foreign payload must be a control error"),
    }
    d.release(g).unwrap();
}

#[test]
fn out_of_range_accesses_are_rejected() {
    let mut d = Driver::new(SpiFlash::new(VirtualFlash::new(64, 16)));
    let g = d.open(&OpenFlag::zero()).unwrap();
    match d.read(&g, 60, 5) {
        Err(IOError::ReadError) => {}
        _ => panic!("a read beyond the medium must be a read error"),
    }
    match d.write(&g, 63, StdData::Bytes(vec![1, 2])) {
        Err(IOError::WriteError) => {}
        _ => panic!("a write beyond the medium must be a write error"),
    }
    d.release(g).unwrap();
}

#[test]
fn block_write_rejects_non_byte_payloads() {
    let mut d = Driver::new(SpiFlash::new(VirtualFlash::new(64, 16)));
    let g = d.open(&OpenFlag::zero()).unwrap();
    match d.write(&g, 0, StdData::U32(1)) {
        Err(IOError::DataError) => {}
        _ => panic!("a payload that is not bytes is a marshalling mismatch"),
    }
    d.release(g).unwrap();
}
