use waterfall::ata::{drive_select_value, DriveSelection};
use waterfall::allocator::list_index;
use waterfall::ata::{
    classify_signature, command_params, is_floating_bus, DeviceKind, Drive, IdentifyResponse,
    SizeUnit, BLOCK_SIZE,
};

fn identify(model: &str, serial: &str, blocks: u32) -> Vec<u16> {
    let mut words = vec![0u16; 256];
    let put = |words: &mut Vec<u16>, from: usize, len: usize, text: &str| {
        let mut bytes: Vec<u8> = text.bytes().collect();
        bytes.resize(len, b' ');
        for i in 0..len / 2 {
            words[from + i] = u16::from_be_bytes([bytes[2 * i], bytes[2 * i + 1]]);
        }
    };
    put(&mut words, 10, 20, serial);
    put(&mut words, 27, 40, model);
    words[60] = (blocks & 0xFFFF) as u16;
    words[61] = (blocks >> 16) as u16;
    words
}

#[test]
fn open_reads_identify_data() {
    let resp = IdentifyResponse::Ata(identify("QEMU HARDDISK", "QM00001", 0x0002_0000));
    let d = Drive::open(0, 1, &resp).unwrap();
    assert_eq!((d.bus, d.dsk), (0, 1));
    assert_eq!(d.model(), "QEMU HARDDISK");
    assert_eq!(d.serial(), "QM00001");
    assert_eq!(d.block_count(), 0x0002_0000);
    assert_eq!(d.block_size(), 512);
    assert_eq!(Drive::size(), BLOCK_SIZE);
    assert_eq!(d.humanized_size(), (64, SizeUnit::MB));
}

#[test]
fn only_ata_drives_open() {
    assert!(Drive::open(0, 0, &IdentifyResponse::Atapi).is_none());
    assert!(Drive::open(0, 0, &IdentifyResponse::Sata).is_none());
    assert!(Drive::open(0, 0, &IdentifyResponse::Absent).is_none());
}

#[test]
fn large_drives_are_shown_in_gigabytes() {
    let resp = IdentifyResponse::Ata(identify("DISK", "S", 4_194_304));
    let mut d = Drive::open(1, 0, &resp).unwrap();
    assert_eq!(d.humanized_size(), (2, SizeUnit::GB));
    assert_eq!(SizeUnit::GB.as_str(), "GB");
    assert!(!d.at_end());
    d.advance();
    assert_eq!(d.block_index(), 1);
}

#[test]
fn sequential_reads_stop_at_the_end() {
    let resp = IdentifyResponse::Ata(identify("D", "S", 1));
    let mut d = Drive::open(0, 0, &resp).unwrap();
    assert!(!d.at_end());
    d.advance();
    assert!(d.at_end());
}

#[test]
fn signatures_and_floating_bus() {
    assert_eq!(classify_signature(0, 0), Some(DeviceKind::Ata));
    assert_eq!(classify_signature(0x14, 0xEB), Some(DeviceKind::Atapi));
    assert_eq!(classify_signature(0x3C, 0xC3), Some(DeviceKind::Sata));
    assert_eq!(classify_signature(1, 2), None);
    assert!(is_floating_bus(0xFF));
    assert!(is_floating_bus(0x7F));
    assert!(!is_floating_bus(0x50));
}

#[test]
fn lba_parameters() {
    assert_eq!(command_params(0, 0x0123_4567), [0x67, 0x45, 0x23, 0xE1]);
    assert_eq!(command_params(1, 0x0123_4567), [0x67, 0x45, 0x23, 0xF1]);
    assert_eq!(command_params(0, 0xFF00_0000), [0, 0, 0, 0xEF]);
}

#[test]
fn block_classes() {
    assert_eq!(list_index(1, 1), Some(0));
    assert_eq!(list_index(8, 8), Some(0));
    assert_eq!(list_index(9, 1), Some(1));
    assert_eq!(list_index(24, 64), Some(3));
    assert_eq!(list_index(2048, 8), Some(8));
    assert_eq!(list_index(2049, 8), None);
}

#[test]
fn reselecting_a_drive_skips_the_write() {
    let mut sel = DriveSelection::new();
    assert!(sel.select(0, 1));
    assert!(!sel.select(0, 1));
    assert!(sel.select(1, 1));
    assert!(sel.select(0, 1));
    assert_eq!(drive_select_value(0), 0xA0);
    assert_eq!(drive_select_value(1), 0xB0);
}
