use msnchat_rs::patcher::{MemoryImage, PageProtection};
use msnchat_rs::plan::{apply_plan, PatchWrite};

fn image() -> MemoryImage {
    MemoryImage::new(0x37200000, vec![0xCC; 16])
}

#[test]
fn patch_writes_payload_and_restores_protection() {
    let mut m = image();
    assert!(m.patch_bytes(0x37200004, &[1, 2, 3]));
    assert_eq!(m.bytes, vec![
        0xCC, 0xCC, 0xCC, 0xCC, 1, 2, 3, 0xCC, 0xCC, 0xCC, 0xCC, 0xCC, 0xCC, 0xCC, 0xCC, 0xCC
    ]);
    assert_eq!(m.protection, PageProtection::ReadExecute);
}

#[test]
fn patch_twice_is_idempotent() {
    // Writing the same payload twice: the final content equals the payload,
    // protection is restored, and a third read returns the same bytes.
    let mut m = image();
    assert!(m.patch_bytes(0x37200004, &[1, 2, 3]));
    let after_first = m.bytes.clone();
    assert!(m.patch_bytes(0x37200004, &[1, 2, 3]));
    assert_eq!(m.bytes, after_first);
    assert_eq!(m.protection, PageProtection::ReadExecute);
    assert_eq!(m.read_byte(0x37200004), 1);
    assert_eq!(m.read_byte(0x37200005), 2);
    assert_eq!(m.read_byte(0x37200006), 3);
    let third_read = m.bytes.clone();
    assert_eq!(third_read, after_first);
}

#[test]
fn empty_patch_is_rejected() {
    let mut m = image();
    assert!(!m.patch_bytes(0x37200004, &[]));
    assert_eq!(m.bytes, vec![0xCC; 16]);
}

#[test]
fn null_address_is_rejected() {
    let mut m = MemoryImage::new(1, vec![0xCC; 4]);
    assert!(!m.patch_bytes(0, &[1]));
    assert_eq!(m.bytes, vec![0xCC; 4]);
}

#[test]
fn out_of_range_write_leaves_memory_unmodified() {
    let mut m = image();
    assert!(!m.patch_bytes(0x37200000 + 14, &[1, 2, 3]));
    assert!(!m.patch_bytes(0x371FFFFF, &[1]));
    assert_eq!(m.bytes, vec![0xCC; 16]);
    assert_eq!(m.protection, PageProtection::ReadExecute);
}

#[test]
fn plan_applies_in_order_and_skips_failures() {
    // A failing entry must not stop the entries after it.
    let mut m = image();
    let plan = vec![
        PatchWrite { address: 0x37200000, bytes: vec![0xAA, 0xBB] },
        PatchWrite { address: 0x37200100, bytes: vec![0x11] }, // out of range: skipped
        PatchWrite { address: 0x3720000E, bytes: vec![0xEE, 0xFF] },
    ];
    let applied = apply_plan(&mut m, &plan);
    assert_eq!(applied, 2);
    assert_eq!(m.bytes[0], 0xAA);
    assert_eq!(m.bytes[1], 0xBB);
    assert_eq!(m.bytes[14], 0xEE);
    assert_eq!(m.bytes[15], 0xFF);
    assert_eq!(m.bytes[2], 0xCC);
}

#[test]
fn later_plan_entry_overwrites_earlier_one() {
    let mut m = image();
    let plan = vec![
        PatchWrite { address: 0x37200000, bytes: vec![1, 1, 1] },
        PatchWrite { address: 0x37200001, bytes: vec![2] },
    ];
    assert_eq!(apply_plan(&mut m, &plan), 2);
    assert_eq!(&m.bytes[0..3], &[1, 2, 1]);
}
