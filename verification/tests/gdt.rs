use boot_hal::gdt::{Gdtr, SegmentDescriptor};

#[test]
fn base_of_all_zero_fragments_is_zero() {
    let bytes: [u8; 8] = [0, 0, 0, 0, 0, 0, 0, 0];
    let d = SegmentDescriptor::from_bytes(&bytes, 0);
    assert_eq!(d.base(), 0);
}

#[test]
fn base_concatenates_three_fragments() {
    // base-low 0x1234, base-mid 0x56, base-high 0x78.
    let bytes: [u8; 8] = [0x00, 0x00, 0x34, 0x12, 0x56, 0x00, 0x00, 0x78];
    let d = SegmentDescriptor::from_bytes(&bytes, 0);
    assert_eq!(d.base(), 0x78561234);
}

#[test]
fn limit_concatenates_two_fragments() {
    // limit-low 0xffff, limit-high nibble 0xf.
    let bytes: [u8; 8] = [0xff, 0xff, 0x00, 0x00, 0x00, 0x00, 0x0f, 0x00];
    let d = SegmentDescriptor::from_bytes(&bytes, 0);
    assert_eq!(d.limit(), 0xfffff);
}

#[test]
fn access_byte_fields_decode() {
    // Access byte 0b1011_1010: present, privilege level 1, system-segment
    // flag set, type 0xa.
    let bytes: [u8; 8] = [0, 0, 0, 0, 0, 0xba, 0, 0];
    let d = SegmentDescriptor::from_bytes(&bytes, 0);
    assert!(d.is_present());
    assert_eq!(d.privilege_level(), 1);
    assert!(d.is_system_segment());
    assert_eq!(d.segment_type(), 0xa);
}

#[test]
fn flags_byte_fields_decode() {
    // Flags byte 0b1010_0000: granularity set, operation size clear,
    // long mode set, not available.
    let bytes: [u8; 8] = [0, 0, 0, 0, 0, 0, 0xa0, 0];
    let d = SegmentDescriptor::from_bytes(&bytes, 0);
    assert_eq!(d.granularity(), 1);
    assert_eq!(d.operation_size(), 0);
    assert!(d.is_64bits());
    assert!(!d.is_available());
}

#[test]
fn zero_limit_table_is_valid_and_empty() {
    let gdtr = Gdtr { limit: 0, base: 0 };
    assert_eq!(gdtr.descriptor_count(), 0);
    let bytes: [u8; 1] = [0];
    let table = gdtr.descriptor_table(&bytes);
    assert_eq!(table.len(), 0);
}

#[test]
fn limit_15_table_decodes_two_records_independently() {
    let gdtr = Gdtr { limit: 15, base: 0 };
    assert_eq!(gdtr.descriptor_count(), 2);
    let mut bytes: Vec<u8> = vec![0x00, 0x00, 0x34, 0x12, 0x56, 0x00, 0x00, 0x78];
    bytes.extend_from_slice(&[0xff, 0xff, 0x00, 0x00, 0x00, 0x9a, 0x0f, 0x00]);
    let table = gdtr.descriptor_table(&bytes);
    assert_eq!(table.len(), 2);
    assert_eq!(table[0].base(), 0x78561234);
    assert_eq!(table[0].limit(), 0);
    assert_eq!(table[1].base(), 0);
    assert_eq!(table[1].limit(), 0xfffff);
    assert!(table[1].is_present());
    assert_eq!(table[1].segment_type(), 0xa);
}
