use boot_hal::error::Error;
use boot_hal::memory_map::{
    descriptor_at, parse_memory_map, ClientPhase, FirmwareRequest, GetMemoryMapResult,
    MemoryMapClient, UefiMemoryType, UEFI_BUFFER_TOO_SMALL, UEFI_SUCCESS,
};

fn push_u32_le(buffer: &mut Vec<u8>, v: u32) {
    buffer.extend_from_slice(&v.to_le_bytes());
}

fn push_u64_le(buffer: &mut Vec<u8>, v: u64) {
    buffer.extend_from_slice(&v.to_le_bytes());
}

fn push_descriptor(
    buffer: &mut Vec<u8>,
    memory_type: u32,
    physical_start: u64,
    virtual_start: u64,
    page_count: u64,
    attribute: u64,
    stride: usize,
) {
    let start = buffer.len();
    push_u32_le(buffer, memory_type);
    push_u32_le(buffer, 0); // alignment padding inside the record
    push_u64_le(buffer, physical_start);
    push_u64_le(buffer, virtual_start);
    push_u64_le(buffer, page_count);
    push_u64_le(buffer, attribute);
    while buffer.len() < start + stride {
        buffer.push(0);
    }
}

fn size_query_answer(map_size: u32, descriptor_size: u64) -> GetMemoryMapResult {
    GetMemoryMapResult {
        status: UEFI_BUFFER_TOO_SMALL,
        map_size,
        map_key: 0,
        descriptor_size,
        descriptor_version: 1,
    }
}

#[test]
fn new_client_asks_for_the_size_query_first() {
    let client = MemoryMapClient::new();
    assert_eq!(client.phase, ClientPhase::Start);
    assert_eq!(client.next_request(), Some(FirmwareRequest::QuerySize));
}

#[test]
fn size_query_success_status_is_a_firmware_error() {
    // Anything but "buffer too small" — here success with size 0 — is
    // surfaced, and no allocation or fetch is attempted afterward.
    let mut client = MemoryMapClient::new();
    let answer = GetMemoryMapResult {
        status: UEFI_SUCCESS,
        map_size: 0,
        map_key: 0,
        descriptor_size: 40,
        descriptor_version: 1,
    };
    assert_eq!(client.memory_map_size(answer), Err(Error::FirmwareError(UEFI_SUCCESS)));
    assert_eq!(client.phase, ClientPhase::Failed);
    assert_eq!(client.next_request(), None);
}

#[test]
fn size_query_error_status_is_surfaced_with_its_code() {
    let mut client = MemoryMapClient::new();
    let status: u64 = 0x8000_0000_0000_0009;
    let answer = GetMemoryMapResult {
        status,
        map_size: 0,
        map_key: 0,
        descriptor_size: 40,
        descriptor_version: 1,
    };
    assert_eq!(client.memory_map_size(answer), Err(Error::FirmwareError(status)));
    assert_eq!(client.next_request(), None);
}

#[test]
fn size_query_pads_for_two_more_records_at_the_reported_stride() {
    let mut client = MemoryMapClient::new();
    assert_eq!(client.memory_map_size(size_query_answer(400, 48)), Ok(400));
    assert_eq!(
        client.next_request(),
        Some(FirmwareRequest::AllocatePool { pool_type: UefiMemoryType(2), size: 496 })
    );
}

#[test]
fn size_query_stride_below_one_record_is_rejected() {
    // A reported stride smaller than one record would leave the padded
    // buffer short of two true records of headroom.
    let mut client = MemoryMapClient::new();
    assert_eq!(
        client.memory_map_size(size_query_answer(400, 8)),
        Err(Error::FirmwareError(UEFI_BUFFER_TOO_SMALL))
    );
    assert_eq!(client.phase, ClientPhase::Failed);
    assert_eq!(client.next_request(), None);
}

#[test]
fn failed_allocation_is_surfaced_and_stops_the_protocol() {
    let mut client = MemoryMapClient::new();
    assert_eq!(client.memory_map_size(size_query_answer(80, 40)), Ok(80));
    let status: u64 = 0x8000_0000_0000_0009;
    assert_eq!(client.pool_allocated(status), Err(Error::FirmwareError(status)));
    assert_eq!(client.next_request(), None);
}

#[test]
fn full_protocol_retrieves_and_decodes_the_map() {
    let mut client = MemoryMapClient::new();
    assert_eq!(client.memory_map_size(size_query_answer(80, 40)), Ok(80));
    assert_eq!(client.pool_allocated(UEFI_SUCCESS), Ok(()));
    assert_eq!(client.next_request(), Some(FirmwareRequest::FetchMap { size: 160 }));

    let mut buffer: Vec<u8> = Vec::new();
    push_descriptor(&mut buffer, 2, 0x0010_0000, 0, 16, 0xf, 40);
    push_descriptor(&mut buffer, 7, 0x0020_0000, 0x0020_0000, 256, 0x8, 40);
    buffer.resize(160, 0);

    let fetched = GetMemoryMapResult {
        status: UEFI_SUCCESS,
        map_size: 80,
        map_key: 0xfeed,
        descriptor_size: 40,
        descriptor_version: 1,
    };
    let map = client.retrieve_memory_map(fetched, &buffer).unwrap();
    assert_eq!(map.map_key, 0xfeed);
    assert_eq!(map.descriptor_size, 40);
    assert_eq!(map.descriptors.len(), 2);
    assert_eq!(map.descriptors[0].memory_type, 2);
    assert_eq!(map.descriptors[0].physical_start, 0x0010_0000);
    assert_eq!(map.descriptors[0].page_count, 16);
    assert_eq!(map.descriptors[0].attribute, 0xf);
    assert_eq!(map.descriptors[1].memory_type, 7);
    assert_eq!(map.descriptors[1].virtual_start, 0x0020_0000);
    assert_eq!(map.descriptors[1].page_count, 256);
    assert_eq!(client.phase, ClientPhase::Complete);
    assert_eq!(client.next_request(), None);
}

#[test]
fn fetch_iterates_at_the_reported_stride_not_the_record_size() {
    let mut client = MemoryMapClient::new();
    assert_eq!(client.memory_map_size(size_query_answer(96, 48)), Ok(96));
    assert_eq!(client.pool_allocated(UEFI_SUCCESS), Ok(()));

    // Two records padded out to a 48-byte firmware stride.
    let mut buffer: Vec<u8> = Vec::new();
    push_descriptor(&mut buffer, 1, 0x1000, 0, 1, 0, 48);
    push_descriptor(&mut buffer, 2, 0x2000, 0, 2, 0, 48);
    buffer.resize(192, 0);

    let fetched = GetMemoryMapResult {
        status: UEFI_SUCCESS,
        map_size: 96,
        map_key: 1,
        descriptor_size: 48,
        descriptor_version: 1,
    };
    let map = client.retrieve_memory_map(fetched, &buffer).unwrap();
    assert_eq!(map.descriptors.len(), 2);
    assert_eq!(map.descriptors[1].memory_type, 2);
    assert_eq!(map.descriptors[1].physical_start, 0x2000);
}

#[test]
fn fetch_reporting_more_bytes_than_the_buffer_fails() {
    let mut client = MemoryMapClient::new();
    assert_eq!(client.memory_map_size(size_query_answer(80, 40)), Ok(80));
    assert_eq!(client.pool_allocated(UEFI_SUCCESS), Ok(()));
    let buffer: Vec<u8> = vec![0; 160];
    let fetched = GetMemoryMapResult {
        status: UEFI_SUCCESS,
        map_size: 200,
        map_key: 1,
        descriptor_size: 40,
        descriptor_version: 1,
    };
    assert_eq!(
        client.retrieve_memory_map(fetched, &buffer),
        Err(Error::FirmwareError(UEFI_SUCCESS))
    );
    assert_eq!(client.next_request(), None);
}

#[test]
fn fetch_error_status_is_surfaced_with_its_code() {
    let mut client = MemoryMapClient::new();
    assert_eq!(client.memory_map_size(size_query_answer(80, 40)), Ok(80));
    assert_eq!(client.pool_allocated(UEFI_SUCCESS), Ok(()));
    let buffer: Vec<u8> = vec![0; 160];
    let status: u64 = 0x8000_0000_0000_0002;
    let fetched = GetMemoryMapResult {
        status,
        map_size: 80,
        map_key: 1,
        descriptor_size: 40,
        descriptor_version: 1,
    };
    assert_eq!(
        client.retrieve_memory_map(fetched, &buffer),
        Err(Error::FirmwareError(status))
    );
    assert_eq!(client.next_request(), None);
}

#[test]
fn descriptor_decoding_is_little_endian_at_fixed_offsets() {
    let mut buffer: Vec<u8> = Vec::new();
    push_descriptor(
        &mut buffer,
        0x0403_0201,
        0x1122_3344_5566_7788,
        0x0102_0304_0506_0708,
        0xaabb_ccdd,
        0x8000_0000_0000_000f,
        40,
    );
    let d = descriptor_at(&buffer, 0);
    assert_eq!(d.memory_type, 0x0403_0201);
    assert_eq!(d.physical_start, 0x1122_3344_5566_7788);
    assert_eq!(d.virtual_start, 0x0102_0304_0506_0708);
    assert_eq!(d.page_count, 0xaabb_ccdd);
    assert_eq!(d.attribute, 0x8000_0000_0000_000f);
}

#[test]
fn parse_memory_map_uses_only_whole_records() {
    // 100 bytes at a 40-byte stride hold two whole records.
    let mut buffer: Vec<u8> = Vec::new();
    push_descriptor(&mut buffer, 1, 0x1000, 0, 1, 0, 40);
    push_descriptor(&mut buffer, 2, 0x2000, 0, 2, 0, 40);
    buffer.resize(100, 0);
    let descriptors = parse_memory_map(&buffer, 100, 40);
    assert_eq!(descriptors.len(), 2);
    assert_eq!(descriptors[0].memory_type, 1);
    assert_eq!(descriptors[1].memory_type, 2);
}
