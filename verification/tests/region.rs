use zero_copy_ipc::error::IpcError;
use zero_copy_ipc::header::{SharedHeader, STATUS_DATA_AVAILABLE};
use zero_copy_ipc::layout::HEADER_SIZE;
use zero_copy_ipc::region::SharedRegion;

fn initialised(data_size: usize, write_pos: u32, read_pos: u32, status: u8, rate: u32) -> Vec<u8> {
    let mut bytes = vec![0u8; HEADER_SIZE + data_size];
    bytes[0..4].copy_from_slice(&write_pos.to_le_bytes());
    bytes[4..8].copy_from_slice(&read_pos.to_le_bytes());
    bytes[8] = status;
    bytes[16..20].copy_from_slice(&rate.to_le_bytes());
    bytes
}

#[test]
fn mapping_without_room_for_the_header_is_refused() {
    let mut bytes = vec![0u8; HEADER_SIZE - 1];
    assert!(matches!(SharedRegion::attach(&mut bytes), Err(IpcError::ResourceInitError)));
    let mut none: Vec<u8> = Vec::new();
    assert!(matches!(SharedRegion::attach(&mut none), Err(IpcError::ResourceInitError)));
}

#[test]
fn mapping_of_just_a_header_has_no_data_area() {
    let mut bytes = vec![0u8; HEADER_SIZE];
    let region = SharedRegion::attach(&mut bytes).unwrap();
    assert_eq!(region.len(), 84);
    assert_eq!(region.data_size(), 0);
}

#[test]
fn data_area_is_what_follows_the_header() {
    let mut bytes = vec![0u8; 1000];
    let region = SharedRegion::attach(&mut bytes).unwrap();
    assert_eq!(region.len(), 1000);
    assert_eq!(region.data_size(), 916);
}

#[test]
fn attach_does_not_touch_the_bytes() {
    let mut bytes: Vec<u8> = (0..200u32).map(|i| (i % 251) as u8).collect();
    let before = bytes.clone();
    {
        let region = SharedRegion::attach(&mut bytes).unwrap();
        assert_eq!(region.header().write_pos, u32::from_le_bytes([0, 1, 2, 3]));
    }
    assert_eq!(bytes, before);
}

#[test]
fn release_gives_the_bytes_back_as_the_region_left_them() {
    let mut bytes = vec![0u8; HEADER_SIZE + 16];
    let mut region = SharedRegion::attach(&mut bytes).unwrap();
    region.bootstrap_header_if_new();
    assert_eq!(region.write_frame(&[0x0403_0201, 0x0807_0605], 8000), Ok(()));
    let back = region.release();
    assert_eq!(back.len(), HEADER_SIZE + 16);
    assert_eq!(&back[0..4], &8u32.to_le_bytes());
    assert_eq!(back[8], 1);
    assert_eq!(&back[12..16], &8u32.to_le_bytes());
    assert_eq!(&back[16..20], &8000u32.to_le_bytes());
    assert_eq!(&back[84..92], &[1, 2, 3, 4, 5, 6, 7, 8]);
    let again = SharedRegion::attach(back).unwrap();
    assert_eq!(again.read_frame(), Some(vec![0x0403_0201, 0x0807_0605]));
}

#[test]
fn header_is_read_field_by_field() {
    let mut bytes = initialised(64, 0x0102_0304, 0x0a0b_0c0d, 2, 48_000);
    bytes[12..16].copy_from_slice(&4096u32.to_le_bytes());
    let region = SharedRegion::attach(&mut bytes).unwrap();
    let header = region.header();
    assert_eq!(
        header,
        SharedHeader {
            write_pos: 0x0102_0304,
            read_pos: 0x0a0b_0c0d,
            status: 2,
            chunk_size: 4096,
            sample_rate: 48_000,
        }
    );
    assert_eq!(region.get_buffer_status(), (0x0102_0304, 0x0a0b_0c0d, 2));
}

#[test]
fn fresh_region_gets_the_default_header() {
    let mut bytes = vec![0u8; HEADER_SIZE + 32];
    {
        let mut region = SharedRegion::attach(&mut bytes).unwrap();
        assert!(region.bootstrap_header_if_new());
        assert_eq!(region.header(), SharedHeader::new());
        assert_eq!(region.get_buffer_status(), (0, 0, 0));
    }
    assert_eq!(&bytes[16..20], &16000u32.to_le_bytes());
    assert!(bytes[20..].iter().all(|b| *b == 0));
}

#[test]
fn bootstrap_clears_stale_header_bytes_of_an_uninitialised_region() {
    let mut bytes = vec![0xaau8; HEADER_SIZE + 8];
    bytes[16..20].copy_from_slice(&0u32.to_le_bytes());
    {
        let mut region = SharedRegion::attach(&mut bytes).unwrap();
        assert!(region.bootstrap_header_if_new());
        assert_eq!(region.header(), SharedHeader::new());
    }
    assert!(bytes[9..12].iter().all(|b| *b == 0));
    assert!(bytes[20..84].iter().all(|b| *b == 0));
    assert!(bytes[84..].iter().all(|b| *b == 0xaa));
}

#[test]
fn initialised_region_is_left_alone() {
    let mut bytes = initialised(32, 8, 4, STATUS_DATA_AVAILABLE, 44_100);
    bytes[30] = 0x5a;
    bytes[90] = 0x77;
    let before = bytes.clone();
    {
        let mut region = SharedRegion::attach(&mut bytes).unwrap();
        assert!(!region.bootstrap_header_if_new());
        assert_eq!(region.get_buffer_status(), (8, 4, 1));
        assert_eq!(region.header().sample_rate, 44_100);
    }
    assert_eq!(bytes, before);
}

#[test]
fn region_is_initialised_only_once() {
    let mut bytes = vec![0u8; HEADER_SIZE + 32];
    let mut region = SharedRegion::attach(&mut bytes).unwrap();
    assert!(region.bootstrap_header_if_new());
    assert!(!region.bootstrap_header_if_new());
    assert_eq!(region.header(), SharedHeader::new());
}

#[test]
fn reset_zeroes_cursors_status_and_chunk_size_only() {
    let mut bytes = initialised(32, 24, 12, 2, 22_050);
    bytes[12..16].copy_from_slice(&24u32.to_le_bytes());
    bytes[10] = 0x11;
    bytes[40] = 0x22;
    bytes[100] = 0x33;
    {
        let mut region = SharedRegion::attach(&mut bytes).unwrap();
        region.reset_buffer();
        assert_eq!(region.get_buffer_status(), (0, 0, 0));
        let header = region.header();
        assert_eq!(header.chunk_size, 0);
        assert_eq!(header.sample_rate, 22_050);
    }
    assert_eq!(bytes[10], 0x11);
    assert_eq!(bytes[40], 0x22);
    assert_eq!(bytes[100], 0x33);
}
