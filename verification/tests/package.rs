use pk_unpack::package::{Header, OggFile, OggInfo, OggName, PackageError};
use pk_unpack::stream::PackageStream;

/// Append `v` to `out` as a little-endian 32-bit integer.
fn put_u32(out: &mut Vec<u8>, v: u32) {
    out.extend_from_slice(&v.to_le_bytes());
}

/// Append `v` to `out` as a little-endian 64-bit integer.
fn put_u64(out: &mut Vec<u8>, v: u64) {
    out.extend_from_slice(&v.to_le_bytes());
}

/// Build a package: the header integers, one 8-byte record (4 bytes of
/// padding, then the relative offset) per entry, then the given trailing
/// bytes (entry frames, with any filler the offsets call for).
fn build_package(declared_size: u32, relative_offsets: &[u32], tail: &[u8]) -> Vec<u8> {
    let mut out = Vec::new();
    put_u32(&mut out, declared_size);
    put_u32(&mut out, relative_offsets.len() as u32);
    for &rel in relative_offsets {
        put_u32(&mut out, 0xDEAD_BEEF); // padding, never interpreted
        put_u32(&mut out, rel);
    }
    out.extend_from_slice(tail);
    out
}

#[test]
fn byte_transform_round_trips_for_all_bytes() {
    for b in 0..=255u8 {
        let obfuscated = b.wrapping_add(1);
        assert_eq!(pk_unpack::package::decode_byte(obfuscated), b);
        assert_eq!(obfuscated.wrapping_sub(1), b);
    }
    // The wraparound cases called out explicitly:
    assert_eq!(pk_unpack::package::decode_byte(0x00), 0xFF);
    assert_eq!(pk_unpack::package::decode_byte(0x01), 0x00);
}

#[test]
fn name_derivation_pads_to_three_digits_without_truncation() {
    assert_eq!(OggName::new(0).to_string(), "000.ogg");
    assert_eq!(OggName::new(7).to_string(), "007.ogg");
    assert_eq!(OggName::new(42).to_string(), "042.ogg");
    assert_eq!(OggName::new(100).to_string(), "100.ogg");
    assert_eq!(OggName::new(999).to_string(), "999.ogg");
    assert_eq!(OggName::new(1000).to_string(), "1000.ogg");
    assert_eq!(OggName::new(4294967295).to_string(), "4294967295.ogg");
}

#[test]
fn empty_entry_count_yields_empty_table_without_error() {
    let data = build_package(1234, &[], &[]);
    let mut stream = PackageStream::new(data);
    let header = Header::read_from(&mut stream).expect("empty table must decode");
    assert_eq!(header.offsets().len(), 0);
}

#[test]
fn absolute_offsets_are_relative_plus_declared_size_plus_four() {
    let data = build_package(16, &[0, 100, 7], &[0u8; 256]);
    let mut stream = PackageStream::new(data);
    let header = Header::read_from(&mut stream).expect("header must decode");
    let offsets = header.offsets();
    assert_eq!(offsets.len(), 3);
    assert_eq!(offsets[0].0, 16 + 4 + 0);
    assert_eq!(offsets[1].0, 16 + 4 + 100);
    assert_eq!(offsets[2].0, 16 + 4 + 7);
}

#[test]
fn header_truncated_in_leading_integers() {
    let data = vec![1, 2, 3, 4]; // only declared_size present
    let mut stream = PackageStream::new(data);
    let err = Header::read_from(&mut stream).unwrap_err();
    assert_eq!(err, PackageError::TruncatedHeader { record: None });
}

#[test]
fn header_truncated_after_third_record_names_record_three() {
    // Five entries declared, but the stream ends after the 3rd record.
    let mut data = build_package(0, &[10, 20, 30], &[]);
    data[4] = 5; // raise entry_count to 5; records 3 and 4 are missing
    let mut stream = PackageStream::new(data);
    let err = Header::read_from(&mut stream).unwrap_err();
    assert_eq!(err, PackageError::TruncatedHeader { record: Some(3) });
}

#[test]
fn header_truncated_mid_record_names_that_record() {
    let mut data = build_package(0, &[10, 20], &[]);
    data[4] = 2;
    data.truncate(8 + 8 + 3); // record 1 is cut off after 3 of its 8 bytes
    let mut stream = PackageStream::new(data);
    let err = Header::read_from(&mut stream).unwrap_err();
    assert_eq!(err, PackageError::TruncatedHeader { record: Some(1) });
}

#[test]
fn seek_past_end_of_stream_fails() {
    let data = build_package(1000, &[500], &[]);
    let mut stream = PackageStream::new(data);
    let header = Header::read_from(&mut stream).expect("header must decode");
    let info = OggInfo::new(OggName::new(0), header.offsets()[0]);
    let err = OggFile::read_from(&mut stream, info).unwrap_err();
    assert_eq!(
        err,
        PackageError::SeekFailed { name: OggName::new(0), offset: 1000 + 4 + 500 }
    );
}

#[test]
fn truncated_length_prefix_fails_with_truncated_frame() {
    // Frame begins at 0 + 4 + 12 = 16: exactly the end of header + record,
    // so only the 5 tail bytes of the 8-byte length prefix are present.
    let data = build_package(0, &[12], &[0, 0, 0, 0, 0]);
    let mut stream = PackageStream::new(data);
    let header = Header::read_from(&mut stream).expect("header must decode");
    let info = OggInfo::new(OggName::new(0), header.offsets()[0]);
    let err = OggFile::read_from(&mut stream, info).unwrap_err();
    assert_eq!(err, PackageError::TruncatedFrame { name: OggName::new(0) });
}

#[test]
fn oversized_payload_size_yields_no_payload_at_all() {
    // The frame claims 1000 payload bytes; only 4 follow the prefix.
    let mut tail = Vec::new();
    put_u64(&mut tail, 1000);
    tail.extend_from_slice(&[9, 9, 9, 9]);
    let data = build_package(0, &[12], &tail);
    let mut stream = PackageStream::new(data);
    let header = Header::read_from(&mut stream).expect("header must decode");
    let info = OggInfo::new(OggName::new(0), header.offsets()[0]);
    let result = OggFile::read_from(&mut stream, info);
    // An Err carries no payload: the sink sees a complete payload or none.
    assert_eq!(
        result.unwrap_err(),
        PackageError::TruncatedPayload { name: OggName::new(0) }
    );
}

#[test]
fn minimal_package_end_to_end() {
    // declared_size = 16, one record with relative offset 0, so the frame
    // sits at absolute offset 16 + 4 + 0 = 20: four filler bytes follow
    // the 16-byte header, then the length prefix and the raw payload.
    let mut tail = vec![0xAA, 0xAA, 0xAA, 0xAA];
    put_u64(&mut tail, 3);
    tail.extend_from_slice(&[0x02, 0x02, 0x02]);
    let data = build_package(16, &[0], &tail);

    let mut stream = PackageStream::new(data);
    let header = Header::read_from(&mut stream).expect("header must decode");
    assert_eq!(header.offsets().len(), 1);
    assert_eq!(header.offsets()[0].0, 20);

    let info = OggInfo::new(OggName::new(0), header.offsets()[0]);
    let ogg = OggFile::read_from(&mut stream, info).expect("entry must decode");
    assert_eq!(ogg.name(), "000.ogg");
    assert_eq!(ogg.data, vec![0x01, 0x01, 0x01]);
}

#[test]
fn zero_length_payload_decodes_to_empty_file() {
    let mut tail = Vec::new();
    put_u64(&mut tail, 0);
    let data = build_package(0, &[12], &tail);
    let mut stream = PackageStream::new(data);
    let header = Header::read_from(&mut stream).expect("header must decode");
    let info = OggInfo::new(OggName::new(1), header.offsets()[0]);
    let ogg = OggFile::read_from(&mut stream, info).expect("empty entry must decode");
    assert_eq!(ogg.name(), "001.ogg");
    assert!(ogg.data.is_empty());
}

#[test]
fn decode_is_identical_across_independent_stream_handles() {
    let mut tail = Vec::new();
    put_u64(&mut tail, 4);
    tail.extend_from_slice(&[0x00, 0x01, 0x80, 0xFF]);
    put_u64(&mut tail, 2);
    tail.extend_from_slice(&[0x42, 0x42]);
    // Entries stored in the reverse of table order: the table's first
    // entry is the later frame.
    let data = build_package(0, &[32, 20], &tail);

    let mut names1: Vec<String> = Vec::new();
    let mut payloads1: Vec<Vec<u8>> = Vec::new();
    let mut names2: Vec<String> = Vec::new();
    let mut payloads2: Vec<Vec<u8>> = Vec::new();
    for (names, payloads) in [(&mut names1, &mut payloads1), (&mut names2, &mut payloads2)] {
        let mut stream = PackageStream::new(data.clone());
        let header = Header::read_from(&mut stream).expect("header must decode");
        for (nr, &offset) in header.offsets().iter().enumerate() {
            let info = OggInfo::new(OggName::new(nr as u32), offset);
            let ogg = OggFile::read_from(&mut stream, info).expect("entry must decode");
            names.push(ogg.name());
            payloads.push(ogg.data);
        }
    }
    assert_eq!(names1, names2);
    assert_eq!(payloads1, payloads2);
    assert_eq!(payloads1[0], vec![0x41, 0x41]);
    assert_eq!(payloads1[1], vec![0xFF, 0x00, 0x7F, 0xFE]);
}
