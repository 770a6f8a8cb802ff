use crystal_runtime::{ArchiveEndian, ArchiveError, CGameArchive};

const SCENE_XML: &str =
    "<scene>\n  <object>\n    <name>Cube</name>\n    <type>mesh</type>\n  </object>\n</scene>\n";

fn build_archive_buffer(endian: ArchiveEndian, files: &[(&str, &[u8])]) -> Vec<u8> {
    let scene_bytes = SCENE_XML.as_bytes();

    let mut buffer = Vec::new();
    buffer.extend_from_slice(b"CGME");
    buffer.extend_from_slice(&endian.encode_u32(1));
    buffer.extend_from_slice(&endian.encode_u64(0));

    let header_len = buffer.len() as u64;
    let mut entries = Vec::new();
    let mut cursor = header_len;

    for (name, data) in files {
        entries.push((name.to_string(), cursor, data.len() as u64));
        buffer.extend_from_slice(data);
        cursor += data.len() as u64;
    }

    let scene_offset = cursor;
    buffer.extend_from_slice(scene_bytes);
    cursor += scene_bytes.len() as u64;

    let toc_offset = cursor;
    buffer.extend_from_slice(&endian.encode_u32(files.len() as u32));
    for (name, offset, size) in &entries {
        buffer.extend_from_slice(&endian.encode_u32(name.len() as u32));
        buffer.extend_from_slice(name.as_bytes());
        buffer.extend_from_slice(&endian.encode_u64(*offset));
        buffer.extend_from_slice(&endian.encode_u64(*size));
    }
    buffer.extend_from_slice(&endian.encode_u64(scene_offset));
    buffer.extend_from_slice(&endian.encode_u64(scene_bytes.len() as u64));

    let toc_offset_bytes = endian.encode_u64(toc_offset);
    buffer[8..16].copy_from_slice(&toc_offset_bytes);

    buffer
}

fn create_archive(endian: ArchiveEndian, files: &[(&str, &[u8])]) -> CGameArchive {
    let buffer = build_archive_buffer(endian, files);
    CGameArchive::from_bytes("test".to_string(), buffer).expect("open archive")
}

#[test]
fn open_archive_reads_scene_and_files() {
    let archive = create_archive(
        ArchiveEndian::Little,
        &[("scripts/test.lua", b"print('hi')")],
    );
    assert_eq!(archive.version(), 1);
    assert_eq!(archive.scene_xml(), SCENE_XML);
    assert_eq!(archive.files().len(), 1);
    assert_eq!(archive.files()[0].name, "scripts/test.lua");
}

#[test]
fn extract_file_returns_bytes() {
    let archive = create_archive(ArchiveEndian::Little, &[("scripts/test.lua", b"return 42")]);
    let bytes = archive.extract_file("scripts/test.lua").unwrap();
    assert_eq!(bytes, b"return 42");
}

#[test]
fn extract_missing_file_is_error() {
    let archive = create_archive(ArchiveEndian::Little, &[]);
    assert!(archive.extract_file("missing.lua").is_err());
}

#[test]
fn open_big_endian_archive() {
    let archive = create_archive(ArchiveEndian::Big, &[("scripts/test.lua", b"print('hi')")]);
    assert_eq!(archive.version(), 1);
    assert_eq!(archive.files().len(), 1);
}

#[test]
fn recover_from_corrupted_toc_header() {
    let mut buffer = build_archive_buffer(
        ArchiveEndian::Little,
        &[("scripts/test.lua", b"print('hi')")],
    );
    buffer[8..16].copy_from_slice(b"\x00\x00\x00\x00<pla");

    let archive = CGameArchive::from_bytes("test".to_string(), buffer).expect("open archive");
    assert_eq!(archive.files().len(), 1);
    assert_eq!(archive.files()[0].name, "scripts/test.lua");
}

#[test]
fn endian_round_trips() {
    for endian in [ArchiveEndian::Little, ArchiveEndian::Big] {
        assert_eq!(endian.decode_u32(endian.encode_u32(0xdead_beef)), 0xdead_beef);
        assert_eq!(
            endian.decode_u64(endian.encode_u64(0x0123_4567_89ab_cdef)),
            0x0123_4567_89ab_cdef
        );
    }
    assert_eq!(ArchiveEndian::Little.encode_u32(1), [1, 0, 0, 0]);
    assert_eq!(ArchiveEndian::Big.encode_u32(1), [0, 0, 0, 1]);
}

#[test]
fn too_small_archive_is_rejected() {
    let err = CGameArchive::from_bytes("t".to_string(), b"CGME".to_vec()).unwrap_err();
    assert_eq!(err, ArchiveError::TooSmall);
}

#[test]
fn wrong_magic_is_rejected() {
    let mut buffer = build_archive_buffer(ArchiveEndian::Little, &[]);
    buffer[0] = b'X';
    let err = CGameArchive::from_bytes("t".to_string(), buffer).unwrap_err();
    assert_eq!(err, ArchiveError::BadMagic);
}

#[test]
fn garbage_after_header_has_no_toc() {
    let mut buffer = Vec::new();
    buffer.extend_from_slice(b"CGME");
    buffer.extend_from_slice(&[0xffu8; 60]);
    let err = CGameArchive::from_bytes("t".to_string(), buffer).unwrap_err();
    assert!(err == ArchiveError::TocNotFound || err == ArchiveError::TocOutOfBounds);
}

#[test]
fn non_utf8_scene_is_rejected() {
    let mut buffer = build_archive_buffer(ArchiveEndian::Little, &[]);
    // Overwrite the first scene byte with an invalid UTF-8 byte. The scene
    // blob sits right after the 16-byte header in an archive with no files.
    buffer[16] = 0xff;
    let err = CGameArchive::from_bytes("t".to_string(), buffer).unwrap_err();
    assert_eq!(err, ArchiveError::SceneNotUtf8);
}

#[test]
fn non_ascii_scene_survives_decoding() {
    let mut buffer = Vec::new();
    let scene = "<scene>\u{e9}\u{2603}</scene>";
    buffer.extend_from_slice(b"CGME");
    buffer.extend_from_slice(&ArchiveEndian::Little.encode_u32(7));
    buffer.extend_from_slice(&ArchiveEndian::Little.encode_u64(0));
    let scene_offset = buffer.len() as u64;
    buffer.extend_from_slice(scene.as_bytes());
    let toc_offset = buffer.len() as u64;
    buffer.extend_from_slice(&ArchiveEndian::Little.encode_u32(0));
    buffer.extend_from_slice(&ArchiveEndian::Little.encode_u64(scene_offset));
    buffer.extend_from_slice(&ArchiveEndian::Little.encode_u64(scene.len() as u64));
    let toc_bytes = ArchiveEndian::Little.encode_u64(toc_offset);
    buffer[8..16].copy_from_slice(&toc_bytes);

    let archive = CGameArchive::from_bytes("t".to_string(), buffer).expect("open archive");
    assert_eq!(archive.version(), 7);
    assert_eq!(archive.scene_xml(), scene);
}

#[test]
fn file_lookup_finds_first_match() {
    let archive = create_archive(
        ArchiveEndian::Little,
        &[("a.bin", b"one"), ("b.bin", b"two"), ("a.bin", b"three")],
    );
    let entry = archive.file("a.bin").expect("entry");
    assert_eq!(archive.extract_entry(entry).unwrap(), b"one");
    assert!(archive.file("c.bin").is_none());
}
