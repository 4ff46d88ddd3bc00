use fabela::binary::{Binary, ExtractAction, ExtractEvent, Extraction, TRAILER_SIZE, ZSTD_LEVEL};
use fabela::error::FabelaError;

/// Builds an executable image: `base`, the compressed script, its trailer.
fn bundle(base: &[u8], payload: &[u8]) -> Vec<u8> {
    let mut file = base.to_vec();
    file.extend_from_slice(payload);
    file.extend_from_slice(&(payload.len() as u64).to_le_bytes());
    file.extend_from_slice(&Binary::magic());
    file
}

/// Answers every request of an extraction from the bytes of `file`.
fn drive(file: &[u8]) -> ExtractAction {
    let (mut ex, mut action) = Extraction::new();
    let mut pos: u64 = 0;
    loop {
        let event = match action {
            ExtractAction::ReadLength => ExtractEvent::Length(Ok(file.len() as u64)),
            ExtractAction::SeekFromEnd(k) => {
                pos = (file.len() as i64 + k) as u64;
                ExtractEvent::Seeked(Ok(pos))
            }
            ExtractAction::SeekFromStart(o) => {
                pos = o;
                ExtractEvent::Seeked(Ok(pos))
            }
            ExtractAction::ReadExact(n) => {
                let start = pos as usize;
                pos += n;
                ExtractEvent::Read(Ok(file[start..start + n as usize].to_vec()))
            }
            other => return other,
        };
        action = ex.step(event);
    }
}

fn io_error() -> std::io::Error {
    std::io::Error::new(std::io::ErrorKind::Other, "boom")
}

#[test]
fn magic_is_fabela01() {
    assert_eq!(&Binary::magic(), b"FABELA01");
    assert_eq!(TRAILER_SIZE, 16);
}

#[test]
fn parse_trailer_reads_little_endian_size_and_magic() {
    let mut buf = vec![0x01, 0x02, 0, 0, 0, 0, 0, 0x80];
    buf.extend_from_slice(b"FABELA01");
    let t = Binary::parse_trailer(&buf);
    assert_eq!(t.payload_size, 0x8000_0000_0000_0201);
    assert_eq!(&t.magic, b"FABELA01");
}

#[test]
fn bundled_script_is_extracted_back() {
    let source = "console.log('hola', 1 + 2);";
    let compressed = zstd::encode_all(source.as_bytes(), ZSTD_LEVEL).unwrap();
    let file = bundle(b"\x7fELF base binary", &compressed);
    match drive(&file) {
        ExtractAction::Decode(payload) => {
            assert_eq!(payload, compressed);
            assert_eq!(Binary::decode_payload(&payload).unwrap(), source);
        }
        _ => panic!("payload not found"),
    }
}

#[test]
fn empty_base_and_empty_script() {
    let compressed = zstd::encode_all(&b""[..], ZSTD_LEVEL).unwrap();
    let file = bundle(b"", &compressed);
    match drive(&file) {
        ExtractAction::Decode(payload) => assert_eq!(Binary::decode_payload(&payload).unwrap(), ""),
        _ => panic!("payload not found"),
    }
}

#[test]
fn short_file_carries_no_script() {
    assert!(matches!(drive(b"FABELA01"), ExtractAction::NotEmbedded));
    assert!(matches!(drive(b""), ExtractAction::NotEmbedded));
}

#[test]
fn file_without_magic_carries_no_script() {
    let mut file = bundle(b"base", b"payload");
    let n = file.len();
    file[n - 1] = b'2';
    assert!(matches!(drive(&file), ExtractAction::NotEmbedded));
}

#[test]
fn oversized_payload_is_invalid() {
    let mut file = b"abc".to_vec();
    file.extend_from_slice(&4u64.to_le_bytes());
    file.extend_from_slice(b"FABELA01");
    match drive(&file) {
        ExtractAction::Fail(FabelaError::Compile(m)) => assert_eq!(m, "invalid payload size"),
        _ => panic!("expected an invalid size"),
    }
    let mut huge = Vec::new();
    huge.extend_from_slice(&u64::MAX.to_le_bytes());
    huge.extend_from_slice(b"FABELA01");
    assert!(matches!(drive(&huge), ExtractAction::Fail(FabelaError::Compile(_))));
}

#[test]
fn payload_filling_the_whole_file_is_found() {
    let mut file = b"xyz".to_vec();
    file.extend_from_slice(&3u64.to_le_bytes());
    file.extend_from_slice(b"FABELA01");
    match drive(&file) {
        ExtractAction::Decode(p) => assert_eq!(p, b"xyz"),
        _ => panic!("expected the payload"),
    }
}

#[test]
fn io_failures_name_the_operation() {
    let contexts = [
        "reading executable metadata",
        "seeking trailer",
        "reading trailer",
        "seeking payload start",
        "reading payload",
    ];
    let file = bundle(b"base", b"pay");
    for (fail_at, want) in contexts.iter().enumerate() {
        let (mut ex, mut action) = Extraction::new();
        let mut pos: u64 = 0;
        let mut step = 0;
        let result = loop {
            let failing = step == fail_at;
            step += 1;
            let event = match action {
                ExtractAction::ReadLength if failing => ExtractEvent::Length(Err(io_error())),
                ExtractAction::ReadLength => ExtractEvent::Length(Ok(file.len() as u64)),
                ExtractAction::SeekFromEnd(_) | ExtractAction::SeekFromStart(_) if failing => {
                    ExtractEvent::Seeked(Err(io_error()))
                }
                ExtractAction::SeekFromEnd(k) => {
                    pos = (file.len() as i64 + k) as u64;
                    ExtractEvent::Seeked(Ok(pos))
                }
                ExtractAction::SeekFromStart(o) => {
                    pos = o;
                    ExtractEvent::Seeked(Ok(pos))
                }
                ExtractAction::ReadExact(_) if failing => ExtractEvent::Read(Err(io_error())),
                ExtractAction::ReadExact(n) => {
                    let s = pos as usize;
                    pos += n;
                    ExtractEvent::Read(Ok(file[s..s + n as usize].to_vec()))
                }
                other => break other,
            };
            action = ex.step(event);
        };
        match result {
            ExtractAction::Fail(FabelaError::Io { context, source }) => {
                assert_eq!(&context, want);
                assert_eq!(source.to_string(), "boom");
            }
            _ => panic!("expected an I/O failure at {want}"),
        }
        assert!(ex.is_finished());
    }
}

#[test]
fn corrupt_payload_fails_decompression() {
    match Binary::decode_payload(b"not zstd at all") {
        Err(FabelaError::Io { context, .. }) => assert_eq!(context, "decompressing zstd payload"),
        _ => panic!("expected a decompression failure"),
    }
}

#[test]
fn non_utf8_payload_is_rejected() {
    let compressed = zstd::encode_all(&[0xffu8, 0xfe, 0x41][..], ZSTD_LEVEL).unwrap();
    assert!(matches!(Binary::decode_payload(&compressed), Err(FabelaError::Utf8(_))));
}

#[test]
fn locate_payload_computes_offset() {
    let t = Binary::parse_trailer(&[5, 0, 0, 0, 0, 0, 0, 0, b'F', b'A', b'B', b'E', b'L', b'A', b'0', b'1']);
    assert!(matches!(Binary::locate_payload(100, &t), Ok(Some((79, 5)))));
    assert!(matches!(Binary::locate_payload(20, &t), Err(FabelaError::Compile(_))));
    assert!(matches!(Binary::locate_payload(21, &t), Ok(Some((0, 5)))));
    assert!(matches!(Binary::locate_payload(10, &t), Ok(None)));
}

#[test]
fn decompression_failure_keeps_zstd_error() {
    let err = std::io::Error::new(std::io::ErrorKind::InvalidData, "Unknown frame descriptor");
    match Binary::script_from_decompressed(Err(err)) {
        Err(FabelaError::Io { context, source }) => {
            assert_eq!(context, "decompressing zstd payload");
            assert_eq!(source.kind(), std::io::ErrorKind::InvalidData);
            assert_eq!(source.to_string(), "Unknown frame descriptor");
        }
        _ => panic!("expected an I/O error"),
    }
    assert_eq!(Binary::script_from_decompressed(Ok(b"let a = 1;".to_vec())).unwrap(), "let a = 1;");
    assert!(matches!(Binary::script_from_decompressed(Ok(vec![0xc0, 0x80])), Err(FabelaError::Utf8(_))));
}
