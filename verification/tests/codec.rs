//! Tests for the byte-transform layer: IAC escaping and NVT newline
//! transcoding, as free functions and as streaming producers.

use rand::Rng;
use telly::DecodeErrorKind;
use telly::TellyError;

#[test]
fn escape_iacs() {
    let original = [0xaa, 0xbb, 0xff, 0xdd, 0xff];
    let expected = vec![0xaa, 0xbb, 0xff, 0xff, 0xdd, 0xff, 0xff];
    let actual: Vec<u8> = telly::utils::escape_iacs(&original);
    assert_eq!(expected, actual);
}

#[test]
fn nvt_to_unix() {
    const NUM_TESTS: usize = 1000;
    const MAX_VECTOR_SIZE: usize = 4;
    const MAX_BYTE: u8 = 255;
    // Zero is excluded from the generated vectors because NUL bytes are
    // stripped by the transform.
    const MIN_BYTE: u8 = 1;

    let mut rng = rand::thread_rng();
    for _ in 0..NUM_TESTS {
        let vec_size: usize = rng.gen_range(0..MAX_VECTOR_SIZE);
        let vec: Vec<u8> = (0..vec_size)
            .map(|_| rng.gen_range(MIN_BYTE..MAX_BYTE))
            .collect();
        let original = vec.clone();
        let encoded = telly::utils::unix_to_nvt(&vec);
        let encoded_decoded = telly::utils::nvt_to_unix(&encoded);

        assert_eq!(original, encoded_decoded.unwrap());
    }
}

#[test]
fn escape_then_unescape_is_identity() {
    // Every byte sequence survives the escape/unescape round trip,
    // including ones full of IACs and NULs.
    let cases: Vec<Vec<u8>> = vec![
        vec![],
        vec![0xff],
        vec![0xff, 0xff],
        vec![0x00, 0xff, 0x7f, 0xff, 0x00],
        vec![0xc0, 0xff, 0xee],
    ];
    for original in cases {
        let escaped = telly::utils::escape_iacs(&original);
        let unescaped = telly::utils::unescape_iacs(&escaped).unwrap();
        assert_eq!(original, unescaped);
    }
}

#[test]
fn escape_doubles_iacs() {
    let escaped = telly::utils::escape_iacs(&[0xc0, 0xff, 0xee]);
    assert_eq!(escaped, vec![0xc0, 0xff, 0xff, 0xee]);
}

#[test]
fn unescape_rejects_lone_iac_with_offending_byte() {
    let result = telly::utils::unescape_iacs(&[0x41, 0xff, 0x42]);
    assert_eq!(
        result,
        Err(TellyError::DecodeError(DecodeErrorKind::UnescapedIac(
            Some(0x42)
        )))
    );
}

#[test]
fn unescape_rejects_trailing_iac() {
    let result = telly::utils::unescape_iacs(&[0x41, 0xff]);
    assert_eq!(
        result,
        Err(TellyError::DecodeError(DecodeErrorKind::UnescapedIac(None)))
    );
}

#[test]
fn unix_to_nvt_expands_newlines() {
    let bytes = telly::utils::unix_to_nvt("Hello World!\n".as_bytes());
    assert_eq!(String::from_utf8_lossy(&bytes), "Hello World!\r\n");
}

#[test]
fn unix_to_nvt_marks_bare_carriage_returns() {
    let bytes = telly::utils::unix_to_nvt(&[b'a', b'\r', b'b']);
    assert_eq!(bytes, vec![b'a', b'\r', 0x00, b'b']);
}

#[test]
fn nvt_to_unix_collapses_crlf_and_drops_nuls() {
    let bytes = telly::utils::nvt_to_unix("Hello World!\r\n".as_bytes()).unwrap();
    assert_eq!(String::from_utf8_lossy(&bytes), "Hello World!\n");

    let bytes = telly::utils::nvt_to_unix(&[0x00, b'x', 0x00, b'y', 0x00]).unwrap();
    assert_eq!(bytes, vec![b'x', b'y']);
}

#[test]
fn nvt_to_unix_keeps_bare_carriage_return() {
    let bytes = telly::utils::nvt_to_unix(&[b'a', b'\r', b'b']).unwrap();
    assert_eq!(bytes, vec![b'a', b'\r', b'b']);
}

#[test]
fn streaming_escape_matches_free_function() {
    let input = vec![0x01, 0xff, 0x02, 0xff];
    let mut it = telly::utils::EscapeIacs::from_bytes(input.clone());
    let mut streamed: Vec<u8> = Vec::new();
    while let Some(b) = it.next() {
        streamed.push(b);
    }
    assert_eq!(streamed, telly::utils::escape_iacs(&input));
}

#[test]
fn streaming_unescape_reports_each_error() {
    let mut it = telly::utils::UnescapeIacs::from_bytes(vec![0x41, 0xff, 0x42, 0x43]);
    assert_eq!(it.next(), Some(Ok(0x41)));
    assert_eq!(
        it.next(),
        Some(Err(TellyError::DecodeError(DecodeErrorKind::UnescapedIac(
            Some(0x42)
        ))))
    );
    // The consumer may skip the error and keep pulling.
    assert_eq!(it.next(), Some(Ok(0x43)));
    assert_eq!(it.next(), None);
}

#[test]
fn streaming_unix_to_nvt_matches_free_function() {
    let input = vec![b'a', b'\n', 0xff, b'\r'];
    let mut it = telly::utils::UnixToNvt::from_bytes(input.clone());
    let mut streamed: Vec<u8> = Vec::new();
    while let Some(b) = it.next() {
        streamed.push(b);
    }
    assert_eq!(streamed, telly::utils::unix_to_nvt(&input));
}

#[test]
fn streaming_nvt_to_unix_collapses() {
    let mut it = telly::utils::NvtToUnix::from_bytes(vec![b'a', b'\r', b'\n', 0x00, b'b']);
    let mut streamed: Vec<u8> = Vec::new();
    while let Some(b) = it.next() {
        streamed.push(b);
    }
    assert_eq!(streamed, vec![b'a', b'\n', b'b']);
}
