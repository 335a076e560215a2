//! End-to-end checks of the data URI built for a file's path and bytes.

use base64::{engine::general_purpose::STANDARD, Engine};
use include_data_uri::include_data_uri;

/// A complete, minimal JFIF stream: start of image, one header segment, end
/// of image.
const JPEG: [u8; 22] = [
    0xFF, 0xD8, 0xFF, 0xE0, 0x00, 0x10, 0x4A, 0x46, 0x49, 0x46, 0x00, 0x01, 0x01, 0x00, 0x00,
    0x01, 0x00, 0x01, 0x00, 0x00, 0xFF, 0xD9,
];

const JPEG_BASE64: &str = "/9j/4AAQSkZJRgABAQAAAQABAAD/2Q==";

const RUST_SOURCE: &str = "fn main() {\n\tprintln!(\"Hello World!\");\n}\n";

#[test]
fn text() {
    let expected = format!(
        "data:text/plain;base64,{}",
        STANDARD.encode("Hello World!")
    );
    assert_eq!(
        expected,
        include_data_uri("tests/cases/text/hello_world.txt", b"Hello World!")
    );
}

#[test]
fn image() {
    let expected = format!("data:image/jpeg;base64,{}", JPEG_BASE64);
    assert_eq!(
        expected,
        include_data_uri("tests/cases/jpeg/naw.jpeg", &JPEG)
    );
}

#[test]
fn code() {
    let expected = format!(
        "data:text/x-rust;base64,{}",
        STANDARD.encode(RUST_SOURCE)
    );
    assert_eq!(
        expected,
        include_data_uri("tests/macro.rs", RUST_SOURCE.as_bytes())
    )
}

#[test]
fn hello_world_exact() {
    assert_eq!(
        include_data_uri("/project/hello_world.txt", b"Hello World!"),
        "data:text/plain;base64,SGVsbG8gV29ybGQh"
    );
}

#[test]
fn code_exact() {
    assert_eq!(
        include_data_uri("/project/src/main.rs", RUST_SOURCE.as_bytes()),
        "data:text/x-rust;base64,Zm4gbWFpbigpIHsKCXByaW50bG4hKCJIZWxsbyBXb3JsZCEiKTsKfQo="
    );
}

#[test]
fn image_payload_decodes_to_the_file() {
    let uri = include_data_uri("/project/assets/naw.jpeg", &JPEG);
    let payload = uri.strip_prefix("data:image/jpeg;base64,").unwrap();
    assert_eq!(STANDARD.decode(payload).unwrap(), JPEG.to_vec());
}

#[test]
fn binary_payload_decodes_to_the_file() {
    let content: Vec<u8> = (0..=255u8).collect();
    let uri = include_data_uri("/project/blob.bin", &content);
    let payload = uri.split_once(";base64,").unwrap().1;
    assert_eq!(STANDARD.decode(payload).unwrap(), content);
}

#[test]
fn bytes_are_not_transcoded() {
    assert_eq!(
        include_data_uri("/project/raw.txt", &[0, 255, 254, 10, 13]),
        "data:text/plain;base64,AP/+Cg0="
    );
}

#[test]
fn empty_file_has_empty_payload() {
    assert_eq!(
        include_data_uri("/project/empty.txt", b""),
        "data:text/plain;base64,"
    );
}

#[test]
fn payload_is_padded_to_groups_of_four() {
    assert_eq!(include_data_uri("/p/a.txt", b"a"), "data:text/plain;base64,YQ==");
    assert_eq!(include_data_uri("/p/a.txt", b"ab"), "data:text/plain;base64,YWI=");
    assert_eq!(include_data_uri("/p/a.txt", b"abc"), "data:text/plain;base64,YWJj");
}

#[test]
fn long_payload_is_not_wrapped() {
    let content = vec![b'x'; 3000];
    let uri = include_data_uri("/project/long.txt", &content);
    assert_eq!(uri.len(), "data:text/plain;base64,".len() + 4000);
    assert!(!uri.contains('\n'));
    assert!(!uri.contains('\r'));
}

#[test]
fn same_content_gives_the_same_uri() {
    let first = include_data_uri("/project/a/hello.txt", b"Hello World!");
    let second = include_data_uri("/project/a/hello.txt", b"Hello World!");
    let elsewhere = include_data_uri("/other/place/greeting.txt", b"Hello World!");
    assert_eq!(first, second);
    assert_eq!(first, elsewhere);
}

#[test]
fn uri_has_the_exact_shape() {
    let uri = include_data_uri("/project/picture.jpeg", &JPEG);
    let (head, payload) = uri.split_once(";base64,").unwrap();
    assert_eq!(head, "data:image/jpeg");
    assert_eq!(payload.len() % 4, 0);
    assert!(payload
        .chars()
        .all(|c| c.is_ascii_alphanumeric() || c == '+' || c == '/' || c == '='));
    assert!(!uri.chars().any(|c| c.is_whitespace()));
}

#[test]
fn unknown_extension_gets_the_fallback() {
    assert_eq!(
        include_data_uri("/project/data.zzzunknownzzz", b"abc"),
        "data:application/octet-stream;base64,YWJj"
    );
}

#[test]
fn missing_extension_gets_the_fallback() {
    assert_eq!(
        include_data_uri("/project/Makefile", b"abc"),
        "data:application/octet-stream;base64,YWJj"
    );
    assert_eq!(
        include_data_uri("/project.d/Makefile", b"abc"),
        "data:application/octet-stream;base64,YWJj"
    );
    assert_eq!(
        include_data_uri("/project/.txt", b"abc"),
        "data:application/octet-stream;base64,YWJj"
    );
}
