use tcp_proxy::fixture::{
    Data, FIRST_BIN_SIZE, FIRST_SIZE, STATUS_NOT_FOUND, STATUS_OK,
};

#[test]
fn fixture_sizes() {
    assert_eq!(FIRST_SIZE, 65536);
    assert_eq!(FIRST_BIN_SIZE, 32768);
    assert_eq!(STATUS_OK, 200);
    assert_eq!(STATUS_NOT_FOUND, 404);
}

#[test]
fn greeting_is_served() {
    let data = Data::new();
    let reply = data.handle("/test2");
    assert_eq!(reply.status, 200);
    assert_eq!(reply.body, b"Hello world");
    assert_eq!(reply.body.len(), 11);
}

#[test]
fn large_body_is_hexadecimal_text_of_the_pattern() {
    let data = Data::new();
    let reply = data.handle("/test1");
    assert_eq!(reply.status, 200);
    assert_eq!(reply.body.len(), 65536);
    assert_eq!(&reply.body[..16], b"0001020304050607");
    assert_eq!(&reply.body[18..24], b"090a0b");
    assert_eq!(&reply.body[30..34], b"0f10");
    assert_eq!(&reply.body[508..516], b"feff0001");
    assert_eq!(&reply.body[65532..], b"feff");
    let pattern: Vec<u8> = (0..32768).map(|i| (i % 256) as u8).collect();
    assert_eq!(reply.body, hex::encode(&pattern).as_bytes());
    assert!(reply
        .body
        .iter()
        .all(|byte| byte.is_ascii_digit() || (b'a'..=b'f').contains(byte)));
}

#[test]
fn large_body_decodes_to_the_pattern() {
    let data = Data::new();
    let decoded = hex::decode(data.handle("/test1").body).expect("the body is hexadecimal");
    assert_eq!(decoded.len(), 32768);
    for (i, byte) in decoded.iter().enumerate() {
        assert_eq!(*byte as usize, i % 256);
    }
}

#[test]
fn unknown_paths_are_not_found() {
    let data = Data::new();
    for path in ["", "/", "/test", "/test3", "/test1/", "/TEST1", "test2", "/test2?x=1"] {
        let reply = data.handle(path);
        assert_eq!(reply.status, 404);
        assert_eq!(reply.body, b"Not found");
    }
}
