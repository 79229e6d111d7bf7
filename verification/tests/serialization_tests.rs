use base64::Engine;

use sol_trade_sdk::serialization::{
    Base64Encoder, TxEncoding, ZeroAllocSerializer, get_serializer_stats, serialize_and_encode,
};

#[test]
fn test_base64_encode() {
    let data = b"Hello, World!";
    let encoded = Base64Encoder::encode(data);
    assert!(!encoded.is_empty());

    // Verify it decodes correctly.
    let decoded = base64::engine::general_purpose::STANDARD.decode(&encoded).unwrap();
    assert_eq!(&decoded[..data.len()], data);
}

#[test]
fn base64_encoding_matches_known_value() {
    assert_eq!(Base64Encoder::encode(b"abc"), "YWJj");
    assert_eq!(Base64Encoder::encode(b"ab"), "YWI=");
    assert_eq!(Base64Encoder::encode(b""), "");
}

#[test]
fn test_serializer_stats() {
    let (available, capacity) = get_serializer_stats();
    assert!(available <= capacity);
    assert_eq!(capacity, 10_000);
}

#[test]
fn serialize_and_encode_handles_both_wire_encodings() {
    let tx = vec![0u8, 0u8];
    // Two zero bytes render as two base58 zero digits.
    assert_eq!(serialize_and_encode(&tx, TxEncoding::Base58).unwrap(), "11");
    assert_eq!(serialize_and_encode(&tx, TxEncoding::Base64).unwrap(), "AAA=");

    let err = serialize_and_encode(&tx, TxEncoding::Json).unwrap_err();
    assert_eq!(err, "Unsupported encoding");
    let err2 = serialize_and_encode(&tx, TxEncoding::Binary).unwrap_err();
    assert_eq!(err2, "Unsupported encoding");
}

#[test]
fn buffer_pool_hands_out_and_takes_back() {
    let mut pool = ZeroAllocSerializer::new(4, 16);
    assert_eq!(pool.get_pool_stats(), (4, 4));

    let b1 = pool.take_buffer().expect("a buffer is available");
    assert_eq!(b1.len(), 16);
    let _b2 = pool.take_buffer().expect("a buffer is available");
    assert_eq!(pool.get_pool_stats(), (2, 4));

    pool.return_buffer(b1);
    assert_eq!(pool.get_pool_stats(), (3, 4));

    // Returning beyond capacity drops the extra buffer.
    pool.return_buffer(vec![1, 2, 3]);
    pool.return_buffer(vec![4, 5, 6]);
    assert_eq!(pool.get_pool_stats(), (4, 4));
}

#[test]
fn buffer_pool_drains_to_empty() {
    let mut pool = ZeroAllocSerializer::new(2, 4);
    assert!(pool.take_buffer().is_some());
    assert!(pool.take_buffer().is_some());
    assert!(pool.take_buffer().is_none());
    assert_eq!(pool.get_pool_stats(), (0, 2));
}
