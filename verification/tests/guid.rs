use efi_base::base::Guid;

#[test]
fn native_fields_serialize_big_endian() {
    let node: [u8; 6] = [0x0B, 0x0C, 0x0D, 0x0E, 0x0F, 0x10];
    let g = Guid::from_native(0x01020304, 0x0506, 0x0708, 0x09, 0x0A, &node);
    let expected: [u8; 16] = [
        0x01, 0x02, 0x03, 0x04, 0x05, 0x06, 0x07, 0x08, 0x09, 0x0A, 0x0B, 0x0C, 0x0D, 0x0E, 0x0F,
        0x10,
    ];
    assert_eq!(g.as_bytes(), expected);
}

#[test]
fn spec_literals_serialize_in_literal_byte_order() {
    // The pre-swap in from_spec cancels the big-endian store, so each
    // multi-byte field appears in the byte order the literal was written in.
    let node: [u8; 6] = [0x0B, 0x0C, 0x0D, 0x0E, 0x0F, 0x10];
    let g = Guid::from_spec(0x01020304, 0x0506, 0x0708, 0x09, 0x0A, &node);
    let expected: [u8; 16] = [
        0x04, 0x03, 0x02, 0x01, 0x06, 0x05, 0x08, 0x07, 0x09, 0x0A, 0x0B, 0x0C, 0x0D, 0x0E, 0x0F,
        0x10,
    ];
    assert_eq!(g.as_bytes(), expected);
}

#[test]
fn spec_ctor_equals_native_ctor_on_swapped_fields() {
    let node: [u8; 6] = [0xA1, 0xB2, 0xC3, 0xD4, 0xE5, 0xF6];
    let from_spec = Guid::from_spec(0xDEADBEEF, 0x1234, 0xABCD, 0x5A, 0xA5, &node);
    let from_native = Guid::from_native(
        efi_base::endian::u32_swap(0xDEADBEEF),
        efi_base::endian::u16_swap(0x1234),
        efi_base::endian::u16_swap(0xABCD),
        0x5A,
        0xA5,
        &node,
    );
    assert_eq!(from_spec.as_bytes(), from_native.as_bytes());
}

#[test]
fn spec_ctor_stores_literals_verbatim() {
    let node: [u8; 6] = [0x0B, 0x0C, 0x0D, 0x0E, 0x0F, 0x10];
    let g = Guid::from_spec(0x01020304, 0x0506, 0x0708, 0x09, 0x0A, &node);
    assert_eq!(g.time_low, 0x01020304);
    assert_eq!(g.time_mid, 0x0506);
    assert_eq!(g.time_hi_and_version, 0x0708);
    assert_eq!(g.clk_seq_hi_res, 0x09);
    assert_eq!(g.clk_seq_low, 0x0A);
    assert_eq!(g.node, node);
}

#[test]
fn raw_bytes_round_trip() {
    let node: [u8; 6] = [0x21, 0x43, 0x65, 0x87, 0xA9, 0xCB];
    let g = Guid::from_native(0xCAFEF00D, 0x4242, 0x8001, 0x7F, 0x80, &node);
    let bytes: [u8; 16] = g.as_bytes();
    let reread = Guid::from_bytes(&bytes);
    assert_eq!(reread.as_bytes(), bytes);
    assert_eq!(reread.time_low, g.time_low);
    assert_eq!(reread.time_mid, g.time_mid);
    assert_eq!(reread.time_hi_and_version, g.time_hi_and_version);
    assert_eq!(reread.clk_seq_hi_res, g.clk_seq_hi_res);
    assert_eq!(reread.clk_seq_low, g.clk_seq_low);
    assert_eq!(reread.node, g.node);
}

#[test]
fn from_bytes_reinterprets_without_transformation() {
    let bytes: [u8; 16] = [1, 2, 3, 4, 5, 6, 7, 8, 9, 10, 11, 12, 13, 14, 15, 16];
    let g = Guid::from_bytes(&bytes);
    assert_eq!(g.as_bytes(), bytes);
    // The stored scalar fields read the bytes least-significant-byte first.
    assert_eq!(g.time_low, 0x04030201);
    assert_eq!(g.time_mid, 0x0605);
    assert_eq!(g.time_hi_and_version, 0x0807);
    assert_eq!(g.clk_seq_hi_res, 9);
    assert_eq!(g.clk_seq_low, 10);
    assert_eq!(g.node, [11, 12, 13, 14, 15, 16]);
}

#[test]
fn all_zero_and_all_one_identifiers() {
    let zero_node: [u8; 6] = [0; 6];
    let zero = Guid::from_native(0, 0, 0, 0, 0, &zero_node);
    assert_eq!(zero.as_bytes(), [0u8; 16]);

    let ones_node: [u8; 6] = [0xFF; 6];
    let ones = Guid::from_native(u32::MAX, u16::MAX, u16::MAX, 0xFF, 0xFF, &ones_node);
    assert_eq!(ones.as_bytes(), [0xFFu8; 16]);
}
