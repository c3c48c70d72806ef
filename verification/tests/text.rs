use telemetry_reader::text::zascii;

#[test]
fn name_field_decodes_visible_bytes_only() {
    let mut field = [0u8; 64];
    field[0] = b'C';
    field[1] = b'a';
    field[2] = b'r';
    assert_eq!(zascii(&field), "Car");
}

#[test]
fn leading_zero_decodes_to_empty_string() {
    let mut field = [0u8; 64];
    field[1] = b'h'; // bytes after the terminator are undefined junk
    assert_eq!(zascii(&field), "");
}

#[test]
fn unterminated_field_decodes_whole_capacity() {
    let field = [b'z'; 40];
    assert_eq!(zascii(&field), "z".repeat(40));
}

#[test]
fn empty_slice_decodes_to_empty_string() {
    assert_eq!(zascii(&[]), "");
}

#[test]
fn bytes_after_terminator_never_show() {
    let mut field = [b'!'; 64];
    field[3] = 0;
    field[0] = b'a';
    field[1] = b'b';
    field[2] = b'c';
    assert_eq!(zascii(&field), "abc");
}
