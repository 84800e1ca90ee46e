use h264_reader::rbsp::BitReaderError;
use h264_reader::rbsp::RbspBitReader;

#[test]
fn fixed_width_reads_are_msb_first() {
    let data: [u8; 4] = [0x12, 0x34, 0x56, 0x78];
    let mut r = RbspBitReader::new(&data[..]);
    assert_eq!(r.read_u32(32), Ok(0x12345678));

    let mut r = RbspBitReader::new(&data[..]);
    assert_eq!(r.read_u8(4), Ok(0x1));
    assert_eq!(r.read_u8(4), Ok(0x2));
    assert_eq!(r.read_u16(16), Ok(0x3456));
    assert_eq!(r.read_u8(8), Ok(0x78));
    assert_eq!(r.read_bool(), Err(BitReaderError::NotEnoughData));
}

#[test]
fn read_bool_consumes_one_bit() {
    let data: [u8; 1] = [0b1010_0000];
    let mut r = RbspBitReader::new(&data[..]);
    assert_eq!(r.read_bool(), Ok(true));
    assert_eq!(r.read_bool(), Ok(false));
    assert_eq!(r.read_bool(), Ok(true));
    assert_eq!(r.read_bool(), Ok(false));
}

#[test]
fn exp_golomb_encoding_decodes_to_formula() {
    // Codeword '1': zero leading zeros, value 2^0 - 1 + 0 = 0.
    let mut r = RbspBitReader::new(&[0b1000_0000][..]);
    assert_eq!(r.read_ue(), Ok(0));
    // Codeword '00101': two leading zeros, suffix 01, value 2^2 - 1 + 1 = 4.
    let mut r = RbspBitReader::new(&[0b0010_1000][..]);
    assert_eq!(r.read_ue(), Ok(4));
    // Codeword '000100011': suffix 0011, value 2^4 - 1 + 3 = 18... use k = 3:
    // '0001000' is 2^3 - 1 + 0 = 7.
    let mut r = RbspBitReader::new(&[0b0001_0000][..]);
    assert_eq!(r.read_ue(), Ok(7));
    // k = 16 zero bits, a one, then 16 suffix bits of value 5:
    // value 2^16 - 1 + 5 = 65540.
    let data: [u8; 5] = [0x00, 0x00, 0x80, 0x02, 0x80];
    let mut r = RbspBitReader::new(&data[..]);
    assert_eq!(r.read_ue(), Ok(65540));
}

#[test]
fn successive_ue_values_share_the_buffer() {
    // '1', '010', '011', '00100', '00101' -> 0, 1, 2, 3, 4.
    let data: [u8; 3] = [0b1010_0110, 0b0100_0010, 0b1000_0000];
    let mut r = RbspBitReader::new(&data[..]);
    assert_eq!(r.read_ue(), Ok(0));
    assert_eq!(r.read_ue(), Ok(1));
    assert_eq!(r.read_ue(), Ok(2));
    assert_eq!(r.read_ue(), Ok(3));
    assert_eq!(r.read_ue(), Ok(4));
}

#[test]
fn se_maps_alternating_signs() {
    // The same codewords as unsigned 0, 1, 2, 3, 4 read as signed values
    // 0, 1, -1, 2, -2.
    let data: [u8; 3] = [0b1010_0110, 0b0100_0010, 0b1000_0000];
    let mut r = RbspBitReader::new(&data[..]);
    assert_eq!(r.read_se(), Ok(0));
    assert_eq!(r.read_se(), Ok(1));
    assert_eq!(r.read_se(), Ok(-1));
    assert_eq!(r.read_se(), Ok(2));
    assert_eq!(r.read_se(), Ok(-2));
}

#[test]
fn exhausted_buffer_is_an_error_not_a_panic() {
    let mut r = RbspBitReader::new(&[][..]);
    assert_eq!(r.read_bool(), Err(BitReaderError::NotEnoughData));
    assert_eq!(r.read_ue(), Err(BitReaderError::NotEnoughData));

    // A codeword whose leading-zero run hits the end of the buffer.
    let mut r = RbspBitReader::new(&[0x00][..]);
    assert_eq!(r.read_ue(), Err(BitReaderError::NotEnoughData));

    // A terminated codeword whose suffix is cut short.
    let mut r = RbspBitReader::new(&[0b0000_0001][..]);
    assert_eq!(r.read_ue(), Err(BitReaderError::NotEnoughData));
}

#[test]
fn overlong_exp_golomb_codeword_is_rejected() {
    // 32 leading zero bits cannot begin a codeword that fits a u32.
    let data: [u8; 9] = [0, 0, 0, 0, 0x80, 0, 0, 0, 0x80];
    let mut r = RbspBitReader::new(&data[..]);
    assert_eq!(r.read_ue(), Err(BitReaderError::ExpGolombTooLong));
}

#[test]
fn named_reads_behave_like_unnamed_ones() {
    let data: [u8; 1] = [0b0010_1100];
    let mut r = RbspBitReader::new(&data[..]);
    assert_eq!(r.read_ue_named("some_field"), Ok(4));
    assert_eq!(r.read_bool_named("some_flag"), Ok(true));
}
