use wg_mtu_finder::csv_format::{csv_header, csv_row};
use wg_mtu_finder::numeral::{dec_to_u32, u32_to_dec};

#[test]
fn header_names_the_six_columns() {
    assert_eq!(
        csv_header(),
        b"server_mtu,client_mtu,upload_rcv_mbps,upload_send_mbps,download_rcv_mbps,download_send_mbps\n"
            .to_vec()
    );
}

#[test]
fn row_joins_the_six_fields() {
    let row = csv_row(1500, 1280, b"10.5", b"11.25", b"20", b"0.125");
    assert_eq!(row, b"1500,1280,10.5,11.25,20,0.125\n".to_vec());
}

#[test]
fn row_renders_extreme_mtus() {
    let row = csv_row(0, u32::MAX, b"0", b"0", b"0", b"0");
    assert_eq!(row, b"0,4294967295,0,0,0,0\n".to_vec());
}

#[test]
fn row_matches_float_formatting() {
    // The shell renders rates with the default float formatting; the
    // row carries those bytes through unchanged.
    let up = format!("{}", 123.45f64);
    let row = csv_row(1400, 1380, up.as_bytes(), b"1", b"2", b"3");
    assert_eq!(row, b"1400,1380,123.45,1,2,3\n".to_vec());
}

#[test]
fn numerals_render_canonically() {
    assert_eq!(u32_to_dec(0), b"0".to_vec());
    assert_eq!(u32_to_dec(7), b"7".to_vec());
    assert_eq!(u32_to_dec(1420), b"1420".to_vec());
    assert_eq!(u32_to_dec(1000000), b"1000000".to_vec());
    assert_eq!(u32_to_dec(u32::MAX), b"4294967295".to_vec());
}

#[test]
fn numerals_read_back() {
    for n in [0u32, 1, 9, 10, 99, 1280, 1500, 65535, u32::MAX] {
        let digits = u32_to_dec(n);
        assert_eq!(dec_to_u32(digits.as_slice()), Some(n));
    }
}

#[test]
fn non_canonical_numerals_are_refused() {
    let bad: [&[u8]; 6] = [b"", b"01", b"00", b"12x4", b"4294967296", b"99999999999"];
    for s in bad {
        assert_eq!(dec_to_u32(s), None);
    }
}
