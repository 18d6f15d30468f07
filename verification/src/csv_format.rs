//! The result file's tabular format.
//!
//! The sink is an append-only comma-separated file: one fixed
//! six-column header, then one row per successful measurement.  The
//! verified part builds the exact bytes of the header and of each
//! row; only the writing and flushing of those bytes stays outside.
//! The two MTU columns are rendered here; the four bandwidth columns
//! arrive already rendered, because their values are floating-point
//! readings the verified logic never computes with.

use vstd::prelude::*;
use crate::numeral::dec_digits;
use crate::numeral::u32_to_dec;

verus! {

/// The header line, exactly:
/// `server_mtu,client_mtu,upload_rcv_mbps,upload_send_mbps,download_rcv_mbps,download_send_mbps`
/// with a trailing newline.
pub open spec fn csv_header_bytes() -> Seq<u8> {
    seq![
        0x73, 0x65, 0x72, 0x76, 0x65, 0x72, 0x5f, 0x6d, 0x74, 0x75, 0x2c, 0x63,
        0x6c, 0x69, 0x65, 0x6e, 0x74, 0x5f, 0x6d, 0x74, 0x75, 0x2c, 0x75, 0x70,
        0x6c, 0x6f, 0x61, 0x64, 0x5f, 0x72, 0x63, 0x76, 0x5f, 0x6d, 0x62, 0x70,
        0x73, 0x2c, 0x75, 0x70, 0x6c, 0x6f, 0x61, 0x64, 0x5f, 0x73, 0x65, 0x6e,
        0x64, 0x5f, 0x6d, 0x62, 0x70, 0x73, 0x2c, 0x64, 0x6f, 0x77, 0x6e, 0x6c,
        0x6f, 0x61, 0x64, 0x5f, 0x72, 0x63, 0x76, 0x5f, 0x6d, 0x62, 0x70, 0x73,
        0x2c, 0x64, 0x6f, 0x77, 0x6e, 0x6c, 0x6f, 0x61, 0x64, 0x5f, 0x73, 0x65,
        0x6e, 0x64, 0x5f, 0x6d, 0x62, 0x70, 0x73, 0x0a,
    ]
}

/// One data row: the two MTUs as decimal numerals, the four rate
/// fields verbatim, comma-separated and newline-terminated.
pub open spec fn csv_row_bytes(
    server_mtu: u32,
    client_mtu: u32,
    upload_rcv: Seq<u8>,
    upload_send: Seq<u8>,
    download_rcv: Seq<u8>,
    download_send: Seq<u8>,
) -> Seq<u8> {
    dec_digits(server_mtu as nat) + seq![0x2cu8] + dec_digits(client_mtu as nat) + seq![0x2cu8]
        + upload_rcv + seq![0x2cu8] + upload_send + seq![0x2cu8] + download_rcv + seq![0x2cu8]
        + download_send + seq![0x0au8]
}

/// Builds the header line.
pub fn csv_header() -> (v: Vec<u8>)
    ensures
        v@ == csv_header_bytes(),
{
    let mut v: Vec<u8> = Vec::new();
    v.push(0x73);
    v.push(0x65);
    v.push(0x72);
    v.push(0x76);
    v.push(0x65);
    v.push(0x72);
    v.push(0x5f);
    v.push(0x6d);
    v.push(0x74);
    v.push(0x75);
    v.push(0x2c);
    v.push(0x63);
    v.push(0x6c);
    v.push(0x69);
    v.push(0x65);
    v.push(0x6e);
    v.push(0x74);
    v.push(0x5f);
    v.push(0x6d);
    v.push(0x74);
    v.push(0x75);
    v.push(0x2c);
    v.push(0x75);
    v.push(0x70);
    v.push(0x6c);
    v.push(0x6f);
    v.push(0x61);
    v.push(0x64);
    v.push(0x5f);
    v.push(0x72);
    v.push(0x63);
    v.push(0x76);
    v.push(0x5f);
    v.push(0x6d);
    v.push(0x62);
    v.push(0x70);
    v.push(0x73);
    v.push(0x2c);
    v.push(0x75);
    v.push(0x70);
    v.push(0x6c);
    v.push(0x6f);
    v.push(0x61);
    v.push(0x64);
    v.push(0x5f);
    v.push(0x73);
    v.push(0x65);
    v.push(0x6e);
    v.push(0x64);
    v.push(0x5f);
    v.push(0x6d);
    v.push(0x62);
    v.push(0x70);
    v.push(0x73);
    v.push(0x2c);
    v.push(0x64);
    v.push(0x6f);
    v.push(0x77);
    v.push(0x6e);
    v.push(0x6c);
    v.push(0x6f);
    v.push(0x61);
    v.push(0x64);
    v.push(0x5f);
    v.push(0x72);
    v.push(0x63);
    v.push(0x76);
    v.push(0x5f);
    v.push(0x6d);
    v.push(0x62);
    v.push(0x70);
    v.push(0x73);
    v.push(0x2c);
    v.push(0x64);
    v.push(0x6f);
    v.push(0x77);
    v.push(0x6e);
    v.push(0x6c);
    v.push(0x6f);
    v.push(0x61);
    v.push(0x64);
    v.push(0x5f);
    v.push(0x73);
    v.push(0x65);
    v.push(0x6e);
    v.push(0x64);
    v.push(0x5f);
    v.push(0x6d);
    v.push(0x62);
    v.push(0x70);
    v.push(0x73);
    v.push(0x0a);
    assert(v@ =~= csv_header_bytes());
    v
}

/// Builds one data row from the two MTUs and the four
/// already-rendered rate fields.
pub fn csv_row(
    server_mtu: u32,
    client_mtu: u32,
    upload_rcv: &[u8],
    upload_send: &[u8],
    download_rcv: &[u8],
    download_send: &[u8],
) -> (v: Vec<u8>)
    ensures
        v@ == csv_row_bytes(
            server_mtu,
            client_mtu,
            upload_rcv@,
            upload_send@,
            download_rcv@,
            download_send@,
        ),
{
    let mut v = u32_to_dec(server_mtu);
    v.push(0x2c);
    let mut client = u32_to_dec(client_mtu);
    v.append(&mut client);
    v.push(0x2c);
    v.extend_from_slice(upload_rcv);
    v.push(0x2c);
    v.extend_from_slice(upload_send);
    v.push(0x2c);
    v.extend_from_slice(download_rcv);
    v.push(0x2c);
    v.extend_from_slice(download_send);
    v.push(0x0a);
    assert(v@ =~= csv_row_bytes(
        server_mtu,
        client_mtu,
        upload_rcv@,
        upload_send@,
        download_rcv@,
        download_send@,
    ));
    v
}

} // verus!
