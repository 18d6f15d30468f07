//! The framed control-message codec.
//!
//! On the wire every control message is one frame: a 4-byte
//! big-endian length followed by that many bytes of payload.  The
//! payload is a small self-describing text form: the three bare
//! variants are their quoted names, and `MtuValue` is a one-field
//! object whose value is a canonical decimal numeral.  The decoder
//! accepts exactly the encoder's output and reports anything else as
//! a malformed frame.

use vstd::prelude::*;
use vstd::arithmetic::div_mod::{
    lemma_fundamental_div_mod, lemma_fundamental_div_mod_converse_div,
    lemma_fundamental_div_mod_converse_mod, lemma_mod_mod, lemma_multiply_divide_lt,
};
use vstd::slice::slice_subrange;
use crate::messages::{Message, ProtocolError};
use crate::numeral::{
    dec_digits, dec_to_u32, lemma_dec_digits_canonical, lemma_dec_digits_len,
    lemma_dec_digits_value, lemma_pow10_value, u32_to_dec,
};

verus! {

/// Payload of `Message::ServerReady`: the quoted variant name.
pub open spec fn server_ready_bytes() -> Seq<u8> {
    seq![0x22, 0x53, 0x65, 0x72, 0x76, 0x65, 0x72, 0x52, 0x65, 0x61, 0x64, 0x79, 0x22]
}

/// Payload of `Message::PeerDone`: the quoted variant name.
pub open spec fn peer_done_bytes() -> Seq<u8> {
    seq![0x22, 0x50, 0x65, 0x65, 0x72, 0x44, 0x6f, 0x6e, 0x65, 0x22]
}

/// Payload of `Message::Finish`: the quoted variant name.
pub open spec fn finish_bytes() -> Seq<u8> {
    seq![0x22, 0x46, 0x69, 0x6e, 0x69, 0x73, 0x68, 0x22]
}

/// The opening of a `Message::MtuValue` payload, up to the numeral.
pub open spec fn mtu_value_prefix() -> Seq<u8> {
    seq![0x7b, 0x22, 0x4d, 0x74, 0x75, 0x56, 0x61, 0x6c, 0x75, 0x65, 0x22, 0x3a]
}

/// The payload encoding of one control message.
pub open spec fn payload_bytes(m: Message) -> Seq<u8> {
    match m {
        Message::ServerReady => server_ready_bytes(),
        Message::PeerDone => peer_done_bytes(),
        Message::Finish => finish_bytes(),
        Message::MtuValue(v) => mtu_value_prefix() + dec_digits(v as nat) + seq![0x7d],
    }
}

/// The four big-endian bytes of a 32-bit length.
pub open spec fn u32_be(n: u32) -> Seq<u8> {
    seq![
        (n / 0x1000000) as u8,
        ((n % 0x1000000) / 0x10000) as u8,
        ((n % 0x10000) / 0x100) as u8,
        (n % 0x100) as u8,
    ]
}

/// The length written by four big-endian bytes.
pub open spec fn be_value(s: Seq<u8>) -> int {
    s[0] * 0x1000000 + s[1] * 0x10000 + s[2] * 0x100 + s[3]
}

/// A whole frame: big-endian payload length, then the payload.
pub open spec fn frame_bytes(m: Message) -> Seq<u8> {
    u32_be(payload_bytes(m).len() as u32) + payload_bytes(m)
}

/// No payload is longer than 23 bytes (the longest is `MtuValue`
/// with a ten-digit numeral), and none is empty.
pub proof fn lemma_payload_len(m: Message)
    ensures
        1 <= payload_bytes(m).len() <= 23,
{
    if let Message::MtuValue(v) = m {
        lemma_dec_digits_canonical(v as nat);
        lemma_pow10_value();
        lemma_dec_digits_len(v as nat, 10);
    }
}

/// Reading four big-endian bytes back yields the number they were
/// made from.
pub proof fn lemma_be_round_trip(n: u32)
    ensures
        be_value(u32_be(n)) == n,
{
    lemma_multiply_divide_lt(n as int, 0x1000000, 0x100);
    lemma_multiply_divide_lt((n as int) % 0x1000000, 0x10000, 0x100);
    lemma_multiply_divide_lt((n as int) % 0x10000, 0x100, 0x100);
    lemma_fundamental_div_mod(n as int, 0x1000000);
    lemma_fundamental_div_mod((n as int) % 0x1000000, 0x10000);
    lemma_fundamental_div_mod((n as int) % 0x10000, 0x100);
    lemma_mod_mod(n as int, 0x10000, 0x100);
    lemma_mod_mod(n as int, 0x100, 0x100);
}

/// Distinct messages never share an encoding, so a decoded payload
/// identifies the message that produced it: together with the codec
/// contracts this is the round-trip law for the framed channel.
pub proof fn lemma_payload_injective(m1: Message, m2: Message)
    requires
        payload_bytes(m1) == payload_bytes(m2),
    ensures
        m1 == m2,
{
    lemma_payload_len(m1);
    lemma_payload_len(m2);
    match (m1, m2) {
        (Message::MtuValue(v1), Message::MtuValue(v2)) => {
            lemma_dec_digits_canonical(v1 as nat);
            lemma_dec_digits_canonical(v2 as nat);
            let d1 = dec_digits(v1 as nat);
            let d2 = dec_digits(v2 as nat);
            assert(payload_bytes(m1).len() == 13 + d1.len());
            assert(payload_bytes(m2).len() == 13 + d2.len());
            assert(d1 =~= d2) by {
                assert(forall|i: int|
                    0 <= i < d1.len() ==> #[trigger] d1[i] == payload_bytes(m1)[12 + i]);
                assert(forall|i: int|
                    0 <= i < d2.len() ==> #[trigger] d2[i] == payload_bytes(m2)[12 + i]);
            }
            lemma_dec_digits_value(v1 as nat);
            lemma_dec_digits_value(v2 as nat);
        },
        _ => {
            // Different variants differ in length or in the first
            // byte, so equal payloads force equal variants.
            assert(payload_bytes(m1)[0] == payload_bytes(m2)[0]);
        },
    }
}

/// Compares two byte slices for equality.
fn slice_eq(a: &[u8], b: &[u8]) -> (r: bool)
    ensures
        r <==> a@ == b@,
{
    if a.len() != b.len() {
        proof {
            assert(a@.len() != b@.len());
        }
        return false;
    }
    let mut i: usize = 0;
    while i < a.len()
        invariant
            0 <= i <= a@.len(),
            a@.len() == b@.len(),
            forall|j: int| 0 <= j < i ==> a@[j] == b@[j],
        decreases a@.len() - i,
    {
        if a[i] != b[i] {
            return false;
        }
        i = i + 1;
    }
    proof {
        assert(a@ =~= b@);
    }
    true
}

/// Serializes one control message into its payload bytes.
pub fn encode_message(m: &Message) -> (v: Vec<u8>)
    ensures
        v@ == payload_bytes(*m),
{
    match m {
        Message::ServerReady => {
            let mut v: Vec<u8> = Vec::new();
            v.push(0x22);
            v.push(0x53);
            v.push(0x65);
            v.push(0x72);
            v.push(0x76);
            v.push(0x65);
            v.push(0x72);
            v.push(0x52);
            v.push(0x65);
            v.push(0x61);
            v.push(0x64);
            v.push(0x79);
            v.push(0x22);
            assert(v@ =~= server_ready_bytes());
            v
        },
        Message::PeerDone => {
            let mut v: Vec<u8> = Vec::new();
            v.push(0x22);
            v.push(0x50);
            v.push(0x65);
            v.push(0x65);
            v.push(0x72);
            v.push(0x44);
            v.push(0x6f);
            v.push(0x6e);
            v.push(0x65);
            v.push(0x22);
            assert(v@ =~= peer_done_bytes());
            v
        },
        Message::Finish => {
            let mut v: Vec<u8> = Vec::new();
            v.push(0x22);
            v.push(0x46);
            v.push(0x69);
            v.push(0x6e);
            v.push(0x69);
            v.push(0x73);
            v.push(0x68);
            v.push(0x22);
            assert(v@ =~= finish_bytes());
            v
        },
        Message::MtuValue(x) => {
            let mut v = mtu_value_prefix_vec();
            let mut digits = u32_to_dec(*x);
            v.append(&mut digits);
            v.push(0x7d);
            assert(v@ =~= payload_bytes(*m));
            v
        },
    }
}

/// Builds the fixed opening of a `MtuValue` payload.
fn mtu_value_prefix_vec() -> (v: Vec<u8>)
    ensures
        v@ == mtu_value_prefix(),
{
    let mut v: Vec<u8> = Vec::new();
    v.push(0x7b);
    v.push(0x22);
    v.push(0x4d);
    v.push(0x74);
    v.push(0x75);
    v.push(0x56);
    v.push(0x61);
    v.push(0x6c);
    v.push(0x75);
    v.push(0x65);
    v.push(0x22);
    v.push(0x3a);
    assert(v@ =~= mtu_value_prefix());
    v
}

/// Recognizes a `MtuValue` payload and extracts its value; refuses
/// every byte string that no `MtuValue` message encodes to.
fn try_decode_mtu_value(payload: &[u8]) -> (r: Option<u32>)
    ensures
        r is Some ==> payload@ == payload_bytes(Message::MtuValue(r->0)),
        r is None ==> forall|v: u32| payload@ != payload_bytes(Message::MtuValue(v)),
{
    let n = payload.len();
    proof {
        assert forall|v: u32| #[trigger] payload_bytes(Message::MtuValue(v)).len() >= 14 by {
            lemma_dec_digits_canonical(v as nat);
        }
    }
    if n < 14 {
        return None;
    }
    let head = slice_subrange(payload, 0, 12);
    let pre = mtu_value_prefix_vec();
    if !slice_eq(head, pre.as_slice()) {
        proof {
            assert forall|v: u32| payload@ != payload_bytes(Message::MtuValue(v)) by {
                if payload@ == payload_bytes(Message::MtuValue(v)) {
                    assert(payload@.subrange(0, 12) =~= mtu_value_prefix());
                }
            }
        }
        return None;
    }
    if payload[n - 1] != 0x7d {
        proof {
            assert forall|v: u32| payload@ != payload_bytes(Message::MtuValue(v)) by {
                if payload@ == payload_bytes(Message::MtuValue(v)) {
                    lemma_dec_digits_canonical(v as nat);
                    assert(payload@[n - 1] == 0x7d);
                }
            }
        }
        return None;
    }
    let mid = slice_subrange(payload, 12, n - 1);
    match dec_to_u32(mid) {
        Some(v) => {
            proof {
                assert(payload@ =~= payload_bytes(Message::MtuValue(v)));
            }
            Some(v)
        },
        None => {
            proof {
                assert forall|v: u32| payload@ != payload_bytes(Message::MtuValue(v)) by {
                    if payload@ == payload_bytes(Message::MtuValue(v)) {
                        lemma_dec_digits_canonical(v as nat);
                        assert(payload@.len() == 13 + dec_digits(v as nat).len());
                        assert(mid@ =~= dec_digits(v as nat));
                    }
                }
            }
            None
        },
    }
}

/// Deserializes a payload back into a control message.  Every byte
/// string that is not the exact encoding of some message is refused
/// as malformed.
pub fn decode_message(payload: &[u8]) -> (r: Result<Message, ProtocolError>)
    ensures
        r is Ok ==> payload@ == payload_bytes(r->Ok_0),
        r is Err ==> r->Err_0 == ProtocolError::Malformed && forall|m: Message|
            payload@ != payload_bytes(m),
{
    let sr = encode_message(&Message::ServerReady);
    if slice_eq(payload, sr.as_slice()) {
        return Ok(Message::ServerReady);
    }
    let pd = encode_message(&Message::PeerDone);
    if slice_eq(payload, pd.as_slice()) {
        return Ok(Message::PeerDone);
    }
    let fi = encode_message(&Message::Finish);
    if slice_eq(payload, fi.as_slice()) {
        return Ok(Message::Finish);
    }
    match try_decode_mtu_value(payload) {
        Some(v) => Ok(Message::MtuValue(v)),
        None => {
            proof {
                assert forall|m: Message| payload@ != payload_bytes(m) by {
                    if payload@ == payload_bytes(m) {
                        match m {
                            Message::ServerReady => {},
                            Message::PeerDone => {},
                            Message::Finish => {},
                            Message::MtuValue(v) => {},
                        }
                    }
                }
            }
            Err(ProtocolError::Malformed)
        },
    }
}

/// Writes the four big-endian bytes of a 32-bit length.
pub fn u32_to_be(n: u32) -> (v: Vec<u8>)
    ensures
        v@ == u32_be(n),
{
    proof {
        lemma_multiply_divide_lt(n as int, 0x1000000, 0x100);
        lemma_multiply_divide_lt((n as int) % 0x1000000, 0x10000, 0x100);
        lemma_multiply_divide_lt((n as int) % 0x10000, 0x100, 0x100);
    }
    let mut v: Vec<u8> = Vec::new();
    v.push((n / 0x1000000) as u8);
    v.push(((n % 0x1000000) / 0x10000) as u8);
    v.push(((n % 0x10000) / 0x100) as u8);
    v.push((n % 0x100) as u8);
    assert(v@ =~= u32_be(n));
    v
}

/// Reads a 32-bit length from its four big-endian bytes.
pub fn u32_from_be(b: &[u8]) -> (n: u32)
    requires
        b@.len() == 4,
    ensures
        n == be_value(b@),
{
    let b0 = b[0] as u32;
    let b1 = b[1] as u32;
    let b2 = b[2] as u32;
    let b3 = b[3] as u32;
    b0 * 0x1000000 + b1 * 0x10000 + b2 * 0x100 + b3
}

/// Serializes one control message into a whole frame: the payload
/// length as four big-endian bytes, then the payload.
pub fn encode_frame(m: &Message) -> (v: Vec<u8>)
    ensures
        v@ == frame_bytes(*m),
{
    let mut payload = encode_message(m);
    proof {
        lemma_payload_len(*m);
    }
    let mut v = u32_to_be(payload.len() as u32);
    v.append(&mut payload);
    v
}

/// Deserializes one complete frame.  A buffer shorter than its
/// declared length is truncated; a longer one, or one whose payload
/// decodes to no message, is malformed.
pub fn decode_frame(buf: &[u8]) -> (r: Result<Message, ProtocolError>)
    ensures
        r is Ok ==> buf@ == frame_bytes(r->Ok_0),
        r is Err ==> forall|m: Message| buf@ != frame_bytes(m),
{
    proof {
        assert forall|m: Message| #[trigger] frame_bytes(m).len() >= 5 by {
            lemma_payload_len(m);
        }
    }
    let n = buf.len();
    if n < 4 {
        return Err(ProtocolError::Truncated);
    }
    let header = slice_subrange(buf, 0, 4);
    let declared = u32_from_be(header);
    proof {
        assert forall|m: Message| buf@ == frame_bytes(m) implies declared
            == payload_bytes(m).len() by {
            lemma_payload_len(m);
            assert(buf@.subrange(0, 4) =~= u32_be(payload_bytes(m).len() as u32));
            lemma_be_round_trip(payload_bytes(m).len() as u32);
        }
    }
    if declared > 0xFFFF || ((n - 4) as u64) != (declared as u64) {
        // A mismatch between the declared and the received length
        // means the stream was cut or padded.
        proof {
            assert forall|m: Message| buf@ != frame_bytes(m) by {
                if buf@ == frame_bytes(m) {
                    lemma_payload_len(m);
                }
            }
        }
        if ((n - 4) as u64) < (declared as u64) {
            return Err(ProtocolError::Truncated);
        }
        return Err(ProtocolError::Malformed);
    }
    let payload = slice_subrange(buf, 4, n);
    match decode_message(payload) {
        Ok(m) => {
            proof {
                lemma_payload_len(m);
                lemma_be_inverse(header@);
                assert(buf@ =~= frame_bytes(m)) by {
                    assert(payload@ == payload_bytes(m));
                    assert(payload@.len() == declared);
                    assert(header@ == u32_be(declared));
                }
            }
            Ok(m)
        },
        Err(e) => {
            proof {
                assert forall|m: Message| buf@ != frame_bytes(m) by {
                    if buf@ == frame_bytes(m) {
                        lemma_payload_len(m);
                        assert(payload@ =~= payload_bytes(m));
                    }
                }
            }
            Err(e)
        },
    }
}

/// Four bytes are exactly the big-endian rendering of the length
/// they write: reading and rewriting them changes nothing.
pub proof fn lemma_be_inverse(s: Seq<u8>)
    requires
        s.len() == 4,
    ensures
        0 <= be_value(s) <= u32::MAX,
        u32_be(be_value(s) as u32) == s,
{
    let v = be_value(s);
    let low = s[1] * 0x10000 + s[2] * 0x100 + s[3];
    assert(0 <= low < 0x1000000);
    lemma_fundamental_div_mod_converse_div(v, 0x1000000, s[0] as int, low);
    lemma_fundamental_div_mod_converse_mod(v, 0x1000000, s[0] as int, low);
    let low2 = s[2] * 0x100 + s[3];
    assert(0 <= low2 < 0x10000);
    lemma_fundamental_div_mod_converse_div(low, 0x10000, s[1] as int, low2);
    lemma_fundamental_div_mod_converse_mod(v, 0x10000, s[0] * 0x100 + s[1], low2);
    lemma_fundamental_div_mod_converse_div(low2, 0x100, s[2] as int, s[3] as int);
    lemma_fundamental_div_mod_converse_mod(
        v,
        0x100,
        s[0] * 0x10000 + s[1] * 0x100 + s[2],
        s[3] as int,
    );
    assert(u32_be(v as u32) =~= s);
}

} // verus!
