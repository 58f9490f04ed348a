use vstd::prelude::*;

use crate::error::HostError;

verus! {

/// The four little-endian bytes of `n`.
pub open spec fn le_bytes(n: u32) -> Seq<u8> {
    seq![(n & 0xff) as u8, ((n >> 8u32) & 0xff) as u8, ((n >> 16u32) & 0xff) as u8, ((n >> 24u32) & 0xff) as u8]
}

/// The value of four little-endian bytes.
pub open spec fn le_value(b0: u8, b1: u8, b2: u8, b3: u8) -> u32 {
    (b0 as u32) | ((b1 as u32) << 8u32) | ((b2 as u32) << 16u32) | ((b3 as u32) << 24u32)
}

/// The length declared by the header of a buffer of at least four bytes.
pub open spec fn declared_len(b: Seq<u8>) -> nat
    recommends
        b.len() >= 4,
{
    le_value(b[0], b[1], b[2], b[3]) as nat
}

/// The envelope of a payload: its length as four little-endian bytes, then the payload.
pub open spec fn envelope(p: Seq<u8>) -> Seq<u8>
    recommends
        p.len() <= u32::MAX,
{
    le_bytes(p.len() as u32) + p
}

/// A buffer holds a whole envelope: a header and at least the declared number of bytes.
pub open spec fn well_framed(b: Seq<u8>) -> bool {
    b.len() >= 4 && 4 + declared_len(b) <= b.len()
}

/// The payload of a well-framed buffer; bytes past the declared length are ignored.
pub open spec fn payload_of(b: Seq<u8>) -> Seq<u8> {
    b.subrange(4, 4 + declared_len(b) as int)
}

/// Reading back the header of `le_bytes(n)` gives `n`.
pub proof fn lemma_le_round_trip(n: u32)
    ensures
        le_value(le_bytes(n)[0], le_bytes(n)[1], le_bytes(n)[2], le_bytes(n)[3]) == n,
{
    let b0 = (n & 0xff) as u8;
    let b1 = ((n >> 8u32) & 0xff) as u8;
    let b2 = ((n >> 16u32) & 0xff) as u8;
    let b3 = ((n >> 24u32) & 0xff) as u8;
    assert(((b0 as u32) | ((b1 as u32) << 8u32) | ((b2 as u32) << 16u32) | ((b3 as u32) << 24u32))
        == n) by (bit_vector)
        requires
            b0 == (n & 0xff) as u8,
            b1 == ((n >> 8u32) & 0xff) as u8,
            b2 == ((n >> 16u32) & 0xff) as u8,
            b3 == ((n >> 24u32) & 0xff) as u8,
    ;
}

/// Decoding an encoded payload gives the payload back.
pub proof fn lemma_envelope_round_trip(p: Seq<u8>)
    requires
        p.len() <= u32::MAX,
    ensures
        well_framed(envelope(p)),
        payload_of(envelope(p)) == p,
{
    let e = envelope(p);
    lemma_le_round_trip(p.len() as u32);
    assert(e[0] == le_bytes(p.len() as u32)[0]);
    assert(e[1] == le_bytes(p.len() as u32)[1]);
    assert(e[2] == le_bytes(p.len() as u32)[2]);
    assert(e[3] == le_bytes(p.len() as u32)[3]);
    assert(declared_len(e) == p.len());
    assert(e.subrange(4, 4 + p.len() as int) =~= p);
}

/// Frames `data` as an envelope: its length as a little-endian `u32`, then the bytes.
pub fn generate_wasm_data(data: Vec<u8>) -> (r: Vec<u8>)
    requires
        data@.len() <= u32::MAX,
    ensures
        r@ == envelope(data@),
{
    let data_len = data.len() as u32;
    let mut wasm_data: Vec<u8> = Vec::new();
    wasm_data.push(#[verifier::truncate] ((data_len & 0xff) as u8));
    wasm_data.push(#[verifier::truncate] (((data_len >> 8) & 0xff) as u8));
    wasm_data.push(#[verifier::truncate] (((data_len >> 16) & 0xff) as u8));
    wasm_data.push(#[verifier::truncate] (((data_len >> 24) & 0xff) as u8));
    let mut i: usize = 0;
    while i < data.len()
        invariant
            i <= data@.len(),
            wasm_data@ == le_bytes(data_len) + data@.subrange(0, i as int),
            data_len == data@.len(),
        decreases data@.len() - i,
    {
        wasm_data.push(data[i]);
        i = i + 1;
        assert(data@.subrange(0, i as int) == data@.subrange(0, i - 1) + seq![data@[i - 1]]);
    }
    assert(data@.subrange(0, data@.len() as int) == data@);
    wasm_data
}

/// Reads the payload out of an envelope. Bytes past the declared length are
/// ignored; a buffer shorter than its header or than its declared length is
/// refused.
pub fn extract_wasm_data(data: &[u8]) -> (r: Result<Vec<u8>, HostError>)
    ensures
        match r {
            Ok(p) => well_framed(data@) && p@ == payload_of(data@),
            Err(e) => !well_framed(data@) && e == HostError::MalformedEnvelope,
        },
{
    if data.len() < 4 {
        return Err(HostError::MalformedEnvelope);
    }
    let n: u32 = (data[0] as u32) | ((data[1] as u32) << 8) | ((data[2] as u32) << 16) | ((data[3]
        as u32) << 24);
    let n = n as usize;
    if n > data.len() - 4 {
        return Err(HostError::MalformedEnvelope);
    }
    let mut out: Vec<u8> = Vec::new();
    let mut i: usize = 0;
    while i < n
        invariant
            i <= n,
            n == declared_len(data@),
            4 + n <= data.len(),
            out@ == data@.subrange(4, 4 + i as int),
        decreases n - i,
    {
        out.push(data[4 + i]);
        i = i + 1;
        assert(data@.subrange(4, 4 + i as int) == data@.subrange(4, 4 + i - 1) + seq![data@[4 + i - 1]]);
    }
    Ok(out)
}

} // verus!
