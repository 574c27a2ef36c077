//! Fixed-width binary encodings used on the wire: the big-endian 16-bit
//! vector-length header and big-endian 64-bit prediction samples.

use vstd::prelude::*;
use crate::errors::ProtocolError;

verus! {

/// Number of bytes in the stream header.
pub const HEADER_BYTES: usize = 2;

/// Number of bytes of one prediction sample (one IEEE-754 double).
pub const SAMPLE_BYTES: usize = 8;

/// The two big-endian bytes of a 16-bit channel count.
pub open spec fn header_bytes_of(n: u16) -> Seq<u8> {
    seq![(n >> 8) as u8, n as u8]
}

/// The 16-bit channel count read from two big-endian bytes.
pub open spec fn header_value_of(b: Seq<u8>) -> u16 {
    (((b[0] as u16) << 8) | (b[1] as u16)) as u16
}

/// Encoding a channel count and decoding the two bytes gives the count
/// back, for every 16-bit value; so the width a responder negotiates from
/// an initiator's exact header is the width the initiator sent.
pub proof fn lemma_header_round_trip(n: u16)
    ensures
        header_value_of(header_bytes_of(n)) == n,
        header_value_of(header_bytes_of(n).take(2)) == n,
{
    let b = header_bytes_of(n);
    assert(((((n >> 8) as u8) as u16) << 8 | ((n as u8) as u16)) == n) by (bit_vector);
    assert(b[0] == (n >> 8) as u8 && b[1] == n as u8);
    assert(b.take(2) =~= b);
}

/// The eight big-endian bytes of one 64-bit prediction sample.
pub open spec fn sample_bytes_of(x: u64) -> Seq<u8> {
    seq![
        (x >> 56) as u8,
        (x >> 48) as u8,
        (x >> 40) as u8,
        (x >> 32) as u8,
        (x >> 24) as u8,
        (x >> 16) as u8,
        (x >> 8) as u8,
        x as u8,
    ]
}

/// The 64-bit sample read from eight big-endian bytes.
pub open spec fn sample_value_of(b: Seq<u8>) -> u64 {
    (((b[0] as u64) << 56) | ((b[1] as u64) << 48) | ((b[2] as u64) << 40)
        | ((b[3] as u64) << 32) | ((b[4] as u64) << 24) | ((b[5] as u64) << 16)
        | ((b[6] as u64) << 8) | (b[7] as u64)) as u64
}

/// Encoding a sample and decoding the eight bytes gives the sample back.
pub proof fn lemma_sample_round_trip(x: u64)
    ensures
        sample_value_of(sample_bytes_of(x)) == x,
{
    let b = sample_bytes_of(x);
    assert(((((x >> 56) as u8) as u64) << 56 | (((x >> 48) as u8) as u64) << 48
        | (((x >> 40) as u8) as u64) << 40 | (((x >> 32) as u8) as u64) << 32
        | (((x >> 24) as u8) as u64) << 24 | (((x >> 16) as u8) as u64) << 16
        | (((x >> 8) as u8) as u64) << 8 | ((x as u8) as u64)) == x) by (bit_vector);
}

/// The byte image of a whole prediction vector: the samples' big-endian
/// bytes, concatenated in vector order with no delimiters.
pub open spec fn frame_bytes_of(v: Seq<u64>) -> Seq<u8>
    decreases v.len(),
{
    if v.len() == 0 {
        Seq::empty()
    } else {
        frame_bytes_of(v.drop_last()) + sample_bytes_of(v.last())
    }
}

/// The prediction vector read from a frame of whole samples.
pub open spec fn frame_values_of(b: Seq<u8>) -> Seq<u64> {
    Seq::new(b.len() / 8, |k: int| sample_value_of(b.subrange(8 * k, 8 * k + 8)))
}

/// A frame holds eight bytes per sample.
pub proof fn lemma_frame_bytes_len(v: Seq<u64>)
    ensures
        frame_bytes_of(v).len() == 8 * v.len(),
    decreases v.len(),
{
    if v.len() > 0 {
        lemma_frame_bytes_len(v.drop_last());
    }
}

/// The bytes of sample `k` stand at offset `8 * k` of the frame.
pub proof fn lemma_frame_bytes_index(v: Seq<u64>, k: int)
    requires
        0 <= k < v.len(),
    ensures
        frame_bytes_of(v).subrange(8 * k, 8 * k + 8) == sample_bytes_of(v[k]),
    decreases v.len(),
{
    lemma_frame_bytes_len(v);
    lemma_frame_bytes_len(v.drop_last());
    if k == v.len() - 1 {
        assert(frame_bytes_of(v).subrange(8 * k, 8 * k + 8) =~= sample_bytes_of(v.last()));
    } else {
        lemma_frame_bytes_index(v.drop_last(), k);
        assert(frame_bytes_of(v).subrange(8 * k, 8 * k + 8) =~= frame_bytes_of(
            v.drop_last(),
        ).subrange(8 * k, 8 * k + 8));
    }
}

/// Encoding a prediction vector and decoding the frame gives the vector
/// back, bit for bit, whatever the samples hold.
pub proof fn lemma_frame_round_trip(v: Seq<u64>)
    ensures
        frame_values_of(frame_bytes_of(v)) == v,
{
    lemma_frame_bytes_len(v);
    assert forall|k: int| 0 <= k < v.len() implies frame_values_of(frame_bytes_of(v))[k] == v[k] by {
        lemma_frame_bytes_index(v, k);
        lemma_sample_round_trip(v[k]);
    }
    assert(frame_values_of(frame_bytes_of(v)) =~= v);
}

/// The IEEE-754 double bit pattern of a spike count, the value the filter
/// side feeds to its predictor. Every count 0..=255 is exactly
/// representable: the pattern is sign 0, biased exponent `1023 + p` where
/// `p` is the position of the count's highest set bit, and the bits below
/// that one shifted to the top of the 52-bit mantissa. Written out per
/// exponent, with `0x10000000000000` for two to the 52nd:
pub open spec fn sample_bits_of_count(b: u8) -> u64 {
    if b == 0 {
        0u64
    } else if b >= 128 {
        (1030 * 0x10000000000000 + ((b - 128) as u64) * 0x200000000000) as u64
    } else if b >= 64 {
        (1029 * 0x10000000000000 + ((b - 64) as u64) * 0x400000000000) as u64
    } else if b >= 32 {
        (1028 * 0x10000000000000 + ((b - 32) as u64) * 0x800000000000) as u64
    } else if b >= 16 {
        (1027 * 0x10000000000000 + ((b - 16) as u64) * 0x1000000000000) as u64
    } else if b >= 8 {
        (1026 * 0x10000000000000 + ((b - 8) as u64) * 0x2000000000000) as u64
    } else if b >= 4 {
        (1025 * 0x10000000000000 + ((b - 4) as u64) * 0x4000000000000) as u64
    } else if b >= 2 {
        (1024 * 0x10000000000000 + ((b - 2) as u64) * 0x8000000000000) as u64
    } else {
        (1023 * 0x10000000000000) as u64
    }
}

/// The double bit patterns of a whole spike vector, element by element.
pub open spec fn samples_of_counts(s: Seq<u8>) -> Seq<u64> {
    s.map_values(|b: u8| sample_bits_of_count(b))
}

/// Convert one spike count to the bit pattern of its value as a double.
pub fn count_to_sample_bits(b: u8) -> (r: u64)
    ensures
        r == sample_bits_of_count(b),
{
    if b == 0 {
        0u64
    } else if b >= 128 {
        1030 * 0x10000000000000 + ((b - 128) as u64) * 0x200000000000
    } else if b >= 64 {
        1029 * 0x10000000000000 + ((b - 64) as u64) * 0x400000000000
    } else if b >= 32 {
        1028 * 0x10000000000000 + ((b - 32) as u64) * 0x800000000000
    } else if b >= 16 {
        1027 * 0x10000000000000 + ((b - 16) as u64) * 0x1000000000000
    } else if b >= 8 {
        1026 * 0x10000000000000 + ((b - 8) as u64) * 0x2000000000000
    } else if b >= 4 {
        1025 * 0x10000000000000 + ((b - 4) as u64) * 0x4000000000000
    } else if b >= 2 {
        1024 * 0x10000000000000 + ((b - 2) as u64) * 0x8000000000000
    } else {
        1023 * 0x10000000000000
    }
}

/// Convert a spike vector to the bit patterns of its values as doubles.
pub fn counts_to_samples(v: &Vec<u8>) -> (r: Vec<u64>)
    ensures
        r@ == samples_of_counts(v@),
{
    let mut out: Vec<u64> = Vec::new();
    let mut i: usize = 0;
    while i < v.len()
        invariant
            i <= v@.len(),
            out@.len() == i,
            forall|j: int| 0 <= j < i ==> out@[j] == sample_bits_of_count(v@[j]),
        decreases v@.len() - i,
    {
        out.push(count_to_sample_bits(v[i]));
        i = i + 1;
    }
    proof {
        assert(out@ =~= samples_of_counts(v@));
    }
    out
}

/// Header sent from probe to filter, carrying the number of channels
/// ("neurons") of every frame that follows.
pub struct Header {
    pub num_neurons: u16,
}

impl Header {
    /// Encode the header as its two big-endian bytes.
    pub fn to_bytes(&self) -> (r: [u8; 2])
        ensures
            r@ == header_bytes_of(self.num_neurons),
    {
        let hi: u8 = (self.num_neurons >> 8) as u8;
        let lo: u8 = self.num_neurons as u8;
        let r = [hi, lo];
        proof {
            assert(r@ =~= header_bytes_of(self.num_neurons));
        }
        r
    }

    /// Decode a header from two big-endian bytes.
    pub fn from_bytes(bytes: [u8; 2]) -> (r: Header)
        ensures
            r.num_neurons == header_value_of(bytes@),
    {
        let n: u16 = ((bytes[0] as u16) << 8) | (bytes[1] as u16);
        Header { num_neurons: n }
    }
}

/// Encode a channel count as the two-byte big-endian header.
pub fn encode_header(n: u16) -> (r: Vec<u8>)
    ensures
        r@ == header_bytes_of(n),
{
    let mut out: Vec<u8> = Vec::new();
    out.push((n >> 8) as u8);
    out.push(n as u8);
    proof {
        assert(out@ =~= header_bytes_of(n));
    }
    out
}

/// Decode a channel count from a received header. Every 16-bit value is
/// legal, so this fails only on a short read.
pub fn decode_header(b: &Vec<u8>) -> (r: Result<u16, ProtocolError>)
    ensures
        b@.len() >= 2 ==> r == Ok::<u16, ProtocolError>(header_value_of(b@.take(2))),
        b@.len() < 2 ==> r == Err::<u16, ProtocolError>(ProtocolError::MalformedFrame),
{
    if b.len() < HEADER_BYTES {
        return Err(ProtocolError::MalformedFrame);
    }
    let n: u16 = ((b[0] as u16) << 8) | (b[1] as u16);
    proof {
        assert(b@.take(2)[0] == b@[0] && b@.take(2)[1] == b@[1]);
    }
    Ok(n)
}

/// Encode a prediction vector as its frame: eight big-endian bytes per
/// sample, concatenated in vector order.
pub fn encode_predictions(v: &Vec<u64>) -> (r: Vec<u8>)
    ensures
        r@ == frame_bytes_of(v@),
        r@.len() == 8 * v@.len(),
{
    let mut out: Vec<u8> = Vec::new();
    let mut i: usize = 0;
    while i < v.len()
        invariant
            i <= v@.len(),
            out@ == frame_bytes_of(v@.take(i as int)),
            out@.len() == 8 * i,
        decreases v@.len() - i,
    {
        let x: u64 = v[i];
        out.push((x >> 56) as u8);
        out.push((x >> 48) as u8);
        out.push((x >> 40) as u8);
        out.push((x >> 32) as u8);
        out.push((x >> 24) as u8);
        out.push((x >> 16) as u8);
        out.push((x >> 8) as u8);
        out.push(x as u8);
        proof {
            let t = v@.take(i + 1);
            assert(t.drop_last() =~= v@.take(i as int));
            assert(t.last() == x);
            assert(out@ =~= frame_bytes_of(v@.take(i as int)) + sample_bytes_of(x));
        }
        i = i + 1;
    }
    proof {
        assert(v@.take(v@.len() as int) =~= v@);
        lemma_frame_bytes_len(v@);
    }
    out
}

/// Decode a prediction vector of `n` channels from a received frame.
/// The frame must hold exactly eight bytes per channel; any other length
/// fails, and nothing is zero-padded or dropped.
pub fn decode_predictions(b: &Vec<u8>, n: u16) -> (r: Result<Vec<u64>, ProtocolError>)
    ensures
        b@.len() == 8 * (n as int) ==> (r matches Ok(v) && v@ == frame_values_of(b@)),
        b@.len() != 8 * (n as int) ==> r == Err::<Vec<u64>, ProtocolError>(
            ProtocolError::TruncatedFrame,
        ),
{
    if b.len() != SAMPLE_BYTES * (n as usize) {
        return Err(ProtocolError::TruncatedFrame);
    }
    let mut out: Vec<u64> = Vec::new();
    let mut k: usize = 0;
    while k < n as usize
        invariant
            k <= n as usize,
            b@.len() == 8 * (n as int),
            out@.len() == k,
            forall|j: int|
                0 <= j < k ==> out@[j] == sample_value_of(b@.subrange(8 * j, 8 * j + 8)),
        decreases n as int - k,
    {
        let base: usize = 8 * k;
        let x: u64 = ((b[base] as u64) << 56) | ((b[base + 1] as u64) << 48) | ((b[base
            + 2] as u64) << 40) | ((b[base + 3] as u64) << 32) | ((b[base + 4] as u64) << 24) | ((
        b[base + 5] as u64) << 16) | ((b[base + 6] as u64) << 8) | (b[base + 7] as u64);
        proof {
            let s = b@.subrange(8 * (k as int), 8 * (k as int) + 8);
            assert(s[0] == b@[8 * (k as int)] && s[1] == b@[8 * (k as int) + 1] && s[2] == b@[8 * (
            k as int) + 2] && s[3] == b@[8 * (k as int) + 3] && s[4] == b@[8 * (k as int) + 4]
                && s[5] == b@[8 * (k as int) + 5] && s[6] == b@[8 * (k as int) + 6] && s[7] == b@[8
                * (k as int) + 7]);
        }
        out.push(x);
        k = k + 1;
    }
    proof {
        assert(out@ =~= frame_values_of(b@));
    }
    Ok(out)
}

} // verus!
