//! Raw 16-bit little-endian PCM and the minimal RIFF/WAVE container that wraps
//! it for a generic decoder.

use vstd::prelude::*;

verus! {

/// The unsigned 16-bit pattern of a signed sample (two's complement).
pub open spec fn bits16(s: i16) -> int {
    if s < 0 {
        s as int + 65536
    } else {
        s as int
    }
}

/// The signed sample whose little-endian bytes are `lo`, `hi`.
pub open spec fn sample_from_le(lo: u8, hi: u8) -> int {
    let u = lo as int + 256 * hi as int;
    if u >= 32768 {
        u - 65536
    } else {
        u
    }
}

/// Samples read from raw PCM bytes: one per whole pair, a trailing odd byte ignored.
pub open spec fn decoded(b: Seq<u8>) -> Seq<i16> {
    Seq::new(b.len() / 2, |i: int| sample_from_le(b[2 * i], b[2 * i + 1]) as i16)
}

/// The raw little-endian bytes of a sequence of samples.
pub open spec fn sample_bytes(s: Seq<i16>) -> Seq<u8> {
    Seq::new(
        2 * s.len(),
        |j: int|
            if j % 2 == 0 {
                (bits16(s[j / 2]) % 256) as u8
            } else {
                (bits16(s[j / 2]) / 256) as u8
            },
    )
}

pub open spec fn le16(v: nat) -> Seq<u8> {
    seq![(v % 256) as u8, ((v / 256) % 256) as u8]
}

pub open spec fn le32(v: nat) -> Seq<u8> {
    seq![
        (v % 256) as u8,
        ((v / 256) % 256) as u8,
        ((v / 65536) % 256) as u8,
        ((v / 16777216) % 256) as u8,
    ]
}

/// Size of the container header that precedes the sample data.
pub const HEADER_LEN: usize = 44;

/// The container header for `n` mono 16-bit samples at `rate` Hz: the RIFF tag
/// block, the format block and the data block prefix.
pub open spec fn container_header(n: nat, rate: nat) -> Seq<u8> {
    seq![82u8, 73u8, 70u8, 70u8] + le32(36 + 2 * n) + seq![87u8, 65u8, 86u8, 69u8]
        + seq![102u8, 109u8, 116u8, 32u8] + le32(16) + le16(1) + le16(1) + le32(rate)
        + le32(2 * rate) + le16(2) + le16(16) + seq![100u8, 97u8, 116u8, 97u8] + le32(2 * n)
}

/// A complete container holding `s` at `rate` Hz.
pub open spec fn container(s: Seq<i16>, rate: nat) -> Seq<u8> {
    container_header(s.len(), rate) + sample_bytes(s)
}

/// Whether a container for `n` samples at `rate` Hz can state its sizes in
/// its 32-bit fields.
pub open spec fn container_fits(n: nat, rate: nat) -> bool {
    36 + 2 * n <= u32::MAX && 2 * rate <= u32::MAX
}

proof fn lemma_sample_round_trip(s: i16)
    ensures
        sample_from_le((bits16(s) % 256) as u8, (bits16(s) / 256) as u8) == s as int,
{
    let u = bits16(s);
    assert(0 <= u < 65536);
    assert(u == (u % 256) + 256 * (u / 256)) by (nonlinear_arith);
    assert(0 <= u / 256 < 256) by (nonlinear_arith)
        requires
            0 <= u < 65536,
    ;
}

/// Reading back the data block of a container yields exactly the samples that
/// were written into it.
pub proof fn lemma_container_round_trip(s: Seq<i16>, rate: nat)
    ensures
        decoded(container(s, rate)).subrange(
            (HEADER_LEN / 2) as int,
            (HEADER_LEN / 2) as int + s.len(),
        ) == s,
        decoded(sample_bytes(s)) == s,
{
    let c = container(s, rate);
    let h = container_header(s.len(), rate);
    assert(h.len() == 44);
    let d = decoded(c).subrange(22, 22 + s.len() as int);
    assert forall|i: int| 0 <= i < s.len() implies d[i] == s[i] by {
        lemma_sample_round_trip(s[i]);
        assert(c[44 + 2 * i] == sample_bytes(s)[2 * i]);
        assert(c[44 + 2 * i + 1] == sample_bytes(s)[2 * i + 1]);
        assert((2 * i) / 2 == i);
        assert((2 * i + 1) / 2 == i);
        assert((2 * i) % 2 == 0);
        assert((2 * i + 1) % 2 == 1);
    }
    assert(d =~= s);
    let e = decoded(sample_bytes(s));
    assert forall|i: int| 0 <= i < s.len() implies e[i] == s[i] by {
        lemma_sample_round_trip(s[i]);
        assert((2 * i) / 2 == i);
        assert((2 * i + 1) / 2 == i);
        assert((2 * i) % 2 == 0);
        assert((2 * i + 1) % 2 == 1);
    }
    assert(e =~= s);
}

/// Interprets raw bytes as consecutive little-endian signed 16-bit samples.
pub fn decode_pcm(bytes: &[u8]) -> (r: Vec<i16>)
    ensures
        r@ == decoded(bytes@),
{
    let len: usize = bytes.len();
    let n: usize = len / 2;
    let mut out: Vec<i16> = Vec::with_capacity(n);
    let mut i: usize = 0;
    while i < n
        invariant
            len == bytes@.len(),
            n == len / 2,
            i <= n,
            out@ =~= decoded(bytes@).take(i as int),
        decreases n - i,
    {
        assert(2 * i + 1 < bytes@.len());
        let lo = bytes[2 * i];
        let hi = bytes[2 * i + 1];
        let u: u32 = lo as u32 + 256 * hi as u32;
        let s: i16 = if u >= 32768 {
            (u as i32 - 65536) as i16
        } else {
            u as i16
        };
        out.push(s);
        i += 1;
    }
    out
}

fn push_le16(out: &mut Vec<u8>, v: u16)
    ensures
        final(out)@ == old(out)@ + le16(v as nat),
{
    out.push((v % 256) as u8);
    out.push((v / 256) as u8);
    assert(final(out)@ =~= old(out)@ + le16(v as nat));
}

fn push_le32(out: &mut Vec<u8>, v: u32)
    ensures
        final(out)@ == old(out)@ + le32(v as nat),
{
    out.push((v % 256) as u8);
    out.push(((v / 256) % 256) as u8);
    out.push(((v / 65536) % 256) as u8);
    out.push(((v / 16777216) % 256) as u8);
    assert(final(out)@ =~= old(out)@ + le32(v as nat));
}

fn push_tag(out: &mut Vec<u8>, a: u8, b: u8, c: u8, d: u8)
    ensures
        final(out)@ == old(out)@ + seq![a, b, c, d],
{
    out.push(a);
    out.push(b);
    out.push(c);
    out.push(d);
    assert(final(out)@ =~= old(out)@ + seq![a, b, c, d]);
}

/// Wraps mono 16-bit samples in a RIFF/WAVE container at `sample_rate` Hz.
pub fn encode_container(samples: &[i16], sample_rate: u32) -> (r: Vec<u8>)
    requires
        container_fits(samples@.len(), sample_rate as nat),
    ensures
        r@ == container(samples@, sample_rate as nat),
{
    let n: usize = samples.len();
    let data_size: u32 = (2 * n) as u32;
    let mut out: Vec<u8> = Vec::new();
    push_tag(&mut out, 82, 73, 70, 70);
    push_le32(&mut out, 36 + data_size);
    push_tag(&mut out, 87, 65, 86, 69);
    push_tag(&mut out, 102, 109, 116, 32);
    push_le32(&mut out, 16);
    push_le16(&mut out, 1);
    push_le16(&mut out, 1);
    push_le32(&mut out, sample_rate);
    push_le32(&mut out, 2 * sample_rate);
    push_le16(&mut out, 2);
    push_le16(&mut out, 16);
    push_tag(&mut out, 100, 97, 116, 97);
    push_le32(&mut out, data_size);
    let ghost header = container_header(n as nat, sample_rate as nat);
    assert(out@ =~= header);
    let mut i: usize = 0;
    while i < n
        invariant
            n == samples@.len(),
            i <= n,
            header.len() == 44,
            out@ =~= header + sample_bytes(samples@.take(i as int)),
        decreases n - i,
    {
        let s = samples[i];
        let u: u16 = if s < 0 {
            (s as i32 + 65536) as u16
        } else {
            s as u16
        };
        let ghost before = out@;
        out.push((u % 256) as u8);
        out.push((u / 256) as u8);
        proof {
            let t0 = samples@.take(i as int);
            let t1 = samples@.take(i + 1);
            assert forall|j: int| 0 <= j < 2 * (i + 1) implies #[trigger] sample_bytes(t1)[j]
                == (if j < 2 * i { sample_bytes(t0)[j] } else if j == 2 * i {
                (u % 256) as u8
            } else {
                (u / 256) as u8
            }) by {
                assert(t1[j / 2] == samples@[j / 2]);
                if j < 2 * i {
                    assert(t0[j / 2] == samples@[j / 2]);
                }
            }
            assert(sample_bytes(t1) =~= sample_bytes(t0) + seq![(u % 256) as u8, (u / 256) as u8]);
        }
        i += 1;
    }
    assert(samples@.take(n as int) =~= samples@);
    out
}

} // verus!
