//! The two encodings of an ECDSA signature: the DER structure
//! `SEQUENCE { INTEGER r, INTEGER s }` that cryptography libraries speak, and
//! the raw form, `r` and `s` as big-endian numbers of the curve's field size,
//! one after the other.

use vstd::prelude::*;
use crate::cose::CoseError;
use crate::raw_signature::SigningAlg;

verus! {

/// The tag of a DER SEQUENCE.
pub const TAG_SEQUENCE: u8 = 0x30;

/// The tag of a DER INTEGER.
pub const TAG_INTEGER: u8 = 0x02;

/// The first byte of a DER length that is given by the one byte after it.
pub const LONG_LEN: u8 = 0x81;

/// The field size in bytes of the curve of an ECDSA algorithm; `None` for an
/// algorithm of another family.
pub open spec fn scalar_len_spec(alg: SigningAlg) -> Option<nat> {
    match alg {
        SigningAlg::Es256 => Some(32nat),
        SigningAlg::Es384 => Some(48nat),
        SigningAlg::Es512 => Some(66nat),
        _ => None,
    }
}

/// The DER length that starts at `pos`, with the position after it. Lengths
/// under 128 take one byte; lengths from 128 to 255 take the marker byte and
/// one more. Longer forms do not occur in a signature.
pub open spec fn read_len_spec(b: Seq<u8>, pos: int) -> Option<(int, int)> {
    if 0 <= pos < b.len() {
        if b[pos] < 0x80 {
            Some((b[pos] as int, pos + 1))
        } else if b[pos] == LONG_LEN && pos + 1 < b.len() && b[pos + 1] >= 0x80 {
            Some((b[pos + 1] as int, pos + 2))
        } else {
            None
        }
    } else {
        None
    }
}

/// The contents of the DER INTEGER that starts at `pos`, with the position
/// after it. The contents are not empty and, the number being positive, do
/// not start with a set top bit.
pub open spec fn read_integer_spec(b: Seq<u8>, pos: int) -> Option<(Seq<u8>, int)> {
    if 0 <= pos < b.len() && b[pos] == TAG_INTEGER {
        match read_len_spec(b, pos + 1) {
            Some((len, start)) => if len >= 1 && start + len <= b.len() && b[start] < 0x80 {
                Some((b.subrange(start, start + len), start + len))
            } else {
                None
            },
            None => None,
        }
    } else {
        None
    }
}

/// The contents of the two integers of a DER-encoded signature: a sequence
/// that fills `b` and holds two integers and nothing more.
pub open spec fn parse_ecdsa_der(b: Seq<u8>) -> Option<(Seq<u8>, Seq<u8>)> {
    if b.len() >= 1 && b[0] == TAG_SEQUENCE {
        match read_len_spec(b, 1) {
            Some((len, start)) => if start + len == b.len() {
                match read_integer_spec(b, start) {
                    Some((r, after_r)) => match read_integer_spec(b, after_r) {
                        Some((s, after_s)) => if after_s == b.len() {
                            Some((r, s))
                        } else {
                            None
                        },
                        None => None,
                    },
                    None => None,
                }
            } else {
                None
            },
            None => None,
        }
    } else {
        None
    }
}

/// `x` without its leading zero bytes.
pub open spec fn strip_zeros(x: Seq<u8>) -> Seq<u8>
    decreases x.len(),
{
    if x.len() > 0 && x[0] == 0 {
        strip_zeros(x.skip(1))
    } else {
        x
    }
}

/// `n` zero bytes.
pub open spec fn zeros(n: nat) -> Seq<u8> {
    Seq::new(n, |i: int| 0u8)
}

/// The big-endian number `x` in exactly `width` bytes, or `None` where it
/// does not fit.
pub open spec fn to_fixed(x: Seq<u8>, width: nat) -> Option<Seq<u8>> {
    let m = strip_zeros(x);
    if m.len() <= width {
        Some(zeros((width - m.len()) as nat) + m)
    } else {
        None
    }
}

/// The raw form, with scalars of `width` bytes, of the DER-encoded signature
/// `der`; `None` where `der` is no such encoding or a scalar does not fit.
pub open spec fn raw_of_der(der: Seq<u8>, width: nat) -> Option<Seq<u8>> {
    match parse_ecdsa_der(der) {
        Some((r, s)) => match (to_fixed(r, width), to_fixed(s, width)) {
            (Some(a), Some(b)) => Some(a + b),
            _ => None,
        },
        None => None,
    }
}

/// The contents of the DER INTEGER that holds the big-endian number `x`: the
/// number without leading zeros, after one zero byte where it would
/// otherwise be empty or read as negative.
pub open spec fn integer_body(x: Seq<u8>) -> Seq<u8> {
    let m = strip_zeros(x);
    if m.len() == 0 || m[0] >= 0x80 {
        seq![0u8] + m
    } else {
        m
    }
}

/// The DER encoding of the length `n`, for `n` under 256.
pub open spec fn der_len(n: nat) -> Seq<u8> {
    if n < 128 {
        seq![n as u8]
    } else {
        seq![LONG_LEN, n as u8]
    }
}

/// The DER INTEGER that holds the big-endian number `x`.
pub open spec fn der_integer(x: Seq<u8>) -> Seq<u8> {
    let body = integer_body(x);
    seq![TAG_INTEGER] + der_len(body.len()) + body
}

/// The DER encoding of the signature with the scalars `r` and `s`.
pub open spec fn der_of_raw(r: Seq<u8>, s: Seq<u8>) -> Seq<u8> {
    let body = der_integer(r) + der_integer(s);
    seq![TAG_SEQUENCE] + der_len(body.len()) + body
}

/// The field size in bytes of the curve of an ECDSA algorithm.
pub fn scalar_len(alg: SigningAlg) -> (n: Option<usize>)
    ensures
        n is Some <==> scalar_len_spec(alg) is Some,
        n is Some ==> n.unwrap() == scalar_len_spec(alg).unwrap(),
{
    match alg {
        SigningAlg::Es256 => Some(32),
        SigningAlg::Es384 => Some(48),
        SigningAlg::Es512 => Some(66),
        _ => None,
    }
}

fn read_len(b: &[u8], pos: usize) -> (r: Option<(usize, usize)>)
    ensures
        r is Some <==> read_len_spec(b@, pos as int) is Some,
        r matches Some(p) ==> read_len_spec(b@, pos as int) == Some((p.0 as int, p.1 as int))
            && p.0 <= 255 && p.1 <= b@.len(),
{
    if pos >= b.len() {
        return None;
    }
    if b[pos] < 0x80 {
        Some((b[pos] as usize, pos + 1))
    } else if b[pos] == LONG_LEN && b.len() - pos > 1 && b[pos + 1] >= 0x80 {
        Some((b[pos + 1] as usize, pos + 2))
    } else {
        None
    }
}

fn read_integer(b: &[u8], pos: usize) -> (r: Option<(usize, usize)>)
    ensures
        r is Some <==> read_integer_spec(b@, pos as int) is Some,
        r matches Some(p) ==> p.0 < p.1 <= b@.len() && read_integer_spec(b@, pos as int) == Some(
            (b@.subrange(p.0 as int, p.1 as int), p.1 as int),
        ),
{
    if pos >= b.len() || b[pos] != TAG_INTEGER {
        return None;
    }
    match read_len(b, pos + 1) {
        Some((len, start)) => {
            if len >= 1 && len <= b.len() - start && b[start] < 0x80 {
                Some((start, start + len))
            } else {
                None
            }
        },
        None => None,
    }
}

/// Appends to `out` the number held in `b` from `start` to `end`, in exactly
/// `width` bytes, and says whether it fitted. Where it did not, `out` is left
/// as it was.
fn push_fixed(out: &mut Vec<u8>, b: &[u8], start: usize, end: usize, width: usize) -> (ok: bool)
    requires
        start <= end <= b@.len(),
    ensures
        ok <==> to_fixed(b@.subrange(start as int, end as int), width as nat) is Some,
        ok ==> final(out)@ == old(out)@ + to_fixed(
            b@.subrange(start as int, end as int),
            width as nat,
        ).unwrap(),
        !ok ==> final(out)@ == old(out)@,
{
    let ghost x = b@.subrange(start as int, end as int);
    let mut first: usize = start;
    while first < end && b[first] == 0
        invariant
            start <= first <= end <= b@.len(),
            strip_zeros(x) == strip_zeros(b@.subrange(first as int, end as int)),
        decreases end - first,
    {
        proof {
            let cur = b@.subrange(first as int, end as int);
            assert(cur.skip(1) =~= b@.subrange(first + 1, end as int));
        }
        first += 1;
    }
    let ghost m = b@.subrange(first as int, end as int);
    assert(strip_zeros(m) == m);
    let n: usize = end - first;
    if n > width {
        return false;
    }
    let pad: usize = width - n;
    let mut k: usize = 0;
    while k < pad
        invariant
            0 <= k <= pad,
            out@ == old(out)@ + zeros(k as nat),
        decreases pad - k,
    {
        out.push(0);
        k += 1;
        assert(out@ =~= old(out)@ + zeros(k as nat));
    }
    let mut j: usize = first;
    while j < end
        invariant
            first <= j <= end <= b@.len(),
            out@ == old(out)@ + zeros(pad as nat) + b@.subrange(first as int, j as int),
        decreases end - j,
    {
        out.push(b[j]);
        j += 1;
        assert(out@ =~= old(out)@ + zeros(pad as nat) + b@.subrange(first as int, j as int));
    }
    assert(out@ =~= old(out)@ + (zeros(pad as nat) + m));
    true
}

/// Converts a DER-encoded ECDSA signature to its raw form for `alg`.
///
/// An algorithm that is not ECDSA is unsupported. For an ECDSA algorithm the
/// result is the raw form where `der` is the encoding of two positive
/// integers that fit the curve's field size, and the signature is invalid in
/// every other case: a truncated, overlong or otherwise malformed encoding
/// is never converted.
pub fn der_to_raw(der: &[u8], alg: SigningAlg) -> (r: Result<Vec<u8>, CoseError>)
    ensures
        scalar_len_spec(alg) is None ==> r is Err && r.unwrap_err() is UnsupportedSigningAlgorithm,
        scalar_len_spec(alg) matches Some(width) ==> match raw_of_der(der@, width) {
            Some(raw) => r is Ok && r.unwrap()@ == raw && raw.len() == 2 * width,
            None => r is Err && r.unwrap_err() is InvalidEcdsaSignature,
        },
{
    let width = match scalar_len(alg) {
        Some(width) => width,
        None => {
            return Err(CoseError::UnsupportedSigningAlgorithm);
        },
    };
    if der.len() < 1 || der[0] != TAG_SEQUENCE {
        return Err(CoseError::InvalidEcdsaSignature);
    }
    let start = match read_len(der, 1) {
        Some((len, start)) => {
            if len != der.len() - start {
                return Err(CoseError::InvalidEcdsaSignature);
            }
            start
        },
        None => {
            return Err(CoseError::InvalidEcdsaSignature);
        },
    };
    let (r_start, r_end) = match read_integer(der, start) {
        Some(found) => found,
        None => {
            return Err(CoseError::InvalidEcdsaSignature);
        },
    };
    let (s_start, s_end) = match read_integer(der, r_end) {
        Some(found) => found,
        None => {
            return Err(CoseError::InvalidEcdsaSignature);
        },
    };
    if s_end != der.len() {
        return Err(CoseError::InvalidEcdsaSignature);
    }
    let mut raw: Vec<u8> = Vec::new();
    if !push_fixed(&mut raw, der, r_start, r_end, width) {
        return Err(CoseError::InvalidEcdsaSignature);
    }
    if !push_fixed(&mut raw, der, s_start, s_end, width) {
        return Err(CoseError::InvalidEcdsaSignature);
    }
    Ok(raw)
}

/// Appends to `out` the DER INTEGER that holds the number in `b` from `start`
/// to `end`.
fn push_integer(out: &mut Vec<u8>, b: &[u8], start: usize, end: usize)
    requires
        start <= end <= b@.len(),
        end - start <= 66,
    ensures
        final(out)@ == old(out)@ + der_integer(b@.subrange(start as int, end as int)),
{
    let ghost x = b@.subrange(start as int, end as int);
    let mut first: usize = start;
    while first < end && b[first] == 0
        invariant
            start <= first <= end <= b@.len(),
            strip_zeros(x) == strip_zeros(b@.subrange(first as int, end as int)),
        decreases end - first,
    {
        proof {
            let cur = b@.subrange(first as int, end as int);
            assert(cur.skip(1) =~= b@.subrange(first + 1, end as int));
        }
        first += 1;
    }
    let ghost m = b@.subrange(first as int, end as int);
    assert(strip_zeros(m) == m);
    let n: usize = end - first;
    let padded: bool = n == 0 || b[first] >= 0x80;
    let body_len: usize = if padded {
        n + 1
    } else {
        n
    };
    out.push(TAG_INTEGER);
    out.push(body_len as u8);
    if padded {
        out.push(0);
    }
    let ghost head = out@;
    assert(head =~= old(out)@ + seq![TAG_INTEGER] + der_len(body_len as nat) + if padded {
        seq![0u8]
    } else {
        Seq::<u8>::empty()
    });
    let mut j: usize = first;
    while j < end
        invariant
            first <= j <= end <= b@.len(),
            out@ == head + b@.subrange(first as int, j as int),
        decreases end - j,
    {
        out.push(b[j]);
        j += 1;
        assert(out@ =~= head + b@.subrange(first as int, j as int));
    }
    assert(out@ =~= old(out)@ + (seq![TAG_INTEGER] + der_len(integer_body(x).len())
        + integer_body(x)));
}

/// Converts a raw ECDSA signature for `alg` to its DER encoding.
///
/// An algorithm that is not ECDSA is unsupported. For an ECDSA algorithm a
/// raw signature has twice the curve's field size; one of another length is
/// invalid. The result is the encoding of the signature's two halves.
pub fn raw_to_der(raw: &[u8], alg: SigningAlg) -> (r: Result<Vec<u8>, CoseError>)
    ensures
        scalar_len_spec(alg) is None ==> r is Err && r.unwrap_err() is UnsupportedSigningAlgorithm,
        scalar_len_spec(alg) matches Some(width) ==> if raw@.len() == 2 * width {
            r is Ok && r.unwrap()@ == der_of_raw(
                raw@.subrange(0, width as int),
                raw@.subrange(width as int, 2 * width as int),
            )
        } else {
            r is Err && r.unwrap_err() is InvalidEcdsaSignature
        },
{
    let width = match scalar_len(alg) {
        Some(width) => width,
        None => {
            return Err(CoseError::UnsupportedSigningAlgorithm);
        },
    };
    if raw.len() != 2 * width {
        return Err(CoseError::InvalidEcdsaSignature);
    }
    let mut body: Vec<u8> = Vec::new();
    push_integer(&mut body, raw, 0, width);
    push_integer(&mut body, raw, width, 2 * width);
    let ghost whole = body@;
    proof {
        lemma_der_integer_len(raw@.subrange(0, width as int));
        lemma_der_integer_len(raw@.subrange(width as int, 2 * width));
    }
    let mut der: Vec<u8> = Vec::new();
    der.push(TAG_SEQUENCE);
    if body.len() >= 128 {
        der.push(LONG_LEN);
    }
    der.push(body.len() as u8);
    der.append(&mut body);
    assert(der@ =~= seq![TAG_SEQUENCE] + der_len(whole.len()) + whole);
    Ok(der)
}

/// Stripping leading zeros leaves no more bytes than there were and nothing
/// that starts with zero, changes nothing when done again, and takes away
/// only zeros: putting as many back in front gives the number as it was.
pub proof fn lemma_strip_zeros_len(x: Seq<u8>)
    ensures
        strip_zeros(x).len() <= x.len(),
        strip_zeros(x).len() > 0 ==> strip_zeros(x)[0] != 0,
        strip_zeros(strip_zeros(x)) == strip_zeros(x),
        zeros((x.len() - strip_zeros(x).len()) as nat) + strip_zeros(x) == x,
    decreases x.len(),
{
    if x.len() > 0 && x[0] == 0 {
        lemma_strip_zeros_len(x.skip(1));
        let k = (x.skip(1).len() - strip_zeros(x.skip(1)).len()) as nat;
        assert(zeros(k + 1) + strip_zeros(x) =~= seq![0u8] + (zeros(k) + strip_zeros(x.skip(1))));
        assert(seq![0u8] + x.skip(1) =~= x);
    } else {
        assert(zeros(0) + x =~= x);
    }
}

/// A DER INTEGER is two bytes longer than its contents where the number has
/// at most 66 bytes, and the contents are at most one byte longer than the
/// number.
pub proof fn lemma_der_integer_len(x: Seq<u8>)
    requires
        x.len() <= 66,
    ensures
        1 <= integer_body(x).len() <= x.len() + 1,
        der_integer(x).len() == integer_body(x).len() + 2,
{
    lemma_strip_zeros_len(x);
}

/// A number's DER INTEGER, read back and brought to the number's own width,
/// is the number.
pub proof fn lemma_integer_body_fixed(x: Seq<u8>)
    ensures
        to_fixed(integer_body(x), x.len()) == Some(x),
        integer_body(x).len() >= 1,
        integer_body(x)[0] < 0x80,
{
    lemma_strip_zeros_len(x);
    let m = strip_zeros(x);
    if m.len() == 0 || m[0] >= 0x80 {
        let padded = seq![0u8] + m;
        assert(padded.skip(1) =~= m);
        assert(strip_zeros(padded) == strip_zeros(m));
    }
}

/// Converting a raw signature to DER and back gives the raw signature: for
/// scalars `r` and `s` of the field size `width`, the raw form of their DER
/// encoding is `r` followed by `s`.
pub proof fn lemma_raw_der_round_trip(r: Seq<u8>, s: Seq<u8>, width: nat)
    requires
        r.len() == width,
        s.len() == width,
        1 <= width <= 66,
    ensures
        raw_of_der(der_of_raw(r, s), width) == Some(r + s),
{
    lemma_der_integer_len(r);
    lemma_der_integer_len(s);
    lemma_integer_body_fixed(r);
    lemma_integer_body_fixed(s);
    let rb = integer_body(r);
    let sb = integer_body(s);
    let ri = der_integer(r);
    let si = der_integer(s);
    let body = ri + si;
    let der = der_of_raw(r, s);
    let head = seq![TAG_SEQUENCE] + der_len(body.len());
    let start = head.len() as int;
    assert(der =~= head + body);
    assert(der[0] == TAG_SEQUENCE);
    assert(read_len_spec(der, 1) == Some((body.len() as int, start)));
    assert forall|i: int| 0 <= i < body.len() implies der[start + i] == body[i] by {}
    assert(ri =~= seq![TAG_INTEGER, rb.len() as u8] + rb);
    assert(si =~= seq![TAG_INTEGER, sb.len() as u8] + sb);
    assert(der[start] == body[0]);
    assert(der[start + 1] == body[1]);
    assert(der[start + 2] == body[2]);
    assert(der.subrange(start + 2, start + 2 + rb.len()) =~= rb);
    assert(read_integer_spec(der, start) == Some((rb, start + 2 + rb.len())));
    let mid = start + ri.len();
    assert(der[mid] == body[ri.len() as int]);
    assert(der[mid + 1] == body[ri.len() as int + 1]);
    assert(der[mid + 2] == body[ri.len() as int + 2]);
    assert(der.subrange(mid + 2, mid + 2 + sb.len()) =~= sb);
    assert(read_integer_spec(der, mid) == Some((sb, mid + 2 + sb.len())));
    assert(parse_ecdsa_der(der) == Some((rb, sb)));
}

/// A truncated signature is never converted: where `der` is the encoding of
/// a signature, nothing that stops short of its end is.
pub proof fn lemma_truncated_der_rejected(der: Seq<u8>, n: int, width: nat)
    requires
        parse_ecdsa_der(der) is Some,
        0 <= n < der.len(),
    ensures
        parse_ecdsa_der(der.subrange(0, n)) is None,
        raw_of_der(der.subrange(0, n), width) is None,
{
    let cut = der.subrange(0, n);
    if parse_ecdsa_der(cut) is Some {
        assert(cut[0] == der[0]);
        assert(cut[1] == der[1]);
        if cut[1] >= 0x80 {
            assert(cut[2] == der[2]);
        }
        assert(read_len_spec(cut, 1) == read_len_spec(der, 1));
    }
}

} // verus!
