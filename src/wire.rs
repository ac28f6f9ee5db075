//! The byte layout in which a companion process reports a failed link
//! creation on its standard output: a little-endian `u32` variant tag of the
//! error (then, for an OS error, its code as a little-endian `i32`), one byte
//! each for the target and link flags, and the helper program's name as an
//! option tag byte followed by a little-endian `u64` byte length and the
//! UTF-8 bytes.
use vstd::prelude::*;
use vstd::utf8::{decode_utf8, encode_utf8, valid_utf8};

use crate::link_error::{DuringLinkError, LinkError, LinkErrorView, OSError};

verus! {

broadcast use vstd::utf8::encode_utf8_valid_utf8, vstd::utf8::encode_utf8_decode_utf8;

pub open spec fn le_u32(v: u32) -> Seq<u8> {
    seq![
        (v & 0xff) as u8,
        ((v >> 8u32) & 0xff) as u8,
        ((v >> 16u32) & 0xff) as u8,
        ((v >> 24u32) & 0xff) as u8,
    ]
}

pub open spec fn le_u64(v: u64) -> Seq<u8> {
    seq![
        (v & 0xff) as u8,
        ((v >> 8u64) & 0xff) as u8,
        ((v >> 16u64) & 0xff) as u8,
        ((v >> 24u64) & 0xff) as u8,
        ((v >> 32u64) & 0xff) as u8,
        ((v >> 40u64) & 0xff) as u8,
        ((v >> 48u64) & 0xff) as u8,
        ((v >> 56u64) & 0xff) as u8,
    ]
}

pub open spec fn bool_byte(b: bool) -> u8 {
    if b { 1 } else { 0 }
}

pub open spec fn wire_error(e: DuringLinkError) -> Seq<u8> {
    match e {
        DuringLinkError::LinkAlreadyExists => le_u32(0),
        DuringLinkError::OS(OSError(code)) => le_u32(1) + le_u32(code as u32),
    }
}

pub open spec fn wire_program(p: Option<Seq<char>>) -> Seq<u8> {
    match p {
        None => seq![0u8],
        Some(name) => seq![1u8] + le_u64(encode_utf8(name).len() as u64) + encode_utf8(name),
    }
}

/// The bytes that stand for the error `v`.
pub open spec fn wire(v: LinkErrorView<DuringLinkError>) -> Seq<u8> {
    wire_error(v.error) + seq![bool_byte(v.target), bool_byte(v.link)] + wire_program(v.program)
}

pub open spec fn read_u32(b: Seq<u8>, p: int) -> u32 {
    (b[p] as u32) | ((b[p + 1] as u32) << 8u32) | ((b[p + 2] as u32) << 16u32) | ((b[p + 3] as u32)
        << 24u32)
}

pub open spec fn read_u64(b: Seq<u8>, p: int) -> u64 {
    (b[p] as u64) | ((b[p + 1] as u64) << 8u64) | ((b[p + 2] as u64) << 16u64) | ((b[p + 3] as u64)
        << 24u64) | ((b[p + 4] as u64) << 32u64) | ((b[p + 5] as u64) << 40u64) | ((b[p + 6] as u64)
        << 48u64) | ((b[p + 7] as u64) << 56u64)
}

/// The error variant at the start of `b`, with the number of bytes it takes.
pub open spec fn parse_error(b: Seq<u8>) -> Option<(DuringLinkError, int)> {
    if b.len() < 4 {
        None
    } else if read_u32(b, 0) == 0 {
        Some((DuringLinkError::LinkAlreadyExists, 4))
    } else if read_u32(b, 0) == 1 && b.len() >= 8 {
        Some((DuringLinkError::OS(OSError(read_u32(b, 4) as i32)), 8))
    } else {
        None
    }
}

pub open spec fn parse_bool(byte: u8) -> Option<bool> {
    if byte == 0 {
        Some(false)
    } else if byte == 1 {
        Some(true)
    } else {
        None
    }
}

/// The program name at the start of `b`.
pub open spec fn parse_program(b: Seq<u8>) -> Option<Option<Seq<char>>> {
    if b.len() < 1 {
        None
    } else if b[0] == 0 {
        Some(None)
    } else if b[0] == 1 && b.len() >= 9 && read_u64(b, 1) <= b.len() - 9 && valid_utf8(
        b.subrange(9, 9 + read_u64(b, 1)),
    ) {
        Some(Some(decode_utf8(b.subrange(9, 9 + read_u64(b, 1)))))
    } else {
        None
    }
}

/// The error that the bytes `b` begin with, if they begin with one; bytes
/// after it are ignored.
pub open spec fn parse_wire(b: Seq<u8>) -> Option<LinkErrorView<DuringLinkError>> {
    match parse_error(b) {
        None => None,
        Some((error, k)) => if b.len() < k + 2 {
            None
        } else {
            match (parse_bool(b[k]), parse_bool(b[k + 1]), parse_program(b.subrange(k + 2, b.len() as int))) {
                (Some(target), Some(link), Some(program)) => Some(
                    LinkErrorView { error, target, link, program },
                ),
                _ => None,
            }
        },
    }
}

proof fn lemma_u32_round_trip(v: u32)
    ensures
        read_u32(le_u32(v), 0) == v,
{
    let b = le_u32(v);
    let (b0, b1, b2, b3) = (b[0], b[1], b[2], b[3]);
    assert(b0 == (v & 0xff) as u8 && b1 == ((v >> 8u32) & 0xff) as u8 && b2 == ((v >> 16u32) & 0xff) as u8
        && b3 == ((v >> 24u32) & 0xff) as u8);
    assert(b0 == (v & 0xff) as u8 && b1 == ((v >> 8u32) & 0xff) as u8 && b2 == ((v >> 16u32) & 0xff) as u8
        && b3 == ((v >> 24u32) & 0xff) as u8 ==> (b0 as u32) | ((b1 as u32) << 8u32) | ((b2 as u32) << 16u32)
        | ((b3 as u32) << 24u32) == v) by (bit_vector);
}

proof fn lemma_u64_round_trip(v: u64)
    ensures
        read_u64(le_u64(v), 0) == v,
{
    let b = le_u64(v);
    let (b0, b1, b2, b3, b4, b5, b6, b7) = (b[0], b[1], b[2], b[3], b[4], b[5], b[6], b[7]);
    assert(b0 == (v & 0xff) as u8 && b1 == ((v >> 8u64) & 0xff) as u8 && b2 == ((v >> 16u64) & 0xff) as u8
        && b3 == ((v >> 24u64) & 0xff) as u8 && b4 == ((v >> 32u64) & 0xff) as u8 && b5 == ((v >> 40u64)
        & 0xff) as u8 && b6 == ((v >> 48u64) & 0xff) as u8 && b7 == ((v >> 56u64) & 0xff) as u8);
    assert(b0 == (v & 0xff) as u8 && b1 == ((v >> 8u64) & 0xff) as u8 && b2 == ((v >> 16u64) & 0xff) as u8
        && b3 == ((v >> 24u64) & 0xff) as u8 && b4 == ((v >> 32u64) & 0xff) as u8 && b5 == ((v >> 40u64)
        & 0xff) as u8 && b6 == ((v >> 48u64) & 0xff) as u8 && b7 == ((v >> 56u64) & 0xff) as u8 ==> (b0 as u64)
        | ((b1 as u64) << 8u64) | ((b2 as u64) << 16u64) | ((b3 as u64) << 24u64) | ((b4 as u64) << 32u64)
        | ((b5 as u64) << 40u64) | ((b6 as u64) << 48u64) | ((b7 as u64) << 56u64) == v) by (bit_vector);
}

proof fn lemma_i32_as_u32(c: i32)
    ensures
        (c as u32) as i32 == c,
{
    assert((c as u32) as i32 == c) by (bit_vector);
}

/// Decoding the bytes of an error gives back that error, for both variants
/// of the error and with or without a program name.
pub proof fn lemma_wire_round_trip(v: LinkErrorView<DuringLinkError>)
    requires
        v.program matches Some(name) ==> encode_utf8(name).len() <= u64::MAX,
    ensures
        parse_wire(wire(v)) == Some(v),
{
    let b = wire(v);
    let flags = seq![bool_byte(v.target), bool_byte(v.link)];
    let we = wire_error(v.error);
    let wp = wire_program(v.program);
    assert(b == we + flags + wp);
    lemma_u32_round_trip(0);
    lemma_u32_round_trip(1);
    let k: int = we.len() as int;
    match v.error {
        DuringLinkError::LinkAlreadyExists => {
            assert(read_u32(b, 0) == read_u32(le_u32(0), 0));
            assert(parse_error(b) == Some((v.error, k)));
        },
        DuringLinkError::OS(OSError(code)) => {
            assert(read_u32(b, 0) == read_u32(le_u32(1), 0));
            lemma_u32_round_trip(code as u32);
            lemma_i32_as_u32(code);
            assert(read_u32(b, 4) == read_u32(le_u32(code as u32), 0));
            assert(parse_error(b) == Some((v.error, k)));
        },
    }
    assert(b[k] == bool_byte(v.target));
    assert(b[k + 1] == bool_byte(v.link));
    let rest = b.subrange(k + 2, b.len() as int);
    assert(rest =~= wp);
    match v.program {
        None => {},
        Some(name) => {
            let n = encode_utf8(name).len() as u64;
            lemma_u64_round_trip(n);
            assert(read_u64(wp, 1) == read_u64(le_u64(n), 0));
            assert(wp.subrange(9, 9 + read_u64(wp, 1)) =~= encode_utf8(name));
        },
    }
}

proof fn lemma_u32_bytes_round_trip(b: Seq<u8>, p: int)
    requires
        0 <= p && p + 4 <= b.len(),
    ensures
        le_u32(read_u32(b, p)) == b.subrange(p, p + 4),
{
    let (b0, b1, b2, b3) = (b[p], b[p + 1], b[p + 2], b[p + 3]);
    let v = read_u32(b, p);
    assert(v == (b0 as u32) | ((b1 as u32) << 8u32) | ((b2 as u32) << 16u32) | ((b3 as u32) << 24u32));
    assert(v == (b0 as u32) | ((b1 as u32) << 8u32) | ((b2 as u32) << 16u32) | ((b3 as u32) << 24u32) ==> (v
        & 0xff) as u8 == b0 && ((v >> 8u32) & 0xff) as u8 == b1 && ((v >> 16u32) & 0xff) as u8 == b2 && ((v
        >> 24u32) & 0xff) as u8 == b3) by (bit_vector);
    assert(le_u32(v) =~= b.subrange(p, p + 4));
}

proof fn lemma_u64_bytes_round_trip(b: Seq<u8>, p: int)
    requires
        0 <= p && p + 8 <= b.len(),
    ensures
        le_u64(read_u64(b, p)) == b.subrange(p, p + 8),
{
    let (b0, b1, b2, b3, b4, b5, b6, b7) = (
        b[p],
        b[p + 1],
        b[p + 2],
        b[p + 3],
        b[p + 4],
        b[p + 5],
        b[p + 6],
        b[p + 7],
    );
    let v = read_u64(b, p);
    assert(v == (b0 as u64) | ((b1 as u64) << 8u64) | ((b2 as u64) << 16u64) | ((b3 as u64) << 24u64) | ((
    b4 as u64) << 32u64) | ((b5 as u64) << 40u64) | ((b6 as u64) << 48u64) | ((b7 as u64) << 56u64));
    assert(v == (b0 as u64) | ((b1 as u64) << 8u64) | ((b2 as u64) << 16u64) | ((b3 as u64) << 24u64) | ((
    b4 as u64) << 32u64) | ((b5 as u64) << 40u64) | ((b6 as u64) << 48u64) | ((b7 as u64) << 56u64) ==> (v
        & 0xff) as u8 == b0 && ((v >> 8u64) & 0xff) as u8 == b1 && ((v >> 16u64) & 0xff) as u8 == b2 && ((v
        >> 24u64) & 0xff) as u8 == b3 && ((v >> 32u64) & 0xff) as u8 == b4 && ((v >> 40u64) & 0xff) as u8
        == b5 && ((v >> 48u64) & 0xff) as u8 == b6 && ((v >> 56u64) & 0xff) as u8 == b7) by (bit_vector);
    assert(le_u64(v) =~= b.subrange(p, p + 8));
}

proof fn lemma_u32_as_i32(x: u32)
    ensures
        (x as i32) as u32 == x,
{
    assert((x as i32) as u32 == x) by (bit_vector);
}

/// Bytes decode to an error only where they begin with exactly the bytes of
/// that error.
pub proof fn lemma_wire_decodes_only_encodings(b: Seq<u8>)
    requires
        parse_wire(b) is Some,
    ensures
        b.subrange(0, wire(parse_wire(b)->Some_0).len() as int) == wire(parse_wire(b)->Some_0),
{
    broadcast use vstd::utf8::decode_utf8_encode_utf8;

    let v = parse_wire(b)->Some_0;
    let (error, k) = parse_error(b)->Some_0;
    lemma_u32_bytes_round_trip(b, 0);
    let we = wire_error(error);
    assert(b.subrange(0, k) == we) by {
        if read_u32(b, 0) == 1 {
            lemma_u32_bytes_round_trip(b, 4);
            lemma_u32_as_i32(read_u32(b, 4));
            assert(b.subrange(0, 8) =~= b.subrange(0, 4) + b.subrange(4, 8));
        }
    }
    let rest = b.subrange(k + 2, b.len() as int);
    let wp = wire_program(v.program);
    assert(rest.subrange(0, wp.len() as int) == wp) by {
        if rest[0] == 1 {
            let n = read_u64(rest, 1);
            let body = rest.subrange(9, 9 + n);
            lemma_u64_bytes_round_trip(rest, 1);
            assert(encode_utf8(decode_utf8(body)) == body);
            assert(rest.subrange(0, wp.len() as int) =~= seq![1u8] + rest.subrange(1, 9) + body);
        } else {
            assert(rest.subrange(0, 1) =~= seq![0u8]);
        }
    }
    assert(b.subrange(0, wire(v).len() as int) =~= wire(v));
}

fn push_u32(out: &mut Vec<u8>, v: u32)
    ensures
        final(out)@ == old(out)@ + le_u32(v),
{
    out.push((v & 0xff) as u8);
    out.push(((v >> 8u32) & 0xff) as u8);
    out.push(((v >> 16u32) & 0xff) as u8);
    out.push(((v >> 24u32) & 0xff) as u8);
    assert(final(out)@ =~= old(out)@ + le_u32(v));
}

fn push_u64(out: &mut Vec<u8>, v: u64)
    ensures
        final(out)@ == old(out)@ + le_u64(v),
{
    out.push((v & 0xff) as u8);
    out.push(((v >> 8u64) & 0xff) as u8);
    out.push(((v >> 16u64) & 0xff) as u8);
    out.push(((v >> 24u64) & 0xff) as u8);
    out.push(((v >> 32u64) & 0xff) as u8);
    out.push(((v >> 40u64) & 0xff) as u8);
    out.push(((v >> 48u64) & 0xff) as u8);
    out.push(((v >> 56u64) & 0xff) as u8);
    assert(final(out)@ =~= old(out)@ + le_u64(v));
}

fn push_bytes(out: &mut Vec<u8>, bytes: &[u8])
    ensures
        final(out)@ == old(out)@ + bytes@,
{
    let ghost start = out@;
    let mut i: usize = 0;
    while i < bytes.len()
        invariant
            i <= bytes@.len(),
            out@ == start + bytes@.subrange(0, i as int),
        decreases bytes@.len() - i,
    {
        out.push(bytes[i]);
        i = i + 1;
        assert(out@ =~= start + bytes@.subrange(0, i as int));
    }
    assert(bytes@.subrange(0, i as int) =~= bytes@);
}

/// The bytes that stand for `e`.
pub fn encode(e: &LinkError<DuringLinkError>) -> (r: Vec<u8>)
    ensures
        r@ == wire(e@),
{
    let mut out: Vec<u8> = Vec::new();
    match e.error {
        DuringLinkError::LinkAlreadyExists => push_u32(&mut out, 0),
        DuringLinkError::OS(OSError(code)) => {
            push_u32(&mut out, 1);
            push_u32(&mut out, code as u32);
        },
    }
    out.push(if e.target { 1u8 } else { 0u8 });
    out.push(if e.link { 1u8 } else { 0u8 });
    match &e.program {
        None => out.push(0u8),
        Some(name) => {
            let bytes = name.as_str().as_bytes();
            out.push(1u8);
            push_u64(&mut out, bytes.len() as u64);
            push_bytes(&mut out, bytes);
        },
    }
    assert(out@ =~= wire(e@));
    out
}

fn read_u32_at(b: &[u8], p: usize) -> (r: u32)
    requires
        p + 4 <= b@.len(),
    ensures
        r == read_u32(b@, p as int),
{
    (b[p] as u32) | ((b[p + 1] as u32) << 8u32) | ((b[p + 2] as u32) << 16u32) | ((b[p + 3] as u32)
        << 24u32)
}

fn read_u64_at(b: &[u8], p: usize) -> (r: u64)
    requires
        p + 8 <= b@.len(),
    ensures
        r == read_u64(b@, p as int),
{
    (b[p] as u64) | ((b[p + 1] as u64) << 8u64) | ((b[p + 2] as u64) << 16u64) | ((b[p + 3] as u64)
        << 24u64) | ((b[p + 4] as u64) << 32u64) | ((b[p + 5] as u64) << 40u64) | ((b[p + 6] as u64)
        << 48u64) | ((b[p + 7] as u64) << 56u64)
}

fn read_bool_at(b: &[u8], p: usize) -> (r: Option<bool>)
    requires
        p < b@.len(),
    ensures
        r == parse_bool(b@[p as int]),
{
    if b[p] == 0 {
        Some(false)
    } else if b[p] == 1 {
        Some(true)
    } else {
        None
    }
}

fn copy_range(b: &[u8], from: usize, to: usize) -> (r: Vec<u8>)
    requires
        from <= to <= b@.len(),
    ensures
        r@ == b@.subrange(from as int, to as int),
{
    let mut out: Vec<u8> = Vec::new();
    let mut i: usize = from;
    while i < to
        invariant
            from <= i <= to <= b@.len(),
            out@ == b@.subrange(from as int, i as int),
        decreases to - i,
    {
        out.push(b[i]);
        i = i + 1;
        assert(out@ =~= b@.subrange(from as int, i as int));
    }
    out
}

/// Relies on `String::from_utf8`: it accepts exactly the byte vectors that are
/// valid UTF-8, and the string it returns holds those bytes.
#[verifier::external_body]
pub(crate) fn string_from_utf8(bytes: Vec<u8>) -> (r: Option<String>)
    ensures
        r is Some <==> valid_utf8(bytes@),
        r matches Some(s) ==> s@ == decode_utf8(bytes@),
{
    String::from_utf8(bytes).ok()
}

fn read_program_at(b: &[u8], p: usize) -> (r: Option<Option<String>>)
    requires
        p <= b@.len(),
    ensures
        match r {
            None => parse_program(b@.subrange(p as int, b@.len() as int)) is None,
            Some(program) => parse_program(b@.subrange(p as int, b@.len() as int)) == Some(
                crate::link_error::string_option_view(program),
            ),
        },
{
    let ghost rest = b@.subrange(p as int, b@.len() as int);
    if p >= b.len() {
        return None;
    }
    if b[p] == 0 {
        return Some(None);
    }
    if b[p] != 1 || b.len() - p < 9 {
        return None;
    }
    let n = read_u64_at(b, p + 1);
    assert(read_u64(rest, 1) == n);
    if n > (b.len() - p - 9) as u64 {
        return None;
    }
    let body = copy_range(b, p + 9, p + 9 + n as usize);
    assert(body@ =~= rest.subrange(9, 9 + n));
    match string_from_utf8(body) {
        Some(name) => Some(Some(name)),
        None => None,
    }
}

/// The error that `bytes` begin with; `None` where they do not begin with
/// the bytes of an error.
pub fn decode(bytes: &[u8]) -> (r: Option<LinkError<DuringLinkError>>)
    ensures
        match r {
            None => parse_wire(bytes@) is None,
            Some(e) => parse_wire(bytes@) == Some(e@),
        },
{
    let b = bytes;
    if b.len() < 4 {
        return None;
    }
    let tag = read_u32_at(b, 0);
    let (error, k) = if tag == 0 {
        (DuringLinkError::LinkAlreadyExists, 4usize)
    } else if tag == 1 && b.len() >= 8 {
        (DuringLinkError::OS(OSError(read_u32_at(b, 4) as i32)), 8usize)
    } else {
        return None;
    };
    assert(parse_error(b@) == Some((error, k as int)));
    if b.len() < k + 2 {
        return None;
    }
    let target = read_bool_at(b, k);
    let link = read_bool_at(b, k + 1);
    let program = read_program_at(b, k + 2);
    match (target, link, program) {
        (Some(target), Some(link), Some(program)) => Some(LinkError { error, target, link, program }),
        _ => None,
    }
}

} // verus!
