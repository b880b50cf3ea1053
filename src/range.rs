//! Byte ranges of a read: the request header that asks for them and the
//! bytes that a well-behaved provider answers with.

use vstd::prelude::*;

verus! {

/// The decimal digit for `d`, which is below ten.
pub open spec fn digit_char(d: nat) -> char {
    if d == 0 { '0' }
    else if d == 1 { '1' }
    else if d == 2 { '2' }
    else if d == 3 { '3' }
    else if d == 4 { '4' }
    else if d == 5 { '5' }
    else if d == 6 { '6' }
    else if d == 7 { '7' }
    else if d == 8 { '8' }
    else { '9' }
}

/// `n` written in decimal, without leading zeros.
pub open spec fn decimal(n: nat) -> Seq<char>
    decreases n,
{
    if n < 10 {
        seq![digit_char(n)]
    } else {
        decimal(n / 10).push(digit_char(n % 10))
    }
}

/// The inclusive span `[first, last]` that a read of `length` bytes at
/// `start` asks for; none where `length` is zero (the read runs to the end).
pub open spec fn requested_span(start: nat, length: nat) -> Option<(nat, nat)> {
    if length > 0 {
        Some((start, (start + length - 1) as nat))
    } else {
        None
    }
}

/// The value of an HTTP `Range` header that asks for bytes `first` to `last`,
/// both included.
pub open spec fn range_header_text(first: nat, last: nat) -> Seq<char> {
    seq!['b', 'y', 't', 'e', 's', '='] + decimal(first) + seq!['-'] + decimal(last)
}

/// What a provider that honours range requests sends for `span` of an object
/// holding `obj`: the whole object without a span, else the bytes from
/// `first` up to `last` or the end, whichever comes first.
pub open spec fn served_bytes(obj: Seq<u8>, span: Option<(nat, nat)>) -> Seq<u8> {
    match span {
        None => obj,
        Some((first, last)) => {
            if first < obj.len() {
                let end: int = if last + 1 <= obj.len() { (last + 1) as int } else { obj.len() as int };
                obj.subrange(first as int, end)
            } else {
                Seq::empty()
            }
        },
    }
}

/// The bytes that a read of `length` bytes at `start` returns, given the
/// body the provider delivered for its request; none where the body is not
/// exactly the requested span. A read to the end (`length` zero) delivers the
/// whole object, of which the bytes from `start` on are kept.
pub open spec fn read_bytes(start: nat, length: nat, body: Seq<u8>) -> Option<Seq<u8>> {
    if length > 0 {
        if body.len() == length {
            Some(body)
        } else {
            None
        }
    } else if start <= body.len() {
        Some(body.skip(start as int))
    } else {
        Some(Seq::empty())
    }
}

/// The string for decimal digit `d`.
fn digit_str(d: u64) -> (r: &'static str)
    requires
        d < 10,
    ensures
        r@ == seq![digit_char(d as nat)],
{
    if d == 0 {
        proof { reveal_strlit("0"); }
        "0"
    } else if d == 1 {
        proof { reveal_strlit("1"); }
        "1"
    } else if d == 2 {
        proof { reveal_strlit("2"); }
        "2"
    } else if d == 3 {
        proof { reveal_strlit("3"); }
        "3"
    } else if d == 4 {
        proof { reveal_strlit("4"); }
        "4"
    } else if d == 5 {
        proof { reveal_strlit("5"); }
        "5"
    } else if d == 6 {
        proof { reveal_strlit("6"); }
        "6"
    } else if d == 7 {
        proof { reveal_strlit("7"); }
        "7"
    } else if d == 8 {
        proof { reveal_strlit("8"); }
        "8"
    } else {
        proof { reveal_strlit("9"); }
        "9"
    }
}

/// Appends `n` in decimal to `out`.
pub fn write_decimal(out: &mut String, n: u64)
    ensures
        final(out)@ == old(out)@ + decimal(n as nat),
    decreases n,
{
    if n >= 10 {
        write_decimal(out, n / 10);
    }
    out.append(digit_str(n % 10));
    proof {
        if n >= 10 {
            assert(old(out)@ + decimal(n as nat) =~= old(out)@ + decimal((n / 10) as nat) + seq![digit_char((n % 10) as nat)]);
        } else {
            assert(decimal(n as nat) == seq![digit_char(n as nat)]);
        }
    }
}

/// The `Range` header for a read of `length` bytes at `start`: bytes `start`
/// to `start + length - 1`, both included. None where `length` is zero: such
/// a read fetches the object to its end.
pub fn range_header(start: u64, length: usize) -> (r: Option<String>)
    requires
        length == 0 || start + length - 1 <= u64::MAX,
    ensures
        match requested_span(start as nat, length as nat) {
            None => r is None,
            Some((first, last)) => r is Some && r->0@ == range_header_text(first, last),
        },
{
    if length == 0 {
        return None;
    }
    let last: u64 = start + (length as u64 - 1);
    let prefix = "bytes=";
    let dash = "-";
    proof {
        reveal_strlit("bytes=");
        reveal_strlit("-");
    }
    let mut out = prefix.to_owned();
    write_decimal(&mut out, start);
    out.append(dash);
    write_decimal(&mut out, last);
    Some(out)
}

/// A read of `length > 0` bytes at `start` gives exactly the object's bytes
/// `[start, start + length)` where the object holds them all, and no bytes
/// at all (an error) where it is shorter: never a part of the span.
pub proof fn lemma_range_read_exact(obj: Seq<u8>, start: nat, length: nat)
    requires
        length > 0,
    ensures
        start + length <= obj.len() ==> read_bytes(start, length, served_bytes(obj, requested_span(start, length)))
            == Some(obj.subrange(start as int, (start + length) as int)),
        start + length > obj.len() ==> read_bytes(start, length, served_bytes(obj, requested_span(start, length)))
            is None,
        read_bytes(start, length, served_bytes(obj, requested_span(start, length))) matches Some(b) ==> b.len()
            == length,
{
}

/// A read of length zero at `start` gives every byte of the object from
/// `start` to its end.
pub proof fn lemma_read_to_end(obj: Seq<u8>, start: nat)
    requires
        start <= obj.len(),
    ensures
        read_bytes(start, 0, served_bytes(obj, requested_span(start, 0))) == Some(obj.subrange(start as int, obj.len() as int)),
{
    assert(obj.skip(start as int) =~= obj.subrange(start as int, obj.len() as int));
}

} // verus!
