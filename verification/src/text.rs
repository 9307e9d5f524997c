//! Fixed-capacity diagnostic text: composing messages for the diagnostic
//! sink out of string parts and decimal counts.
//!
//! Messages live in a `heapless::String<32>`: a 32-byte, stack-allocated
//! string suited to a device without an allocator. Composition is
//! all-or-nothing: parts that fit are concatenated exactly; parts that would
//! overflow the capacity leave a `BufferOverflow` error and no partial text.

use crate::CoreError;
use vstd::prelude::*;
use vstd::string::StringSliceAdditionalSpecFns;

verus! {

/// Declares heapless::String, the fixed-capacity string type, for use in
/// signatures and fields; what a value holds is given by `text_bytes`.
#[verifier::external_type_specification]
#[verifier::external_body]
pub struct ExHeaplessString<const N: usize>(heapless::String<N>);

/// The bytes held by a fixed-capacity message string.
pub uninterp spec fn text_bytes(s: heapless::String<32>) -> Seq<u8>;

/// Relies on heapless::String::new: constructs an empty string.
#[verifier::external_body]
pub(crate) fn msg_new() -> (r: heapless::String<32>)
    ensures
        text_bytes(r) == Seq::<u8>::empty(),
{
    heapless::String::new()
}

/// Relies on heapless::String::push_str: appends the bytes of `x` when they
/// fit within the 32-byte capacity, and otherwise fails leaving the string
/// unchanged.
#[verifier::external_body]
pub(crate) fn msg_push_str(s: &mut heapless::String<32>, x: &str) -> (r: Result<(), ()>)
    ensures
        r is Ok <==> text_bytes(*old(s)).len() + x.spec_bytes().len() <= 32,
        r is Ok ==> text_bytes(*final(s)) == text_bytes(*old(s)) + x.spec_bytes(),
        r is Err ==> text_bytes(*final(s)) == text_bytes(*old(s)),
{
    s.push_str(x)
}

/// Relies on heapless::String::push: a one-byte character is appended when
/// the string is not full, and otherwise the push fails with the string
/// unchanged.
#[verifier::external_body]
pub(crate) fn msg_push(s: &mut heapless::String<32>, c: char) -> (r: Result<(), ()>)
    requires
        (c as u32) < 128,
    ensures
        r is Ok <==> text_bytes(*old(s)).len() < 32,
        r is Ok ==> text_bytes(*final(s)) == text_bytes(*old(s)).push(c as u8),
        r is Err ==> text_bytes(*final(s)) == text_bytes(*old(s)),
{
    match s.push(c) {
        Ok(()) => Ok(()),
        Err(()) => Err(()),
    }
}

/// Relies on heapless::String::as_str: exposes the whole contents as a
/// string slice. This is the read path handed to the diagnostic sink.
#[verifier::external_body]
pub(crate) fn msg_as_str(s: &heapless::String<32>) -> (r: &str)
    ensures
        r.spec_bytes() == text_bytes(*s),
{
    s.as_str()
}

/// The concatenation of the bytes of a sequence of string parts.
pub open spec fn concat_bytes(xs: Seq<&str>) -> Seq<u8>
    decreases xs.len(),
{
    if xs.len() == 0 {
        Seq::<u8>::empty()
    } else {
        concat_bytes(xs.drop_last()) + xs.last().spec_bytes()
    }
}

/// A prefix of the parts never holds more bytes than all of the parts.
proof fn lemma_concat_prefix_len(xs: Seq<&str>, i: int)
    requires
        0 <= i <= xs.len(),
    ensures
        concat_bytes(xs.take(i)).len() <= concat_bytes(xs).len(),
    decreases xs.len() - i,
{
    if i < xs.len() {
        assert(xs.take(i + 1).drop_last() =~= xs.take(i));
        assert(xs.take(i + 1).last() == xs[i]);
        lemma_concat_prefix_len(xs, i + 1);
        if i + 1 == xs.len() {
            assert(xs.take(i + 1) =~= xs);
        }
    } else {
        assert(xs.take(i) =~= xs);
    }
}

/// Builds one message out of the given parts. Succeeds exactly when the
/// concatenated parts fit in the 32-byte capacity, and then returns their
/// exact concatenation; on overflow it fails with `BufferOverflow` and no
/// partial output.
pub fn compose_string(xs: &[&str]) -> (r: Result<heapless::String<32>, CoreError>)
    ensures
        r is Ok <==> concat_bytes(xs@).len() <= 32,
        r matches Ok(s) ==> text_bytes(s) == concat_bytes(xs@),
        r matches Err(e) ==> e == CoreError::BufferOverflow,
{
    let mut s = msg_new();
    let mut i: usize = 0;
    while i < xs.len()
        invariant
            0 <= i <= xs@.len(),
            text_bytes(s) == concat_bytes(xs@.take(i as int)),
            text_bytes(s).len() <= 32,
        decreases xs@.len() - i,
    {
        let ghost pre = xs@.take(i as int);
        assert(xs@.take(i + 1).drop_last() =~= pre);
        assert(xs@.take(i + 1).last() == xs@[i as int]);
        match msg_push_str(&mut s, xs[i]) {
            Ok(()) => {}
            Err(()) => {
                proof {
                    lemma_concat_prefix_len(xs@, i + 1);
                }
                return Err(CoreError::BufferOverflow);
            }
        }
        i = i + 1;
    }
    assert(xs@.take(i as int) =~= xs@);
    Ok(s)
}

/// The concatenation of exactly two parts.
pub proof fn lemma_concat_pair(xs: Seq<&str>)
    requires
        xs.len() == 2,
    ensures
        concat_bytes(xs) == xs[0].spec_bytes() + xs[1].spec_bytes(),
{
    let one = xs.drop_last();
    assert(one.drop_last() =~= Seq::<&str>::empty());
    assert(concat_bytes(Seq::<&str>::empty()) == Seq::<u8>::empty());
    assert(concat_bytes(one) == concat_bytes(one.drop_last()) + one.last().spec_bytes());
    assert(one.last() == xs[0]);
    assert(concat_bytes(one) =~= xs[0].spec_bytes());
    assert(xs.last() == xs[1]);
    assert(concat_bytes(xs) =~= xs[0].spec_bytes() + xs[1].spec_bytes());
}

/// The concatenation of exactly three parts.
pub proof fn lemma_concat_triple(xs: Seq<&str>)
    requires
        xs.len() == 3,
    ensures
        concat_bytes(xs) == xs[0].spec_bytes() + xs[1].spec_bytes() + xs[2].spec_bytes(),
{
    lemma_concat_pair(xs.drop_last());
    assert(xs.drop_last()[0] == xs[0]);
    assert(xs.drop_last()[1] == xs[1]);
    assert(xs.last() == xs[2]);
    assert(concat_bytes(xs) =~= xs[0].spec_bytes() + xs[1].spec_bytes() + xs[2].spec_bytes());
}

/// A message holding exactly the given text.
pub fn msg_from_str(x: &str) -> (r: heapless::String<32>)
    requires
        x.spec_bytes().len() <= 32,
    ensures
        text_bytes(r) == x.spec_bytes(),
{
    let mut s = msg_new();
    let pushed = msg_push_str(&mut s, x);
    assert(pushed is Ok);
    assert(text_bytes(s) =~= x.spec_bytes());
    s
}

/// The decimal digits of `n`, most significant first, as ASCII bytes.
pub open spec fn dec_bytes(n: nat) -> Seq<u8>
    decreases n,
{
    if n < 10 {
        seq![(48 + n) as u8]
    } else {
        dec_bytes(n / 10).push((48 + n % 10) as u8)
    }
}

/// Every byte of a decimal rendering is an ASCII digit.
pub proof fn lemma_dec_bytes_are_digits(n: nat)
    ensures
        dec_bytes(n).len() >= 1,
        forall|i: int| 0 <= i < dec_bytes(n).len() ==> 48 <= #[trigger] dec_bytes(n)[i] < 58,
    decreases n,
{
    if n >= 10 {
        lemma_dec_bytes_are_digits(n / 10);
    }
}

/// Powers of ten, for bounding digit counts.
pub open spec fn pow10(k: nat) -> nat
    decreases k,
{
    if k == 0 {
        1
    } else {
        10 * pow10((k - 1) as nat)
    }
}

/// Powers of ten are positive.
proof fn lemma_pow10_pos(k: nat)
    ensures
        pow10(k) >= 1,
    decreases k,
{
    if k > 0 {
        lemma_pow10_pos((k - 1) as nat);
    }
}

/// A value below the `k`-th power of ten renders in at most `k` digits.
pub proof fn lemma_dec_bytes_len(n: nat, k: nat)
    requires
        k >= 1,
        n < pow10(k),
    ensures
        dec_bytes(n).len() <= k,
    decreases k,
{
    if n >= 10 {
        lemma_pow10_pos((k - 1) as nat);
        assert(n / 10 < pow10((k - 1) as nat)) by (nonlinear_arith)
            requires
                n < 10 * pow10((k - 1) as nat),
                pow10((k - 1) as nat) >= 1,
        ;
        lemma_dec_bytes_len(n / 10, (k - 1) as nat);
    }
}

/// Any count that fits a 32-bit counter renders in at most ten digits.
pub proof fn lemma_dec_bytes_len_u32(n: nat)
    requires
        n <= u32::MAX,
    ensures
        dec_bytes(n).len() <= 10,
{
    assert(pow10(10) == 10000000000) by {
        reveal_with_fuel(pow10, 11);
    }
    lemma_dec_bytes_len(n, 10);
}

/// The decimal digits of a count, most significant first.
pub fn u32_dec_digits(n: u32) -> (r: Vec<u8>)
    ensures
        r@ == dec_bytes(n as nat),
    decreases n,
{
    if n < 10 {
        let mut v: Vec<u8> = Vec::new();
        v.push(48 + n as u8);
        assert(v@ =~= dec_bytes(n as nat));
        v
    } else {
        let mut v = u32_dec_digits(n / 10);
        v.push(48 + (n % 10) as u8);
        assert(v@ =~= dec_bytes(n as nat));
        v
    }
}

/// Renders `message` followed by the decimal digits of `count`, as the
/// diagnostic sink expects a count line. The caller keeps the total within
/// the 32-byte message capacity (every count line of this system does).
pub fn log_count(message: &str, count: u32) -> (r: heapless::String<32>)
    requires
        message.spec_bytes().len() + dec_bytes(count as nat).len() <= 32,
    ensures
        text_bytes(r) == message.spec_bytes() + dec_bytes(count as nat),
{
    proof {
        lemma_dec_bytes_are_digits(count as nat);
    }
    let ghost digits = dec_bytes(count as nat);
    let mut s = msg_new();
    let pushed = msg_push_str(&mut s, message);
    assert(pushed is Ok);
    let ds = u32_dec_digits(count);
    let mut i: usize = 0;
    while i < ds.len()
        invariant
            0 <= i <= ds@.len(),
            ds@ == digits,
            message.spec_bytes().len() + digits.len() <= 32,
            forall|j: int| 0 <= j < digits.len() ==> 48 <= #[trigger] digits[j] < 58,
            text_bytes(s) == message.spec_bytes() + digits.take(i as int),
        decreases ds@.len() - i,
    {
        let b = ds[i];
        let c = b as char;
        assert((c as u32) < 128);
        let pushed_digit = msg_push(&mut s, c);
        assert(pushed_digit is Ok);
        assert((message.spec_bytes() + digits.take(i as int)).push(c as u8) =~= message.spec_bytes()
            + digits.take(i + 1));
        i = i + 1;
    }
    assert(digits.take(i as int) =~= digits);
    s
}

} // verus!
