//! Byte-level text primitives: decimal numbers, lines and separators.
//!
//! Files, directory names and process output are handled as bytes. Every
//! specification in this module is stated over `Seq<u8>`.

use vstd::prelude::*;
use vstd::slice::slice_subrange;
use vstd::string::{is_ascii_spec_bytes, StringSliceAdditionalSpecFns};
use vstd::utf8::{encode_utf8, is_ascii_chars};

verus! {

/// Line feed.
pub const LF: u8 = 10;

/// Carriage return.
pub const CR: u8 = 13;

/// The ASCII digit `0`.
pub const ZERO: u8 = 48;

/// The ASCII digit `9`.
pub const NINE: u8 = 57;

/// The ASCII minus sign.
pub const MINUS: u8 = 45;

/// `b` is an ASCII decimal digit.
pub open spec fn is_digit(b: u8) -> bool {
    ZERO <= b <= NINE
}

/// Every byte of `s` is an ASCII decimal digit.
pub open spec fn all_digits(s: Seq<u8>) -> bool {
    forall|i: int| 0 <= i < s.len() ==> is_digit(#[trigger] s[i])
}

/// The number that the digit string `s` denotes, most significant digit first.
pub open spec fn decimal_value(s: Seq<u8>) -> nat
    decreases s.len(),
{
    if s.len() == 0 {
        0
    } else {
        (10 * decimal_value(s.drop_last()) + (s.last() - ZERO)) as nat
    }
}

/// The shortest digit string that denotes `n`.
pub open spec fn decimal_digits(n: nat) -> Seq<u8>
    decreases n,
{
    if n < 10 {
        seq![(ZERO + n) as u8]
    } else {
        decimal_digits(n / 10).push((ZERO + n % 10) as u8)
    }
}

/// `s` is the shortest digit string for its value: not empty, digits only, and
/// no leading zero unless it is `0` itself.
pub open spec fn is_canonical_decimal(s: Seq<u8>) -> bool {
    &&& s.len() > 0
    &&& all_digits(s)
    &&& (s.len() > 1 ==> s[0] != ZERO)
}

/// `decimal_digits` writes canonical strings and `decimal_value` reads them back.
pub proof fn lemma_decimal_digits_value(n: nat)
    ensures
        is_canonical_decimal(decimal_digits(n)),
        decimal_value(decimal_digits(n)) == n,
        n >= 10 ==> decimal_digits(n).len() > 1,
        n > 0 ==> decimal_digits(n)[0] != ZERO,
    decreases n,
{
    if n < 10 {
        let s = decimal_digits(n);
        assert(decimal_value(s.drop_last()) == 0);
    } else {
        lemma_decimal_digits_value(n / 10);
        let p = decimal_digits(n / 10);
        let s = decimal_digits(n);
        assert(s.drop_last() =~= p);
    }
}

/// A canonical digit string is the one that `decimal_digits` writes for its value.
pub proof fn lemma_canonical_decimal_unique(s: Seq<u8>)
    requires
        is_canonical_decimal(s),
    ensures
        decimal_digits(decimal_value(s)) == s,
        s[0] != ZERO ==> decimal_value(s) > 0,
    decreases s.len(),
{
    if s.len() == 1 {
        assert(s.drop_last() =~= Seq::<u8>::empty());
    } else {
        let p = s.drop_last();
        lemma_canonical_decimal_unique(p);
        assert(decimal_value(s) / 10 == decimal_value(p));
    }
}

/// Appending digits never lowers the value.
pub proof fn lemma_decimal_prefix_le(s: Seq<u8>, k: int)
    requires
        all_digits(s),
        0 <= k <= s.len(),
    ensures
        decimal_value(s.take(k)) <= decimal_value(s),
    decreases s.len() - k,
{
    if k == s.len() {
        assert(s.take(k) =~= s);
    } else {
        lemma_decimal_prefix_le(s, k + 1);
        let t = s.take(k + 1);
        assert(t.drop_last() =~= s.take(k));
    }
}

/// The number that `s` denotes, where `s` is a non-empty string of ASCII digits
/// whose value is at most `i32::MAX`.
pub open spec fn decimal_number(s: Seq<u8>) -> Option<i32> {
    if s.len() > 0 && all_digits(s) && decimal_value(s) <= i32::MAX {
        Some(decimal_value(s) as i32)
    } else {
        None
    }
}

/// Reads a non-empty string of ASCII digits as a number no larger than
/// `i32::MAX`. Leading zeros are accepted; a sign is not.
pub fn parse_decimal(s: &[u8]) -> (r: Option<i32>)
    ensures
        r == decimal_number(s@),
        r is Some <==> s@.len() > 0 && all_digits(s@) && decimal_value(s@) <= i32::MAX,
        r matches Some(v) ==> v == decimal_value(s@),
{
    if s.len() == 0 {
        return None;
    }
    let mut acc: i64 = 0;
    let mut i: usize = 0;
    while i < s.len()
        invariant
            0 <= i <= s.len(),
            all_digits(s@.take(i as int)),
            acc == decimal_value(s@.take(i as int)),
            0 <= acc <= i32::MAX,
        decreases s.len() - i,
    {
        let b = s[i];
        if b < ZERO || b > NINE {
            return None;
        }
        let next: i64 = acc * 10 + (b - ZERO) as i64;
        proof {
            let t = s@.take(i as int + 1);
            assert(t.drop_last() =~= s@.take(i as int));
        }
        if next > 2147483647 {
            proof {
                if all_digits(s@) {
                    lemma_decimal_prefix_le(s@, i as int + 1);
                }
            }
            return None;
        }
        acc = next;
        i = i + 1;
    }
    proof {
        assert(s@.take(i as int) =~= s@);
    }
    Some(acc as i32)
}

/// The decimal text of an integer: a minus sign for a negative number, then
/// the shortest digit string of its magnitude.
pub open spec fn decimal_text(n: int) -> Seq<u8> {
    if n < 0 {
        seq![MINUS] + decimal_digits((-n) as nat)
    } else {
        decimal_digits(n as nat)
    }
}

/// Appends the shortest digit string of `n` to `out`.
pub fn push_digits(out: &mut Vec<u8>, n: u64)
    ensures
        final(out)@ == old(out)@ + decimal_digits(n as nat),
    decreases n,
{
    if n >= 10 {
        push_digits(out, n / 10);
    }
    let d: u8 = (n % 10) as u8;
    out.push(ZERO + d);
}

/// Appends the decimal text of `n` to `out`.
pub fn push_decimal(out: &mut Vec<u8>, n: i64)
    ensures
        final(out)@ == old(out)@ + decimal_text(n as int),
{
    if n < 0 {
        out.push(MINUS);
        let magnitude: u64 = if n == i64::MIN {
            9223372036854775808u64
        } else {
            (-n) as u64
        };
        push_digits(out, magnitude);
    } else {
        push_digits(out, n as u64);
    }
}

/// The bytes of an ASCII string, one byte for each character.
pub open spec fn ascii(s: &str) -> Seq<u8> {
    Seq::new(s@.len(), |i: int| s@[i] as u8)
}

/// The bytes of a string literal: its UTF-8 encoding, which for an ASCII
/// string is one byte for each character.
pub fn literal(s: &'static str) -> (r: &'static [u8])
    ensures
        r@ == s.spec_bytes(),
        is_ascii_chars(s@) ==> r@ == ascii(s),
{
    proof {
        is_ascii_spec_bytes(s);
    }
    s.as_bytes()
}

/// The bytes of a string: its UTF-8 encoding.
pub fn string_bytes(s: &String) -> (r: &[u8])
    ensures
        r@ == encode_utf8(s@),
{
    s.as_str().as_bytes()
}

/// Appends the bytes of a string literal to `out`.
pub fn push_str(out: &mut Vec<u8>, s: &'static str)
    ensures
        final(out)@ == old(out)@ + s.spec_bytes(),
        is_ascii_chars(s@) ==> final(out)@ == old(out)@ + ascii(s),
{
    push_bytes(out, literal(s));
}

/// The contents of an optional byte string, empty where there is none.
pub open spec fn text_or_empty(o: Option<Vec<u8>>) -> Seq<u8> {
    match o {
        Some(v) => v@,
        None => Seq::empty(),
    }
}

/// Appends an optional byte string to `out`.
pub fn push_optional(out: &mut Vec<u8>, o: &Option<Vec<u8>>)
    ensures
        final(out)@ == old(out)@ + text_or_empty(*o),
{
    match o {
        Some(v) => {
            push_bytes(out, v.as_slice());
        },
        None => {},
    }
}

/// Appends `s` to `out`.
pub fn push_bytes(out: &mut Vec<u8>, s: &[u8])
    ensures
        final(out)@ == old(out)@ + s@,
{
    let mut i: usize = 0;
    while i < s.len()
        invariant
            0 <= i <= s.len(),
            out@ == old(out)@ + s@.take(i as int),
        decreases s.len() - i,
    {
        out.push(s[i]);
        i = i + 1;
    }
}

/// `a` and `b` hold the same bytes.
pub fn bytes_eq(a: &[u8], b: &[u8]) -> (r: bool)
    ensures
        r == (a@ == b@),
{
    if a.len() != b.len() {
        return false;
    }
    let mut i: usize = 0;
    while i < a.len()
        invariant
            0 <= i <= a.len(),
            a.len() == b.len(),
            a@.take(i as int) == b@.take(i as int),
        decreases a.len() - i,
    {
        if a[i] != b[i] {
            return false;
        }
        i = i + 1;
    }
    assert(a@.take(i as int) =~= a@);
    assert(b@.take(i as int) =~= b@);
    true
}

/// `s` begins with `prefix`.
pub fn starts_with(s: &[u8], prefix: &[u8]) -> (r: bool)
    ensures
        r == prefix@.is_prefix_of(s@),
{
    if s.len() < prefix.len() {
        return false;
    }
    bytes_eq(slice_subrange(s, 0, prefix.len()), prefix)
}

/// The position of the first `b` in `s`, or the length of `s` where it has none.
pub open spec fn first_index(s: Seq<u8>, b: u8) -> nat
    decreases s.len(),
{
    if s.len() == 0 || s[0] == b {
        0
    } else {
        1 + first_index(s.skip(1), b)
    }
}

/// `first_index` is the least position that holds `b`.
pub proof fn lemma_first_index(s: Seq<u8>, b: u8)
    ensures
        first_index(s, b) <= s.len(),
        first_index(s, b) < s.len() ==> s[first_index(s, b) as int] == b,
        forall|j: int| 0 <= j < first_index(s, b) ==> s[j] != b,
    decreases s.len(),
{
    if s.len() > 0 && s[0] != b {
        let t = s.skip(1);
        lemma_first_index(t, b);
        assert forall|j: int| 0 <= j < first_index(s, b) implies s[j] != b by {
            if j > 0 {
                assert(t[j - 1] == s[j]);
            }
        }
    }
}

/// A position that holds `b`, or the end, with no `b` before it, is `first_index`.
pub proof fn lemma_first_index_is(s: Seq<u8>, b: u8, i: int)
    requires
        0 <= i <= s.len(),
        i < s.len() ==> s[i] == b,
        forall|j: int| 0 <= j < i ==> s[j] != b,
    ensures
        first_index(s, b) == i,
{
    lemma_first_index(s, b);
}

/// Finds the first `b` in `s`.
pub fn find(s: &[u8], b: u8) -> (r: usize)
    ensures
        r == first_index(s@, b),
{
    let mut i: usize = 0;
    while i < s.len() && s[i] != b
        invariant
            0 <= i <= s.len(),
            forall|j: int| 0 <= j < i ==> s@[j] != b,
        decreases s.len() - i,
    {
        i = i + 1;
    }
    proof {
        lemma_first_index_is(s@, b, i as int);
    }
    i
}

/// What stands in `s` before its first `b`: all of `s` where it has none.
pub open spec fn before(s: Seq<u8>, b: u8) -> Seq<u8> {
    s.take(first_index(s, b) as int)
}

/// What stands in `s` after its first `b`, if it has one.
pub open spec fn after(s: Seq<u8>, b: u8) -> Option<Seq<u8>> {
    if first_index(s, b) < s.len() {
        Some(s.skip(first_index(s, b) as int + 1))
    } else {
        None
    }
}

/// The part of `s` before its first `b`.
pub fn head<'a>(s: &'a [u8], b: u8) -> (r: &'a [u8])
    ensures
        r@ == before(s@, b),
{
    let i = find(s, b);
    proof {
        lemma_first_index(s@, b);
    }
    slice_subrange(s, 0, i)
}

/// The part of `s` after its first `b`, if it has one.
pub fn tail<'a>(s: &'a [u8], b: u8) -> (r: Option<&'a [u8]>)
    ensures
        r is Some == after(s@, b) is Some,
        r matches Some(t) ==> t@ == after(s@, b)->Some_0,
{
    let i = find(s, b);
    if i < s.len() {
        Some(slice_subrange(s, i + 1, s.len()))
    } else {
        None
    }
}

/// `s` without one carriage return at its end.
pub open spec fn strip_cr(s: Seq<u8>) -> Seq<u8> {
    if s.len() > 0 && s.last() == CR {
        s.drop_last()
    } else {
        s
    }
}

/// The lines of `s`. A line ends at a line feed; a carriage return just before
/// the line feed belongs to the line ending. What follows the last line feed is
/// a line too unless it is empty, and is kept as it stands.
pub open spec fn lines(s: Seq<u8>) -> Seq<Seq<u8>>
    decreases s.len(),
{
    if s.len() == 0 {
        Seq::empty()
    } else if first_index(s, LF) < s.len() {
        seq![strip_cr(before(s, LF))] + lines(s.skip(first_index(s, LF) as int + 1))
    } else {
        seq![s]
    }
}

/// The contents of an optional byte string.
pub open spec fn view_of(o: Option<Vec<u8>>) -> Option<Seq<u8>> {
    match o {
        Some(v) => Some(v@),
        None => None,
    }
}

/// The contents of a list of byte strings.
pub open spec fn views(v: Seq<Vec<u8>>) -> Seq<Seq<u8>> {
    Seq::new(v.len(), |i: int| v[i]@)
}

/// Copies `s` into a vector of its own.
pub fn to_vec(s: &[u8]) -> (r: Vec<u8>)
    ensures
        r@ == s@,
{
    let mut out: Vec<u8> = Vec::new();
    push_bytes(&mut out, s);
    out
}

/// Splits `s` into its lines.
pub fn split_lines(s: &[u8]) -> (r: Vec<Vec<u8>>)
    ensures
        views(r@) == lines(s@),
{
    let mut out: Vec<Vec<u8>> = Vec::new();
    let mut pos: usize = 0;
    assert(s@.skip(0) =~= s@);
    while pos < s.len()
        invariant
            0 <= pos <= s.len(),
            views(out@) + lines(s@.skip(pos as int)) == lines(s@),
        decreases s.len() - pos,
    {
        let rest = slice_subrange(s, pos, s.len());
        let i = find(rest, LF);
        if i < rest.len() {
            let mut end = i;
            if end > 0 && rest[end - 1] == CR {
                end = end - 1;
            }
            let line = to_vec(slice_subrange(rest, 0, end));
            assert(line@ =~= strip_cr(before(rest@, LF)));
            out.push(line);
            pos = pos + i + 1;
            assert(s@.skip(pos as int) =~= rest@.skip(i as int + 1));
        } else {
            let line = to_vec(rest);
            out.push(line);
            pos = s.len();
        }
    }
    out
}

/// The lines joined by single line feeds, with none after the last.
pub open spec fn join_lines(ls: Seq<Seq<u8>>) -> Seq<u8>
    decreases ls.len(),
{
    if ls.len() == 0 {
        Seq::empty()
    } else if ls.len() == 1 {
        ls[0]
    } else {
        join_lines(ls.drop_last()) + seq![LF] + ls.last()
    }
}

/// Joins lines by single line feeds.
pub fn join(ls: &Vec<Vec<u8>>) -> (r: Vec<u8>)
    ensures
        r@ == join_lines(views(ls@)),
{
    let mut out: Vec<u8> = Vec::new();
    let mut i: usize = 0;
    while i < ls.len()
        invariant
            0 <= i <= ls.len(),
            out@ == join_lines(views(ls@).take(i as int)),
        decreases ls.len() - i,
    {
        let ghost prev = views(ls@).take(i as int);
        let ghost next = views(ls@).take(i as int + 1);
        assert(next.drop_last() =~= prev);
        if i > 0 {
            out.push(LF);
        }
        push_bytes(&mut out, ls[i].as_slice());
        i = i + 1;
    }
    assert(views(ls@).take(i as int) =~= views(ls@));
    out
}

/// `b` is ASCII white space: a space, or one of the controls from tab to
/// carriage return.
pub open spec fn is_space(b: u8) -> bool {
    b == 32 || 9 <= b <= 13
}

/// `s` holds nothing but white space.
pub open spec fn is_blank(s: Seq<u8>) -> bool {
    forall|i: int| 0 <= i < s.len() ==> is_space(#[trigger] s[i])
}

/// `s` without the white space at its start.
pub open spec fn trim_start(s: Seq<u8>) -> Seq<u8>
    decreases s.len(),
{
    if s.len() > 0 && is_space(s[0]) {
        trim_start(s.skip(1))
    } else {
        s
    }
}

/// `s` without the white space at its end.
pub open spec fn trim_end(s: Seq<u8>) -> Seq<u8>
    decreases s.len(),
{
    if s.len() > 0 && is_space(s.last()) {
        trim_end(s.drop_last())
    } else {
        s
    }
}

/// `s` without the white space at its start and at its end.
pub open spec fn trim(s: Seq<u8>) -> Seq<u8> {
    trim_end(trim_start(s))
}

/// Tells whether `b` is ASCII white space.
pub fn byte_is_space(b: u8) -> (r: bool)
    ensures
        r == is_space(b),
{
    b == 32 || (9 <= b && b <= 13)
}

/// Tells whether `s` holds nothing but white space.
pub fn blank(s: &[u8]) -> (r: bool)
    ensures
        r == is_blank(s@),
{
    let mut i: usize = 0;
    while i < s.len()
        invariant
            0 <= i <= s.len(),
            forall|j: int| 0 <= j < i ==> is_space(#[trigger] s@[j]),
        decreases s.len() - i,
    {
        if !byte_is_space(s[i]) {
            return false;
        }
        i = i + 1;
    }
    true
}

/// Removes the white space at both ends of `s`.
pub fn trimmed<'a>(s: &'a [u8]) -> (r: &'a [u8])
    ensures
        r@ == trim(s@),
{
    let mut a: usize = 0;
    assert(s@.skip(0) =~= s@);
    while a < s.len() && byte_is_space(s[a])
        invariant
            0 <= a <= s.len(),
            trim_start(s@) == trim_start(s@.skip(a as int)),
        decreases s.len() - a,
    {
        assert(s@.skip(a as int).skip(1) =~= s@.skip(a as int + 1));
        a = a + 1;
    }
    let mut b: usize = s.len();
    while b > a && byte_is_space(s[b - 1])
        invariant
            a <= b <= s.len(),
            trim(s@) == trim_end(s@.subrange(a as int, b as int)),
        decreases b,
    {
        assert(s@.subrange(a as int, b as int).drop_last() =~= s@.subrange(a as int, b as int - 1));
        b = b - 1;
    }
    slice_subrange(s, a, b)
}

/// The lower-case form of an ASCII capital letter; any other byte unchanged.
pub open spec fn lower_byte(b: u8) -> u8 {
    if 65 <= b <= 90 {
        (b + 32) as u8
    } else {
        b
    }
}

/// `s` with each ASCII capital letter in lower case.
pub open spec fn lower(s: Seq<u8>) -> Seq<u8> {
    Seq::new(s.len(), |i: int| lower_byte(s[i]))
}

/// Puts the ASCII capital letters of `s` in lower case.
pub fn to_lower(s: &[u8]) -> (r: Vec<u8>)
    ensures
        r@ == lower(s@),
{
    let mut out: Vec<u8> = Vec::new();
    let mut i: usize = 0;
    while i < s.len()
        invariant
            0 <= i <= s.len(),
            out@ == lower(s@.take(i as int)),
        decreases s.len() - i,
    {
        let b = s[i];
        if 65 <= b && b <= 90 {
            out.push(b + 32);
        } else {
            out.push(b);
        }
        i = i + 1;
    }
    out
}

} // verus!
