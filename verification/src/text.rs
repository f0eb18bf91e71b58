//! Text: characters in and out of strings, lines, prefixes, decimal and
//! hexadecimal numbers.

use vstd::prelude::*;
use vstd::string::*;

verus! {

/// `String::push`: the character goes to the end of the string.
pub assume_specification[ String::push ](s: &mut String, c: char)
    ensures
        final(s)@ == old(s)@.push(c),
;

/// The characters of a string.
pub fn chars(s: &str) -> (v: Vec<char>)
    ensures
        v@ == s@,
{
    let mut v: Vec<char> = Vec::new();
    for c in it: s.chars()
        invariant
            it.seq() == s@,
            v@ == s@.take(it.index() as int),
    {
        v.push(c);
        assert(s@.take(it.index() + 1) =~= s@.take(it.index() as int).push(c));
    }
    assert(s@.take(s@.len() as int) =~= s@);
    v
}

/// The string of some characters.
pub fn string(cs: &[char]) -> (s: String)
    ensures
        s@ == cs@,
{
    let mut s = String::new();
    let mut i: usize = 0;
    while i < cs.len()
        invariant
            i <= cs@.len(),
            s@ =~= cs@.take(i as int),
        decreases cs@.len() - i,
    {
        s.push(cs[i]);
        i += 1;
    }
    assert(cs@.take(i as int) =~= cs@);
    s
}

/// The decimal digits of `n` as characters.
pub open spec fn decimal(n: nat) -> Seq<char>
    decreases n,
{
    if n < 10 {
        seq![digit(n)]
    } else {
        decimal(n / 10).push(digit(n % 10))
    }
}

/// One digit; hexadecimal digits are upper case.
pub open spec fn digit(n: nat) -> char {
    if n < 10 {
        (n + 0x30) as u8 as char
    } else {
        (n + 0x37) as u8 as char
    }
}

/// Two hexadecimal digits.
pub open spec fn hex2(b: u8) -> Seq<char> {
    seq![digit((b / 16) as nat), digit((b % 16) as nat)]
}

pub fn digit_char(n: u8) -> (c: char)
    requires
        n < 16,
    ensures
        c == digit(n as nat),
{
    if n < 10 {
        (n + 0x30) as char
    } else {
        (n + 0x37) as char
    }
}

/// Append `n` in decimal.
pub fn push_decimal(s: &mut String, n: u64)
    ensures
        final(s)@ == old(s)@ + decimal(n as nat),
    decreases n,
{
    if n >= 10 {
        push_decimal(s, n / 10);
    }
    s.push(digit_char((n % 10) as u8));
    assert(s@ =~= old(s)@ + decimal(n as nat));
}

/// Append a byte as two hexadecimal digits.
pub fn push_hex2(s: &mut String, b: u8)
    ensures
        final(s)@ == old(s)@ + hex2(b),
{
    s.push(digit_char(b / 16));
    s.push(digit_char(b % 16));
    assert(s@ =~= old(s)@ + hex2(b));
}

/// The text that `String::from_utf8_lossy` makes of bytes that are not UTF-8.
pub uninterp spec fn lossy_text(bytes: Seq<u8>) -> Seq<char>;

/// `String::from_utf8_lossy`: valid UTF-8 is decoded as it is. What stands for
/// invalid sequences is not stated, only that it is fixed by the bytes.
#[verifier::external_body]
pub(crate) fn lossy(bytes: &[u8]) -> (s: String)
    ensures
        s@ == (if vstd::utf8::valid_utf8(bytes@) {
            vstd::utf8::decode_utf8(bytes@)
        } else {
            lossy_text(bytes@)
        }),
{
    String::from_utf8_lossy(bytes).into_owned()
}

/// The text in some bytes.
pub open spec fn decoded(bytes: Seq<u8>) -> Seq<char> {
    if vstd::utf8::valid_utf8(bytes) {
        vstd::utf8::decode_utf8(bytes)
    } else {
        lossy_text(bytes)
    }
}

/// UTF-8 is read as it was written.
pub proof fn utf8_is_read_back(s: Seq<char>)
    ensures
        decoded(vstd::utf8::encode_utf8(s)) == s,
{
    vstd::utf8::encode_utf8_valid_utf8(s);
    vstd::utf8::encode_utf8_decode_utf8(s);
}

/// The position of the first newline at or after `i`, or the end.
pub open spec fn newline_from(s: Seq<char>, i: int) -> int
    decreases s.len() - i,
{
    if i >= s.len() {
        s.len() as int
    } else if s[i] == '\n' {
        i
    } else {
        newline_from(s, i + 1)
    }
}

/// The first line, without its line ending (`\n` or `\r\n`).
pub open spec fn first_line(s: Seq<char>) -> Seq<char> {
    let e = newline_from(s, 0);
    if e < s.len() && e > 0 && s[e - 1] == '\r' {
        s.take(e - 1)
    } else {
        s.take(e)
    }
}

/// What follows the first line.
pub open spec fn after_line(s: Seq<char>) -> Seq<char> {
    let e = newline_from(s, 0);
    if e < s.len() {
        s.skip(e + 1)
    } else {
        Seq::empty()
    }
}

/// Line `k`, counted from zero; empty if there is none.
pub open spec fn line(s: Seq<char>, k: nat) -> Seq<char>
    decreases k,
{
    if k == 0 {
        first_line(s)
    } else {
        line(after_line(s), (k - 1) as nat)
    }
}

/// `s` without `prefix` at its start, as often as it stands there.
pub open spec fn without_prefix(s: Seq<char>, prefix: Seq<char>) -> Seq<char>
    decreases s.len(),
{
    if 0 < prefix.len() <= s.len() && s.take(prefix.len() as int) == prefix {
        without_prefix(s.skip(prefix.len() as int), prefix)
    } else {
        s
    }
}

/// Semicolons as newlines.
pub open spec fn semicolons_split(s: Seq<char>) -> Seq<char> {
    Seq::new(
        s.len(),
        |i: int|
            if s[i] == ';' {
                '\n'
            } else {
                s[i]
            },
    )
}

pub proof fn newline_bounds(s: Seq<char>, i: int)
    requires
        0 <= i <= s.len(),
    ensures
        i <= newline_from(s, i) <= s.len(),
        newline_from(s, i) < s.len() ==> s[newline_from(s, i)] == '\n',
        forall|k: int| i <= k < newline_from(s, i) ==> #[trigger] s[k] != '\n',
    decreases s.len() - i,
{
    if i < s.len() && s[i] != '\n' {
        newline_bounds(s, i + 1);
    }
}

/// No newline.
pub open spec fn single_line(s: Seq<char>) -> bool {
    forall|i: int| 0 <= i < s.len() ==> #[trigger] s[i] != '\n'
}

/// A line and the rest of a text, put together, come apart again.
pub proof fn a_line_is_split_off(a: Seq<char>, rest: Seq<char>)
    requires
        single_line(a),
        a.len() > 0 ==> a.last() != '\r',
    ensures
        first_line(a.push('\n') + rest) == a,
        after_line(a.push('\n') + rest) == rest,
{
    let s = a.push('\n') + rest;
    newline_bounds(s, 0);
    let e = newline_from(s, 0);
    assert(s[a.len() as int] == '\n');
    assert(e <= a.len()) by {
        if e > a.len() {
            assert(s[a.len() as int] != '\n');
        }
    }
    assert(e >= a.len()) by {
        if e < a.len() {
            assert(s[e] == a[e]);
        }
    }
    assert(s.take(e) =~= a);
    assert(s.skip(e + 1) =~= rest);
}

/// A text of one line is its first line.
pub proof fn a_single_line_is_whole(a: Seq<char>)
    requires
        single_line(a),
    ensures
        first_line(a) == a,
{
    newline_bounds(a, 0);
    assert(a.take(a.len() as int) =~= a);
}

/// A line of a text is part of it.
pub proof fn lines_come_from_the_text(s: Seq<char>, k: nat)
    ensures
        single_line(line(s, k)),
        forall|i: int|
            0 <= i < line(s, k).len() ==> s.contains(#[trigger] line(s, k)[i]),
    decreases k,
{
    newline_bounds(s, 0);
    if k == 0 {
        assert forall|i: int| 0 <= i < line(s, k).len() implies s.contains(
            #[trigger] line(s, k)[i],
        ) by {
            assert(line(s, k)[i] == s[i]);
        }
    } else {
        let rest = after_line(s);
        lines_come_from_the_text(rest, (k - 1) as nat);
        assert forall|i: int| 0 <= i < line(s, k).len() implies s.contains(
            #[trigger] line(s, k)[i],
        ) by {
            let c = line(rest, (k - 1) as nat)[i];
            assert(rest.contains(c));
            let j = choose|j: int| 0 <= j < rest.len() && rest[j] == c;
            assert(s[newline_from(s, 0) + 1 + j] == c);
        }
    }
}

/// The first line and what follows it.
pub fn split_line(s: &[char]) -> (r: (&[char], &[char]))
    ensures
        r.0@ == first_line(s@),
        r.1@ == after_line(s@),
{
    let mut e: usize = 0;
    while e < s.len() && s[e] != '\n'
        invariant
            e <= s@.len(),
            newline_from(s@, 0) == newline_from(s@, e as int),
        decreases s@.len() - e,
    {
        e += 1;
    }
    assert(newline_from(s@, 0) == e);
    let end = if e < s.len() && e > 0 && s[e - 1] == '\r' {
        e - 1
    } else {
        e
    };
    let first = vstd::slice::slice_subrange(s, 0, end);
    assert(first@ =~= first_line(s@));
    let rest = if e < s.len() {
        vstd::slice::slice_subrange(s, e + 1, s.len())
    } else {
        vstd::slice::slice_subrange(s, s.len(), s.len())
    };
    assert(rest@ =~= after_line(s@));
    (first, rest)
}

/// Does `s` start with `prefix`?
pub fn starts_with(s: &[char], prefix: &[char]) -> (yes: bool)
    ensures
        yes == (prefix@.len() <= s@.len() && s@.take(prefix@.len() as int) == prefix@),
{
    if prefix.len() > s.len() {
        return false;
    }
    let mut i: usize = 0;
    while i < prefix.len()
        invariant
            i <= prefix@.len() <= s@.len(),
            forall|k: int| 0 <= k < i ==> s@[k] == #[trigger] prefix@[k],
        decreases prefix@.len() - i,
    {
        if s[i] != prefix[i] {
            assert(s@.take(prefix@.len() as int)[i as int] != prefix@[i as int]);
            return false;
        }
        i += 1;
    }
    assert(s@.take(prefix@.len() as int) =~= prefix@);
    true
}

/// `s` without `prefix` at its start, as often as it stands there.
pub fn trim_prefix<'a>(s: &'a [char], prefix: &[char]) -> (r: &'a [char])
    requires
        prefix@.len() > 0,
    ensures
        r@ == without_prefix(s@, prefix@),
{
    let mut at: usize = 0;
    assert(s@.skip(0) =~= s@);
    loop
        invariant
            prefix@.len() > 0,
            at <= s@.len(),
            without_prefix(s@, prefix@) == without_prefix(s@.skip(at as int), prefix@),
        decreases s@.len() - at,
    {
        let rest = vstd::slice::slice_subrange(s, at, s.len());
        assert(rest@ =~= s@.skip(at as int));
        if !starts_with(rest, prefix) {
            return rest;
        }
        assert(rest@.skip(prefix@.len() as int) =~= s@.skip(at + prefix@.len()));
        at += prefix.len();
    }
}

/// Semicolons as newlines.
pub fn split_semicolons(s: &[char]) -> (r: Vec<char>)
    ensures
        r@ == semicolons_split(s@),
{
    let mut r: Vec<char> = Vec::new();
    let mut i: usize = 0;
    while i < s.len()
        invariant
            i <= s@.len(),
            r@ =~= semicolons_split(s@).take(i as int),
        decreases s@.len() - i,
    {
        r.push(
            if s[i] == ';' {
                '\n'
            } else {
                s[i]
            },
        );
        i += 1;
    }
    assert(r@ =~= semicolons_split(s@));
    r
}

/// Printable ASCII throughout.
pub open spec fn plain_ascii(bytes: Seq<u8>) -> bool {
    forall|i: int| 0 <= i < bytes.len() ==> 0x20 <= #[trigger] bytes[i] < 0x7F
}

pub fn is_plain_ascii(s: &str) -> (yes: bool)
    ensures
        yes == plain_ascii(vstd::utf8::encode_utf8(s@)),
{
    let bytes = s.as_bytes();
    let mut i: usize = 0;
    while i < bytes.len()
        invariant
            i <= bytes@.len(),
            bytes@ == vstd::utf8::encode_utf8(s@),
            forall|k: int| 0 <= k < i ==> 0x20 <= #[trigger] bytes@[k] < 0x7F,
        decreases bytes@.len() - i,
    {
        if !(0x20 <= bytes[i] && bytes[i] < 0x7F) {
            return false;
        }
        i += 1;
    }
    true
}

/// Bytes as hexadecimal pairs between colons.
pub open spec fn hex_text(bytes: Seq<u8>) -> Seq<char>
    decreases bytes.len(),
{
    if bytes.len() == 0 {
        Seq::empty()
    } else if bytes.len() == 1 {
        hex2(bytes[0])
    } else {
        hex_text(bytes.drop_last()).push(':') + hex2(bytes.last())
    }
}

/// Append bytes as hexadecimal pairs between colons.
pub fn push_hex(s: &mut String, bytes: &[u8])
    ensures
        final(s)@ == old(s)@ + hex_text(bytes@),
{
    let mut i: usize = 0;
    assert(s@ =~= old(s)@ + hex_text(bytes@.take(0)));
    while i < bytes.len()
        invariant
            i <= bytes@.len(),
            s@ == old(s)@ + hex_text(bytes@.take(i as int)),
        decreases bytes@.len() - i,
    {
        if i > 0 {
            s.push(':');
        }
        push_hex2(s, bytes[i]);
        assert(bytes@.take(i + 1).drop_last() =~= bytes@.take(i as int));
        assert(s@ =~= old(s)@ + hex_text(bytes@.take(i + 1)));
        i += 1;
    }
    assert(bytes@.take(i as int) =~= bytes@);
}

// ----------------------------------------------------------------------
// what holds of texts
// ----------------------------------------------------------------------

/// What a digit counts, in decimal and in upper-case hexadecimal.
pub open spec fn worth(c: char) -> int {
    if '0' <= c <= '9' {
        c as u32 - '0' as u32
    } else if 'A' <= c <= 'F' {
        c as u32 - 'A' as u32 + 10
    } else {
        -1
    }
}

/// The number that decimal digits make.
pub open spec fn number_of(digits: Seq<char>) -> int
    decreases digits.len(),
{
    if digits.len() == 0 {
        0
    } else {
        number_of(digits.drop_last()) * 10 + worth(digits.last())
    }
}

/// Digits are counted from zero.
pub proof fn digits_have_their_worth(n: nat)
    ensures
        n < 16 ==> worth(digit(n)) == n,
{
}

/// A number in decimal is worth that number, in digits up to nine and without
/// a leading zero.
pub proof fn decimals_have_their_worth(n: nat)
    ensures
        number_of(decimal(n)) == n,
        decimal(n).len() > 0,
        forall|i: int| 0 <= i < decimal(n).len() ==> 0 <= worth(#[trigger] decimal(n)[i]) < 10,
        n > 0 ==> worth(decimal(n)[0]) > 0,
    decreases n,
{
    digits_have_their_worth(n % 10);
    if n < 10 {
        digits_have_their_worth(n);
        assert(decimal(n).drop_last() =~= Seq::empty());
        reveal_with_fuel(number_of, 2);
    } else {
        decimals_have_their_worth(n / 10);
        assert(decimal(n).drop_last() =~= decimal(n / 10));
        assert forall|i: int| 0 <= i < decimal(n).len() implies 0 <= worth(#[trigger] decimal(n)[i])
            < 10 by {
            if i < decimal(n / 10).len() {
                assert(decimal(n)[i] == decimal(n / 10)[i]);
            }
        }
        assert(decimal(n)[0] == decimal(n / 10)[0]);
    }
}

/// A byte in hexadecimal is worth that byte, in two digits.
pub proof fn hex_pairs_have_their_worth(b: u8)
    ensures
        hex2(b).len() == 2,
        0 <= worth(hex2(b)[0]) < 16,
        0 <= worth(hex2(b)[1]) < 16,
        worth(hex2(b)[0]) * 16 + worth(hex2(b)[1]) == b,
{
    digits_have_their_worth((b / 16) as nat);
    digits_have_their_worth((b % 16) as nat);
}

/// Bytes in hexadecimal: a pair for each, in order, colons between them and
/// nothing else.
pub proof fn hex_texts_hold_each_byte(bytes: Seq<u8>, i: int)
    requires
        0 <= i < bytes.len(),
    ensures
        hex_text(Seq::empty()).len() == 0,
        hex_text(bytes).len() == 3 * bytes.len() - 1,
        0 <= worth(hex_text(bytes)[3 * i]) < 16,
        0 <= worth(hex_text(bytes)[3 * i + 1]) < 16,
        worth(hex_text(bytes)[3 * i]) * 16 + worth(hex_text(bytes)[3 * i + 1]) == bytes[i],
        i > 0 ==> hex_text(bytes)[3 * i - 1] == ':',
    decreases bytes.len(),
{
    let rest = bytes.drop_last();
    let pair = hex2(bytes.last());
    hex_pairs_have_their_worth(bytes.last());
    if bytes.len() > 1 {
        if i < rest.len() {
            hex_texts_hold_each_byte(rest, i);
            assert(rest[i] == bytes[i]);
        } else {
            hex_texts_hold_each_byte(rest, 0);
        }
        let t = hex_text(rest).push(':') + pair;
        assert(hex_text(bytes) == t);
        if i == rest.len() {
            assert(t[3 * i] == pair[0] && t[3 * i + 1] == pair[1] && t[3 * i - 1] == ':');
        }
    } else {
        assert(hex_text(bytes) == pair);
    }
}

/// Lines end with a newline, alone or behind a carriage return, and what
/// follows is the rest of the text.
pub proof fn both_line_endings_count(a: Seq<char>, rest: Seq<char>)
    requires
        single_line(a),
    ensures
        first_line(a + seq!['\r', '\n'] + rest) == a,
        after_line(a + seq!['\r', '\n'] + rest) == rest,
        after_line(a) == Seq::<char>::empty(),
        first_line(a) == a,
{
    let s = a + seq!['\r', '\n'] + rest;
    let n = a.len() as int;
    newline_bounds(s, 0);
    newline_bounds(a, 0);
    let e = newline_from(s, 0);
    assert(s[n] == '\r' && s[n + 1] == '\n');
    assert(e == n + 1) by {
        if e > n + 1 {
            assert(s[n + 1] != '\n');
        }
        if e < n {
            assert(s[e] == a[e]);
        }
    }
    assert(s.take(n) =~= a);
    assert(s.skip(n + 2) =~= rest);
    a_single_line_is_whole(a);
}

/// The lines of a text are counted from its start; behind its end they are
/// empty.
pub proof fn lines_are_counted(a: Seq<char>, rest: Seq<char>, k: nat)
    requires
        single_line(a),
        a.len() > 0 ==> a.last() != '\r',
    ensures
        line(a.push('\n') + rest, 0) == a,
        line(a.push('\n') + rest, k + 1) == line(rest, k),
        line(a, k + 1) == Seq::<char>::empty(),
        line(Seq::empty(), k) == Seq::<char>::empty(),
    decreases k,
{
    a_line_is_split_off(a, rest);
    both_line_endings_count(a, rest);
    let none = Seq::<char>::empty();
    both_line_endings_count(none, none);
    assert(line(a, k + 1) == line(after_line(a), k));
    if k > 0 {
        lines_are_counted(a, rest, (k - 1) as nat);
    }
}

/// A prefix is taken off as often as it stands at the start, and nothing else
/// is.
pub proof fn prefixes_are_taken_off(s: Seq<char>, prefix: Seq<char>)
    requires
        prefix.len() > 0,
    ensures
        without_prefix(prefix + s, prefix) == without_prefix(s, prefix),
        !(prefix.len() <= s.len() && s.take(prefix.len() as int) == prefix) ==> without_prefix(
            s,
            prefix,
        ) == s,
{
    let full = prefix + s;
    assert(full.take(prefix.len() as int) =~= prefix);
    assert(full.skip(prefix.len() as int) =~= s);
}

/// Semicolons become newlines, every other character stays.
pub proof fn only_semicolons_change(s: Seq<char>, i: int)
    requires
        0 <= i < s.len(),
    ensures
        semicolons_split(s).len() == s.len(),
        s[i] == ';' ==> semicolons_split(s)[i] == '\n',
        s[i] != ';' ==> semicolons_split(s)[i] == s[i],
{
}

/// A text counts as plain exactly if each byte is a space or a printable
/// ASCII character.
pub proof fn plain_texts_are_printable(bytes: Seq<u8>)
    ensures
        plain_ascii(Seq::empty()),
        bytes.len() > 0 ==> (plain_ascii(bytes) <==> plain_ascii(bytes.drop_last()) && 32
            <= bytes.last() <= 126),
{
    if bytes.len() > 0 {
        let rest = bytes.drop_last();
        if plain_ascii(bytes) {
            assert forall|i: int| 0 <= i < rest.len() implies 0x20 <= #[trigger] rest[i] < 0x7F by {
                assert(rest[i] == bytes[i]);
            }
        }
        if plain_ascii(rest) && 32 <= bytes.last() <= 126 {
            assert forall|i: int| 0 <= i < bytes.len() implies 0x20 <= #[trigger] bytes[i]
                < 0x7F by {
                if i < rest.len() {
                    assert(bytes[i] == rest[i]);
                }
            }
        }
    }
}

/// Bytes that are UTF-8 are read as such; of other bytes the replacement text
/// is read, nothing else.
pub proof fn only_broken_text_is_replaced(bytes: Seq<u8>)
    ensures
        vstd::utf8::valid_utf8(bytes) ==> decoded(bytes) == vstd::utf8::decode_utf8(bytes),
        !vstd::utf8::valid_utf8(bytes) ==> decoded(bytes) == lossy_text(bytes),
{
}

} // verus!
