//! Fixed-capacity strings: the byte budget of a text, and the trusted
//! contracts of the `heapless::String` operations the crate relies on.

use vstd::prelude::*;

verus! {

#[verifier::external_type_specification]
#[verifier::external_body]
pub struct ExBoundedString<const N: usize>(heapless::String<N>);

/// Bytes that one character occupies in UTF-8.
pub open spec fn char_width(c: char) -> nat {
    if (c as u32) < 0x80 {
        1
    } else if (c as u32) < 0x800 {
        2
    } else if (c as u32) < 0x10000 {
        3
    } else {
        4
    }
}

/// Bytes that a text occupies in UTF-8: the sum of its characters' widths.
pub open spec fn utf8_len(s: Seq<char>) -> nat
    decreases s.len(),
{
    if s.len() == 0 {
        0
    } else {
        utf8_len(s.drop_last()) + char_width(s.last())
    }
}

/// Appending one character adds exactly its width.
pub proof fn lemma_utf8_len_push(s: Seq<char>, c: char)
    ensures
        utf8_len(s.push(c)) == utf8_len(s) + char_width(c),
{
    assert(s.push(c).drop_last() =~= s);
}

/// The byte length of a concatenation is the sum of the parts' byte lengths.
pub proof fn lemma_utf8_len_concat(a: Seq<char>, b: Seq<char>)
    ensures
        utf8_len(a + b) == utf8_len(a) + utf8_len(b),
    decreases b.len(),
{
    if b.len() > 0 {
        lemma_utf8_len_concat(a, b.drop_last());
        assert((a + b).drop_last() =~= a + b.drop_last());
    }
}

/// Every character takes at least one byte, so a text is never longer in
/// characters than in bytes.
pub proof fn lemma_utf8_len_at_least_len(s: Seq<char>)
    ensures
        utf8_len(s) >= s.len(),
    decreases s.len(),
{
    if s.len() > 0 {
        lemma_utf8_len_at_least_len(s.drop_last());
    }
}

/// The characters held by a string of at most 64 bytes.
pub uninterp spec fn short_text(s: heapless::String<64>) -> Seq<char>;

/// The characters held by a string of at most 512 bytes.
pub uninterp spec fn long_text(s: heapless::String<512>) -> Seq<char>;

/// `heapless::String::<64>::new`: a fresh string holds no characters.
#[verifier::external_body]
pub(crate) fn short_new() -> (s: heapless::String<64>)
    ensures
        short_text(s) == Seq::<char>::empty(),
{
    heapless::String::new()
}

/// `heapless::String::<64>::push`: the character is appended when its UTF-8
/// form still fits in the 64 bytes; otherwise the string is left as it was.
#[verifier::external_body]
pub(crate) fn short_push(s: &mut heapless::String<64>, c: char) -> (pushed: bool)
    ensures
        pushed == (utf8_len(short_text(*old(s))) + char_width(c) <= 64),
        pushed ==> short_text(*final(s)) == short_text(*old(s)).push(c),
        !pushed ==> short_text(*final(s)) == short_text(*old(s)),
{
    s.push(c).is_ok()
}

/// `heapless::String::<64>::push_str`: the text is appended as a whole when
/// its bytes still fit in the 64; otherwise the string is left as it was.
#[verifier::external_body]
pub(crate) fn short_push_str(s: &mut heapless::String<64>, text: &str) -> (pushed: bool)
    ensures
        pushed == (utf8_len(short_text(*old(s))) + utf8_len(text@) <= 64),
        pushed ==> short_text(*final(s)) == short_text(*old(s)) + text@,
        !pushed ==> short_text(*final(s)) == short_text(*old(s)),
{
    s.push_str(text).is_ok()
}

/// `heapless::String::<64>::as_str`: the borrowed text has the same
/// characters.
#[verifier::external_body]
pub(crate) fn short_as_str(s: &heapless::String<64>) -> (text: &str)
    ensures
        text@ == short_text(*s),
{
    s.as_str()
}

/// `PartialEq` between two `heapless::String<64>`: equal exactly when they
/// hold the same characters.
#[verifier::external_body]
pub(crate) fn short_eq(a: &heapless::String<64>, b: &heapless::String<64>) -> (same: bool)
    ensures
        same == (short_text(*a) == short_text(*b)),
{
    a == b
}

/// `heapless::String::<512>::new`: a fresh string holds no characters.
#[verifier::external_body]
pub(crate) fn long_new() -> (s: heapless::String<512>)
    ensures
        long_text(s) == Seq::<char>::empty(),
{
    heapless::String::new()
}

/// `heapless::String::<512>::push_str`: the text is appended as a whole when
/// its bytes still fit in the 512; otherwise the string is left as it was.
#[verifier::external_body]
pub(crate) fn long_push_str(s: &mut heapless::String<512>, text: &str) -> (pushed: bool)
    ensures
        pushed == (utf8_len(long_text(*old(s))) + utf8_len(text@) <= 512),
        pushed ==> long_text(*final(s)) == long_text(*old(s)) + text@,
        !pushed ==> long_text(*final(s)) == long_text(*old(s)),
{
    s.push_str(text).is_ok()
}

/// `heapless::String::<512>::as_str`: the borrowed text has the same
/// characters.
#[verifier::external_body]
pub(crate) fn long_as_str(s: &heapless::String<512>) -> (text: &str)
    ensures
        text@ == long_text(*s),
{
    s.as_str()
}

/// The characters held by a string of at most 128 bytes.
pub uninterp spec fn medium_text(s: heapless::String<128>) -> Seq<char>;

/// `heapless::String::<128>::new`: a fresh string holds no characters.
#[verifier::external_body]
pub(crate) fn medium_new() -> (s: heapless::String<128>)
    ensures
        medium_text(s) == Seq::<char>::empty(),
{
    heapless::String::new()
}

/// `heapless::String::<128>::push_str`: the text is appended as a whole when
/// its bytes still fit in the 128; otherwise the string is left as it was.
#[verifier::external_body]
pub(crate) fn medium_push_str(s: &mut heapless::String<128>, text: &str) -> (pushed: bool)
    ensures
        pushed == (utf8_len(medium_text(*old(s))) + utf8_len(text@) <= 128),
        pushed ==> medium_text(*final(s)) == medium_text(*old(s)) + text@,
        !pushed ==> medium_text(*final(s)) == medium_text(*old(s)),
{
    s.push_str(text).is_ok()
}

/// `heapless::String::<128>::as_str`: the borrowed text has the same
/// characters.
#[verifier::external_body]
pub(crate) fn medium_as_str(s: &heapless::String<128>) -> (text: &str)
    ensures
        text@ == medium_text(*s),
{
    s.as_str()
}

/// The texts of the pieces, in order.
pub open spec fn views(pieces: Seq<&str>) -> Seq<Seq<char>> {
    Seq::new(pieces.len(), |i: int| pieces[i]@)
}

/// The pieces written one behind the other.
pub open spec fn joined(pieces: Seq<Seq<char>>) -> Seq<char>
    decreases pieces.len(),
{
    if pieces.len() == 0 {
        Seq::empty()
    } else {
        joined(pieces.drop_last()) + pieces.last()
    }
}

/// What a writer with room for `capacity` bytes holds after the pieces
/// were written to it in order: every piece up to the first that does not
/// fit, and nothing after it.
pub open spec fn written(acc: Seq<char>, pieces: Seq<Seq<char>>, capacity: nat) -> Seq<char>
    decreases pieces.len(),
{
    if pieces.len() == 0 {
        acc
    } else if utf8_len(acc) + utf8_len(pieces[0]) <= capacity {
        written(acc + pieces[0], pieces.skip(1), capacity)
    } else {
        acc
    }
}

/// A text is at least as long in bytes as any of its leading pieces.
pub proof fn lemma_joined_prefix(pieces: Seq<Seq<char>>, k: int)
    requires
        0 <= k <= pieces.len(),
    ensures
        utf8_len(joined(pieces.take(k))) <= utf8_len(joined(pieces)),
    decreases pieces.len() - k,
{
    if k == pieces.len() {
        assert(pieces.take(k) =~= pieces);
    } else {
        lemma_joined_prefix(pieces, k + 1);
        assert(pieces.take(k + 1).drop_last() =~= pieces.take(k));
        lemma_utf8_len_concat(joined(pieces.take(k)), pieces[k]);
    }
}

/// Writes the pieces one behind the other into a string of at most 64
/// bytes, or nothing if they do not all fit.
pub fn short_concat(pieces: &Vec<&str>) -> (text: Option<heapless::String<64>>)
    ensures
        text is Some <==> utf8_len(joined(views(pieces@))) <= 64,
        text is Some ==> short_text(text.unwrap()) == joined(views(pieces@)),
{
    let mut text = short_new();
    let mut i: usize = 0;
    while i < pieces.len()
        invariant
            i <= pieces@.len(),
            short_text(text) == joined(views(pieces@).take(i as int)),
            utf8_len(short_text(text)) <= 64,
        decreases pieces@.len() - i,
    {
        proof {
            assert(views(pieces@).take(i + 1).drop_last() =~= views(pieces@).take(i as int));
            lemma_utf8_len_concat(short_text(text), pieces@[i as int]@);
            lemma_joined_prefix(views(pieces@), i + 1);
        }
        if !short_push_str(&mut text, pieces[i]) {
            return None;
        }
        i += 1;
    }
    proof {
        assert(views(pieces@).take(i as int) =~= views(pieces@));
    }
    Some(text)
}

/// Writes the pieces one behind the other into a string of at most 512
/// bytes, or nothing if they do not all fit.
pub fn long_concat(pieces: &Vec<&str>) -> (text: Option<heapless::String<512>>)
    ensures
        text is Some <==> utf8_len(joined(views(pieces@))) <= 512,
        text is Some ==> long_text(text.unwrap()) == joined(views(pieces@)),
{
    let mut text = long_new();
    let mut i: usize = 0;
    while i < pieces.len()
        invariant
            i <= pieces@.len(),
            long_text(text) == joined(views(pieces@).take(i as int)),
            utf8_len(long_text(text)) <= 512,
        decreases pieces@.len() - i,
    {
        proof {
            assert(views(pieces@).take(i + 1).drop_last() =~= views(pieces@).take(i as int));
            lemma_utf8_len_concat(long_text(text), pieces@[i as int]@);
            lemma_joined_prefix(views(pieces@), i + 1);
        }
        if !long_push_str(&mut text, pieces[i]) {
            return None;
        }
        i += 1;
    }
    proof {
        assert(views(pieces@).take(i as int) =~= views(pieces@));
    }
    Some(text)
}

/// Writes the pieces in order into a string of at most 128 bytes and stops
/// at the first that does not fit.
pub fn medium_write(pieces: &Vec<&str>) -> (text: heapless::String<128>)
    ensures
        medium_text(text) == written(Seq::empty(), views(pieces@), 128),
{
    let mut text = medium_new();
    let mut i: usize = 0;
    proof {
        assert(views(pieces@).skip(0) =~= views(pieces@));
    }
    while i < pieces.len()
        invariant
            i <= pieces@.len(),
            written(Seq::empty(), views(pieces@), 128) == written(
                medium_text(text),
                views(pieces@).skip(i as int),
                128,
            ),
        decreases pieces@.len() - i,
    {
        proof {
            assert(views(pieces@).skip(i as int).skip(1) =~= views(pieces@).skip(i + 1));
        }
        if !medium_push_str(&mut text, pieces[i]) {
            return text;
        }
        i += 1;
    }
    text
}

/// `str::len` behind `heapless::String::<512>`: the bytes that the text
/// occupies.
#[verifier::external_body]
pub(crate) fn long_len(s: &heapless::String<512>) -> (bytes: usize)
    ensures
        bytes == utf8_len(long_text(*s)),
{
    s.len()
}

/// The character of a decimal digit.
pub open spec fn digit(d: nat) -> char {
    ((48 + d) as u8) as char
}

/// A number written in decimal, without leading zeros.
pub open spec fn decimal(n: nat) -> Seq<char>
    decreases n,
{
    if n < 10 {
        seq![digit(n)]
    } else {
        decimal(n / 10).push(digit(n % 10))
    }
}

/// A 16-bit number written in decimal.
pub open spec fn decimal_of(n: u16) -> Seq<char> {
    decimal(n as nat)
}

/// `Display` of `u16` through `format!`: the number in decimal.
#[verifier::external_body]
pub(crate) fn decimal_text(n: u16) -> (text: String)
    ensures
        text@ == decimal_of(n),
{
    format!("{}", n)
}

} // verus!
