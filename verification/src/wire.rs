//! The DNS message format as mathematics: what a byte sequence means as
//! names and resource records. The decoder in `mdns` is proved against
//! these definitions.

use vstd::prelude::*;
use crate::text::{
    lemma_utf8_len_at_least_len, lemma_utf8_len_concat, lemma_utf8_len_push, utf8_len,
};

verus! {

/// Length of the fixed message header.
pub const HEADER_LEN: usize = 12;

/// Most bytes a decoded host name may occupy.
pub const NAME_CAPACITY: usize = 64;

/// Record type of a service locator (target host and port).
pub const TYPE_SRV: u16 = 33;

/// Record type of an IPv4 host address.
pub const TYPE_A: u16 = 1;

/// The 16-bit number that two bytes spell in network order.
pub open spec fn be16(hi: u8, lo: u8) -> int {
    hi as int * 256 + lo as int
}

/// A length byte whose two top bits are set is a compression pointer.
pub open spec fn is_pointer(b: u8) -> bool {
    b & 0xC0 == 0xC0
}

/// The 14-bit offset that a compression pointer's two bytes spell.
pub open spec fn pointer_target(hi: u8, lo: u8) -> int {
    (hi & 0x3F) as int * 256 + lo as int
}

/// Label bytes read as characters, one character per byte.
pub open spec fn latin1(bytes: Seq<u8>) -> Seq<char> {
    Seq::new(bytes.len(), |i: int| bytes[i] as char)
}

/// The dotted name spelled from `pos` on, continuing the text `acc` that
/// earlier labels produced. Labels are joined by `.`; a pointer is followed
/// only strictly backwards; the text may never outgrow `NAME_CAPACITY`
/// bytes; a name with no label at all is no name.
pub open spec fn name_from(data: Seq<u8>, pos: int, acc: Seq<char>) -> Option<Seq<char>>
    decreases NAME_CAPACITY - utf8_len(acc), pos,
    via name_from_terminates
{
    if pos < 0 || pos >= data.len() || utf8_len(acc) > NAME_CAPACITY {
        None
    } else if data[pos] == 0 {
        if acc.len() == 0 {
            None
        } else {
            Some(acc)
        }
    } else if is_pointer(data[pos]) {
        if pos + 1 >= data.len() || pointer_target(data[pos], data[pos + 1]) >= pos {
            None
        } else {
            name_from(data, pointer_target(data[pos], data[pos + 1]), acc)
        }
    } else if pos + 1 + data[pos] > data.len() || utf8_len(with_label(data, pos, acc))
        > NAME_CAPACITY {
        None
    } else {
        name_from(data, pos + 1 + data[pos], with_label(data, pos, acc))
    }
}

/// `acc` extended by the label whose length byte stands at `pos`, with a
/// separating dot unless it is the first label.
pub open spec fn with_label(data: Seq<u8>, pos: int, acc: Seq<char>) -> Seq<char> {
    separated(acc) + latin1(data.subrange(pos + 1, pos + 1 + data[pos]))
}

/// `acc` made ready for a further label.
pub open spec fn separated(acc: Seq<char>) -> Seq<char> {
    if acc.len() == 0 {
        acc
    } else {
        acc.push('.')
    }
}

#[via_fn]
proof fn name_from_terminates(data: Seq<u8>, pos: int, acc: Seq<char>) {
    if 0 <= pos < data.len() && data[pos] != 0 && !is_pointer(data[pos]) && pos + 1 + data[pos]
        <= data.len() {
        lemma_with_label_grows(data, pos, acc);
    }
}

/// A label lengthens the text by at least its own byte count.
pub proof fn lemma_with_label_grows(data: Seq<u8>, pos: int, acc: Seq<char>)
    requires
        0 <= pos < data.len(),
        pos + 1 + data[pos] <= data.len(),
    ensures
        utf8_len(with_label(data, pos, acc)) >= utf8_len(acc) + data[pos],
{
    let label = latin1(data.subrange(pos + 1, pos + 1 + data[pos]));
    lemma_utf8_len_concat(separated(acc), label);
    lemma_utf8_len_at_least_len(label);
    if acc.len() != 0 {
        lemma_utf8_len_push(acc, '.');
    }
}

/// The host name that starts at `pos`.
pub open spec fn host_name(data: Seq<u8>, pos: int) -> Option<Seq<char>> {
    name_from(data, pos, Seq::empty())
}

/// Where the name that starts at `pos` ends, without following pointers:
/// behind its terminating zero, or behind the two bytes of a pointer.
pub open spec fn name_end(data: Seq<u8>, pos: int) -> Option<int>
    decreases
            (if pos < data.len() {
                data.len() - pos
            } else {
                0
            }),
{
    if pos < 0 || pos >= data.len() {
        None
    } else if data[pos] == 0 {
        Some(pos + 1)
    } else if is_pointer(data[pos]) {
        Some(pos + 2)
    } else {
        name_end(data, pos + 1 + data[pos])
    }
}

/// Where the question section ends: each question is a name and four bytes.
pub open spec fn questions_end(data: Seq<u8>, pos: int, count: nat) -> Option<int>
    decreases count,
{
    if count == 0 {
        Some(pos)
    } else {
        match name_end(data, pos) {
            None => None,
            Some(end) => questions_end(data, end + 4, (count - 1) as nat),
        }
    }
}

/// Where the record ends whose fixed fields start at `fixed`: behind type,
/// class, time to live, the length field and as many bytes as that states.
pub open spec fn record_end(data: Seq<u8>, fixed: int) -> int {
    fixed + 10 + be16(data[fixed + 8], data[fixed + 9])
}

/// Locator data at `offset`: priority, weight, port, then the target name.
pub open spec fn srv_rdata(data: Seq<u8>, offset: int, rdlength: int) -> Option<(Seq<char>, u16)> {
    if rdlength < 6 || offset + rdlength > data.len() {
        None
    } else {
        match host_name(data, offset + 6) {
            Some(target) => Some((target, be16(data[offset + 4], data[offset + 5]) as u16)),
            None => None,
        }
    }
}

/// The first locator among `count` records from `pos` on. Whatever the
/// first record of that type holds decides; other types are stepped over by
/// their stated length.
pub open spec fn srv_in_answers(data: Seq<u8>, pos: int, count: nat) -> Option<(Seq<char>, u16)>
    decreases count,
{
    if count == 0 {
        None
    } else {
        match name_end(data, pos) {
            None => None,
            Some(fixed) => if fixed + 10 > data.len() {
                None
            } else if be16(data[fixed], data[fixed + 1]) == TYPE_SRV {
                srv_rdata(data, fixed + 10, be16(data[fixed + 8], data[fixed + 9]))
            } else {
                srv_in_answers(data, record_end(data, fixed), (count - 1) as nat)
            },
        }
    }
}

/// The first well-formed address among `count` records from `pos` on, with
/// its owner's name. Every other record is stepped over by its name and its
/// stated length, whatever its owner name spells: a record of another type,
/// and an address record whose data is not four bytes inside the message.
/// The first well-formed address decides: if its owner name does not
/// decode, there is no value.
pub open spec fn a_in_answers(data: Seq<u8>, pos: int, count: nat) -> Option<(Seq<char>, Seq<u8>)>
    decreases count,
{
    if count == 0 {
        None
    } else {
        match name_end(data, pos) {
            None => None,
            Some(fixed) => if fixed + 10 > data.len() {
                None
            } else if be16(data[fixed], data[fixed + 1]) == TYPE_A && be16(
                data[fixed + 8],
                data[fixed + 9],
            ) == 4 && fixed + 14 <= data.len() {
                match host_name(data, pos) {
                    Some(owner) => Some((owner, data.subrange(fixed + 10, fixed + 14))),
                    None => None,
                }
            } else {
                a_in_answers(data, record_end(data, fixed), (count - 1) as nat)
            },
        }
    }
}

/// The locator that remains to be found with `questions` questions still to
/// be stepped over at `pos`.
pub open spec fn srv_after_questions(
    data: Seq<u8>,
    pos: int,
    questions: nat,
    answers: nat,
) -> Option<(Seq<char>, u16)> {
    match questions_end(data, pos, questions) {
        None => None,
        Some(start) => srv_in_answers(data, start, answers),
    }
}

/// The address that remains to be found with `questions` questions still to
/// be stepped over at `pos`.
pub open spec fn a_after_questions(
    data: Seq<u8>,
    pos: int,
    questions: nat,
    answers: nat,
) -> Option<(Seq<char>, Seq<u8>)> {
    match questions_end(data, pos, questions) {
        None => None,
        Some(start) => a_in_answers(data, start, answers),
    }
}

/// The service locator of a whole message: target host name and port.
pub open spec fn srv_record(data: Seq<u8>) -> Option<(Seq<char>, u16)> {
    if data.len() < HEADER_LEN {
        None
    } else {
        srv_after_questions(
            data,
            HEADER_LEN as int,
            be16(data[4], data[5]) as nat,
            be16(data[6], data[7]) as nat,
        )
    }
}

/// The host address of a whole message: owner name and four address bytes.
pub open spec fn a_record(data: Seq<u8>) -> Option<(Seq<char>, Seq<u8>)> {
    if data.len() < HEADER_LEN {
        None
    } else {
        a_after_questions(
            data,
            HEADER_LEN as int,
            be16(data[4], data[5]) as nat,
            be16(data[6], data[7]) as nat,
        )
    }
}

/// Nothing is found from a position at or past the end of the message.
pub proof fn lemma_nothing_past_end(data: Seq<u8>, pos: int, questions: nat, answers: nat)
    requires
        pos >= data.len(),
    ensures
        srv_after_questions(data, pos, questions, answers) is None,
        a_after_questions(data, pos, questions, answers) is None,
        srv_in_answers(data, pos, answers) is None,
        a_in_answers(data, pos, answers) is None,
{
}

/// Both scans step over a record of another type by its name and its stated
/// length, whatever its owner name spells: what is found is what is found
/// behind it among the remaining records.
pub proof fn lemma_other_records_are_stepped_over(data: Seq<u8>, pos: int, count: nat)
    requires
        count > 0,
        name_end(data, pos) is Some,
        name_end(data, pos).unwrap() + 10 <= data.len(),
        be16(data[name_end(data, pos).unwrap()], data[name_end(data, pos).unwrap() + 1])
            != TYPE_SRV,
        be16(data[name_end(data, pos).unwrap()], data[name_end(data, pos).unwrap() + 1])
            != TYPE_A,
    ensures
        srv_in_answers(data, pos, count) == srv_in_answers(
            data,
            record_end(data, name_end(data, pos).unwrap()),
            (count - 1) as nat,
        ),
        a_in_answers(data, pos, count) == a_in_answers(
            data,
            record_end(data, name_end(data, pos).unwrap()),
            (count - 1) as nat,
        ),
{
}

/// A length byte that claims more bytes than remain yields no value,
/// wherever it stands and whatever was read before it: the name has no
/// text and no end.
pub proof fn lemma_overlong_label_is_no_name(data: Seq<u8>, pos: int, acc: Seq<char>)
    requires
        0 <= pos < data.len(),
        data[pos] != 0,
        !is_pointer(data[pos]),
        pos + 1 + data[pos] > data.len(),
    ensures
        name_from(data, pos, acc) is None,
        name_end(data, pos) is None,
{
    reveal_with_fuel(name_end, 2);
}

/// A message cut off anywhere inside a name yields no text for that name:
/// if the name at `pos` ends at `end` in the whole message, it decodes to
/// nothing in every prefix of the message that is shorter than `end`. Nor
/// can the name be stepped over there, unless all that is missing is the
/// last byte, which stepping over does not look at when it is the second
/// byte of a pointer.
pub proof fn lemma_cut_name_has_no_text(data: Seq<u8>, pos: int, cut: int, acc: Seq<char>)
    requires
        name_end(data, pos) is Some,
        0 <= cut <= data.len(),
        cut < name_end(data, pos).unwrap(),
    ensures
        name_from(data.take(cut), pos, acc) is None,
        cut + 1 < name_end(data, pos).unwrap() ==> name_end(data.take(cut), pos) is None,
    decreases cut - pos,
{
    let cut_off = data.take(cut);
    if pos < cut {
        assert(cut_off[pos] == data[pos]);
        if data[pos] != 0 && !is_pointer(data[pos]) {
            if pos + 1 + data[pos] <= cut {
                lemma_cut_name_has_no_text(
                    data,
                    pos + 1 + data[pos],
                    cut,
                    with_label(cut_off, pos, acc),
                );
            } else {
                lemma_overlong_label_is_no_name(cut_off, pos, acc);
            }
        }
    }
}

/// A name of one label reads as that label's bytes, if they fit.
pub proof fn lemma_name_of_one_label(data: Seq<u8>, pos: int)
    requires
        0 <= pos,
        pos + 1 + data[pos] < data.len(),
        data[pos] != 0,
        !is_pointer(data[pos]),
        data[pos + 1 + data[pos]] == 0,
        utf8_len(latin1(data.subrange(pos + 1, pos + 1 + data[pos]))) <= NAME_CAPACITY,
    ensures
        host_name(data, pos) == Some(latin1(data.subrange(pos + 1, pos + 1 + data[pos]))),
{
    reveal_with_fuel(name_from, 2);
}

/// A pointer stands for the name it points back to: whatever follows the
/// pointer's two bytes plays no part.
pub proof fn lemma_pointer_stands_for_its_target(data: Seq<u8>, pos: int, acc: Seq<char>)
    requires
        0 <= pos,
        pos + 1 < data.len(),
        is_pointer(data[pos]),
        pointer_target(data[pos], data[pos + 1]) < pos,
        utf8_len(acc) <= NAME_CAPACITY,
    ensures
        name_from(data, pos, acc) == name_from(
            data,
            pointer_target(data[pos], data[pos + 1]),
            acc,
        ),
{
    assert(is_pointer(data[pos]) ==> data[pos] != 0) by {
        let b = data[pos];
        assert(b & 0xC0 == 0xC0 ==> b != 0) by (bit_vector);
    }
}

/// Two dotted texts joined into one; an empty text adds nothing.
pub open spec fn dotted(head: Seq<char>, tail: Seq<char>) -> Seq<char> {
    if head.len() == 0 {
        tail
    } else if tail.len() == 0 {
        head
    } else {
        head.push('.') + tail
    }
}

/// Decoding goes on where it stands: whatever text a name yields after
/// `acc`, it yields the same text behind `head` after `head` and `acc`,
/// provided that the whole still fits.
pub proof fn lemma_name_continues(data: Seq<u8>, pos: int, head: Seq<char>, acc: Seq<char>)
    requires
        name_from(data, pos, acc) is Some,
        utf8_len(dotted(head, name_from(data, pos, acc).unwrap())) <= NAME_CAPACITY,
    ensures
        name_from(data, pos, dotted(head, acc)) == Some(
            dotted(head, name_from(data, pos, acc).unwrap()),
        ),
    decreases NAME_CAPACITY - utf8_len(acc), pos,
{
    if data[pos] == 0 {
        // the name ends here: both readings return what they hold
    } else if is_pointer(data[pos]) {
        lemma_name_continues(data, pointer_target(data[pos], data[pos + 1]), head, acc);
    } else {
        let grown = with_label(data, pos, acc);
        lemma_with_label_grows(data, pos, acc);
        lemma_with_label_grows(data, pos, dotted(head, acc));
        lemma_name_continues(data, pos + 1 + data[pos], head, grown);
        assert(dotted(head, grown) =~= with_label(data, pos, dotted(head, acc)));
    }
}

/// A name is its first label and, behind a dot, the name that follows the
/// label.
pub proof fn lemma_name_is_label_then_rest(data: Seq<u8>, pos: int)
    requires
        0 <= pos,
        pos + 1 + data[pos] <= data.len(),
        data[pos] != 0,
        !is_pointer(data[pos]),
        host_name(data, pos + 1 + data[pos]) is Some,
        utf8_len(
            dotted(
                latin1(data.subrange(pos + 1, pos + 1 + data[pos])),
                host_name(data, pos + 1 + data[pos]).unwrap(),
            ),
        ) <= NAME_CAPACITY,
    ensures
        host_name(data, pos) == Some(
            dotted(
                latin1(data.subrange(pos + 1, pos + 1 + data[pos])),
                host_name(data, pos + 1 + data[pos]).unwrap(),
            ),
        ),
{
    let label = latin1(data.subrange(pos + 1, pos + 1 + data[pos]));
    lemma_name_continues(data, pos + 1 + data[pos], label, Seq::empty());
}

} // verus!
