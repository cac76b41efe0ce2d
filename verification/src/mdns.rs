//! The multicast-DNS decoder: compressed names, service locators and host
//! addresses read out of a raw datagram, failing soft on anything malformed.

use vstd::prelude::*;
use crate::text::{
    lemma_utf8_len_concat, lemma_utf8_len_push, short_new, short_push, short_text, utf8_len,
};
use crate::wire::{
    HEADER_LEN, TYPE_A, TYPE_SRV,
    a_after_questions, a_in_answers, a_record, be16, host_name, is_pointer, latin1,
    lemma_nothing_past_end, lemma_with_label_grows, name_end, name_from, separated,
    srv_after_questions, srv_in_answers, srv_rdata, srv_record,
};

verus! {

/// What a decoded locator holds: target host name and port.
pub open spec fn srv_view(record: Option<(heapless::String<64>, u16)>) -> Option<(Seq<char>, u16)> {
    match record {
        Some((target, port)) => Some((short_text(target), port)),
        None => None,
    }
}

/// What a decoded address holds: owner name and the four address bytes.
pub open spec fn a_view(record: Option<(heapless::String<64>, [u8; 4])>) -> Option<
    (Seq<char>, Seq<u8>),
> {
    match record {
        Some((owner, address)) => Some((short_text(owner), address@)),
        None => None,
    }
}

/// What a decoded name holds.
pub open spec fn name_view(name: Option<heapless::String<64>>) -> Option<Seq<char>> {
    match name {
        Some(text) => Some(short_text(text)),
        None => None,
    }
}

/// Two bytes in network order.
fn read_u16(data: &[u8], at: usize) -> (value: u16)
    requires
        at + 1 < data@.len(),
    ensures
        value == be16(data@[at as int], data@[at + 1]),
{
    let hi: u16 = data[at] as u16;
    let lo: u16 = data[at + 1] as u16;
    hi * 256 + lo
}

/// Stateless decoder of multicast-DNS responses.
pub struct MdnsFacade;

impl MdnsFacade {
    pub fn new() -> (facade: Self) {
        Self
    }

    /// Steps over the name at `offset` without following pointers and
    /// returns the offset behind it.
    pub fn skip_dns_name(&self, data: &[u8], offset: usize) -> (end: Option<usize>)
        ensures
            match end {
                Some(e) => name_end(data@, offset as int) == Some(e as int),
                None => match name_end(data@, offset as int) {
                    Some(e) => e > usize::MAX,
                    None => true,
                },
            },
    {
        let mut pos = offset;
        loop
            invariant
                name_end(data@, pos as int) == name_end(data@, offset as int),
            decreases
                    (if pos < data@.len() {
                        data@.len() - pos
                    } else {
                        0
                    }),
        {
            if pos >= data.len() {
                return None;
            }
            let len = data[pos];
            if len == 0 {
                return Some(pos + 1);
            } else if len & 0xC0 == 0xC0 {
                return pos.checked_add(2);
            } else {
                if len as usize >= data.len() - pos - 1 {
                    proof {
                        reveal_with_fuel(name_end, 2);
                    }
                    return None;
                }
                pos += 1 + len as usize;
            }
        }
    }

    /// Decodes the dotted host name at `offset`, following compression
    /// pointers backwards.
    pub fn parse_dns_name(&self, data: &[u8], offset: usize) -> (name: Option<heapless::String<64>>)
        ensures
            name_view(name) == host_name(data@, offset as int),
    {
        let mut pos = offset;
        let mut result = short_new();
        let mut first_label = true;
        loop
            invariant
                host_name(data@, offset as int) == name_from(data@, pos as int, short_text(result)),
                utf8_len(short_text(result)) <= 64,
                first_label == (short_text(result).len() == 0),
            decreases 64 - utf8_len(short_text(result)), pos,
        {
            if pos >= data.len() {
                return None;
            }
            let len = data[pos];
            if len == 0 {
                if first_label {
                    return None;
                }
                return Some(result);
            } else if len & 0xC0 == 0xC0 {
                if pos + 1 >= data.len() {
                    return None;
                }
                let pointer: usize = (len & 0x3F) as usize * 256 + data[pos + 1] as usize;
                if pointer >= pos {
                    return None;
                }
                pos = pointer;
            } else {
                let ghost acc = short_text(result);
                let ghost at = pos as int;
                if len as usize > data.len() - pos - 1 {
                    return None;
                }
                proof {
                    lemma_with_label_grows(data@, at, acc);
                    if acc.len() != 0 {
                        lemma_utf8_len_push(acc, '.');
                    }
                }
                if !first_label {
                    if !short_push(&mut result, '.') {
                        return None;
                    }
                }
                first_label = false;
                pos += 1;
                let ghost label = data@.subrange(at + 1, at + 1 + len);
                let mut i: usize = 0;
                while i < len as usize
                    invariant
                        i <= len,
                        len > 0,
                        pos == at + 1,
                        pos + len <= data@.len() <= usize::MAX,
                        label == data@.subrange(at + 1, at + 1 + len),
                        host_name(data@, offset as int) == name_from(data@, at, acc),
                        0 <= at < data@.len(),
                        data@[at] == len,
                        !is_pointer(len),
                        utf8_len(acc) <= 64,
                        short_text(result) == separated(acc) + latin1(label.take(i as int)),
                        utf8_len(short_text(result)) <= 64,
                    decreases len - i,
                {
                    let ch = data[pos + i] as char;
                    proof {
                        lemma_utf8_len_concat(
                            separated(acc) + latin1(label.take(i + 1)),
                            latin1(label.skip(i + 1)),
                        );
                        lemma_utf8_len_push(short_text(result), ch);
                        assert(separated(acc) + latin1(label.take(i + 1)) =~= (separated(acc)
                            + latin1(label.take(i as int))).push(ch));
                        assert(separated(acc) + latin1(label) =~= (separated(acc) + latin1(
                            label.take(i + 1),
                        )) + latin1(label.skip(i + 1)));
                    }
                    if !short_push(&mut result, ch) {
                        return None;
                    }
                    i += 1;
                }
                proof {
                    assert(label.take(len as int) =~= label);
                }
                pos += len as usize;
            }
        }
    }

    /// Reads locator data of `rdlength` bytes at `offset`: the port and the
    /// target host name.
    pub fn parse_srv_rdata(&self, data: &[u8], offset: usize, rdlength: usize) -> (record: Option<
        (heapless::String<64>, u16),
    >)
        ensures
            srv_view(record) == srv_rdata(data@, offset as int, rdlength as int),
    {
        if rdlength < 6 || offset > data.len() || rdlength > data.len() - offset {
            return None;
        }
        let port = read_u16(data, offset + 4);
        match self.parse_dns_name(data, offset + 6) {
            Some(hostname) => Some((hostname, port)),
            None => None,
        }
    }

    /// Finds the first service locator among the answers of a message.
    pub fn parse_srv_record(&self, data: &[u8]) -> (record: Option<(heapless::String<64>, u16)>)
        ensures
            srv_view(record) == srv_record(data@),
    {
        if data.len() < HEADER_LEN {
            return None;
        }
        let question_count = read_u16(data, 4);
        let answer_count = read_u16(data, 6);
        let mut offset: usize = HEADER_LEN;
        let mut question: u16 = 0;
        while question < question_count
            invariant
                question <= question_count,
                data@.len() <= usize::MAX,
                srv_record(data@) == srv_after_questions(
                    data@,
                    offset as int,
                    (question_count - question) as nat,
                    answer_count as nat,
                ),
            decreases question_count - question,
        {
            let end = match self.skip_dns_name(data, offset) {
                Some(end) => end,
                None => {
                    proof {
                        if name_end(data@, offset as int) is Some {
                            lemma_nothing_past_end(
                                data@,
                                name_end(data@, offset as int).unwrap() + 4,
                                (question_count - question - 1) as nat,
                                answer_count as nat,
                            );
                        }
                    }
                    return None;
                },
            };
            if end > data.len() || data.len() - end < 4 {
                proof {
                    lemma_nothing_past_end(
                        data@,
                        end + 4,
                        (question_count - question - 1) as nat,
                        answer_count as nat,
                    );
                }
                return None;
            }
            offset = end + 4;
            question += 1;
        }
        let mut answer: u16 = 0;
        while answer < answer_count
            invariant
                answer <= answer_count,
                data@.len() <= usize::MAX,
                srv_record(data@) == srv_in_answers(
                    data@,
                    offset as int,
                    (answer_count - answer) as nat,
                ),
            decreases answer_count - answer,
        {
            let fixed = match self.skip_dns_name(data, offset) {
                Some(fixed) => fixed,
                None => {
                    return None;
                },
            };
            if fixed > data.len() || data.len() - fixed < 10 {
                return None;
            }
            let record_type = read_u16(data, fixed);
            let rdlength = read_u16(data, fixed + 8) as usize;
            let rdata = fixed + 10;
            if record_type == TYPE_SRV {
                return self.parse_srv_rdata(data, rdata, rdlength);
            }
            if rdlength > data.len() - rdata {
                proof {
                    lemma_nothing_past_end(
                        data@,
                        rdata + rdlength,
                        0,
                        (answer_count - answer - 1) as nat,
                    );
                }
                return None;
            }
            offset = rdata + rdlength;
            answer += 1;
        }
        None
    }

    /// Finds the first host address among the answers of a message, with
    /// the name of the host it belongs to.
    pub fn parse_a_record(&self, data: &[u8]) -> (record: Option<(heapless::String<64>, [u8; 4])>)
        ensures
            a_view(record) == a_record(data@),
    {
        if data.len() < HEADER_LEN {
            return None;
        }
        let question_count = read_u16(data, 4);
        let answer_count = read_u16(data, 6);
        let mut offset: usize = HEADER_LEN;
        let mut question: u16 = 0;
        while question < question_count
            invariant
                question <= question_count,
                data@.len() <= usize::MAX,
                a_record(data@) == a_after_questions(
                    data@,
                    offset as int,
                    (question_count - question) as nat,
                    answer_count as nat,
                ),
            decreases question_count - question,
        {
            let end = match self.skip_dns_name(data, offset) {
                Some(end) => end,
                None => {
                    proof {
                        if name_end(data@, offset as int) is Some {
                            lemma_nothing_past_end(
                                data@,
                                name_end(data@, offset as int).unwrap() + 4,
                                (question_count - question - 1) as nat,
                                answer_count as nat,
                            );
                        }
                    }
                    return None;
                },
            };
            if end > data.len() || data.len() - end < 4 {
                proof {
                    lemma_nothing_past_end(
                        data@,
                        end + 4,
                        (question_count - question - 1) as nat,
                        answer_count as nat,
                    );
                }
                return None;
            }
            offset = end + 4;
            question += 1;
        }
        let mut answer: u16 = 0;
        while answer < answer_count
            invariant
                answer <= answer_count,
                data@.len() <= usize::MAX,
                a_record(data@) == a_in_answers(
                    data@,
                    offset as int,
                    (answer_count - answer) as nat,
                ),
            decreases answer_count - answer,
        {
            let fixed = match self.skip_dns_name(data, offset) {
                Some(fixed) => fixed,
                None => {
                    return None;
                },
            };
            if fixed > data.len() || data.len() - fixed < 10 {
                return None;
            }
            let record_type = read_u16(data, fixed);
            let rdlength = read_u16(data, fixed + 8) as usize;
            let rdata = fixed + 10;
            if record_type == TYPE_A && rdlength == 4 && data.len() - rdata >= 4 {
                let address: [u8; 4] = [
                    data[rdata],
                    data[rdata + 1],
                    data[rdata + 2],
                    data[rdata + 3],
                ];
                return match self.parse_dns_name(data, offset) {
                    Some(hostname) => Some((hostname, address)),
                    None => None,
                };
            }
            if rdlength > data.len() - rdata {
                proof {
                    lemma_nothing_past_end(
                        data@,
                        rdata + rdlength,
                        0,
                        (answer_count - answer - 1) as nat,
                    );
                }
                return None;
            }
            offset = rdata + rdlength;
            answer += 1;
        }
        None
    }
}

/// The decoder keeps nothing between calls: whatever two decodings of one
/// message return, they hold the same locator.
pub proof fn lemma_locator_decoding_repeats(
    data: Seq<u8>,
    first: Option<(heapless::String<64>, u16)>,
    second: Option<(heapless::String<64>, u16)>,
)
    requires
        srv_view(first) == srv_record(data),
        srv_view(second) == srv_record(data),
    ensures
        srv_view(first) == srv_view(second),
{
}

/// The decoder keeps nothing between calls: whatever two decodings of one
/// message return, they hold the same address.
pub proof fn lemma_address_decoding_repeats(
    data: Seq<u8>,
    first: Option<(heapless::String<64>, [u8; 4])>,
    second: Option<(heapless::String<64>, [u8; 4])>,
)
    requires
        a_view(first) == a_record(data),
        a_view(second) == a_record(data),
    ensures
        a_view(first) == a_view(second),
{
}

} // verus!
