//! The telemetry datagram: its layout, its decoder, its encoder, and what
//! holds of them.
//!
//! | Offset       | Size     | Meaning                                  |
//! |--------------|----------|------------------------------------------|
//! | 0            | 5 bytes  | prologue; not read                       |
//! | 5 + 36 * n   | 4 bytes  | index of fragment n, little-endian `i32` |
//! | 9 + 36 * n   | 32 bytes | its eight fields, little-endian binary32 |
//!
//! A field is taken over bit for bit, as the 32-bit word of its encoding.
//! Bytes after the last whole fragment are not read.

use crate::binary32::NO_DATA;
use std::collections::HashMap;
use vstd::prelude::*;

verus! {

/// Bytes that one read of the socket takes at most.
pub const DATA_MESSAGE_BUFFER_SIZE_VALUE: usize = 1024;

/// The shortest datagram that is decoded: the prologue and one index.
pub const DATA_MESSAGE_MIN_BYTES_SIZE_VALUE: usize = 9;

/// Bytes of the prologue.
pub const DATA_MESSAGE_PROLOGUE_SIZE_VALUE: usize = 5;

/// Bytes of one fragment.
pub const DATA_MESSAGE_FRAGMENT_SIZE_VALUE: usize = 36;

/// The word that stands for "no data" in a field.
pub const DATA_MESSAGE_NO_DATA: u32 = NO_DATA;

/// Why a datagram was not decoded.
#[derive(Debug, Clone, Copy, PartialEq, Eq)]
pub enum DecodeError {
    /// The datagram has fewer than nine bytes.
    TooShort,
    /// Bytes follow the last whole fragment. Only the strict decoder reports
    /// this.
    MalformedFragment,
}

/// One group of the simulator's data output: its index and its eight fields,
/// each field as the word of a single-precision number.
#[derive(Debug, Clone, Copy, PartialEq, Eq)]
pub struct XPLN11UDPDataFragment {
    pub index: i32,
    pub data1: u32,
    pub data2: u32,
    pub data3: u32,
    pub data4: u32,
    pub data5: u32,
    pub data6: u32,
    pub data7: u32,
    pub data8: u32,
}

impl XPLN11UDPDataFragment {
    /// The field at `place`, counted from 0, and "no data" where the fragment
    /// has no such place.
    pub open spec fn field(self, place: int) -> u32 {
        if place == 0 {
            self.data1
        } else if place == 1 {
            self.data2
        } else if place == 2 {
            self.data3
        } else if place == 3 {
            self.data4
        } else if place == 4 {
            self.data5
        } else if place == 5 {
            self.data6
        } else if place == 6 {
            self.data7
        } else if place == 7 {
            self.data8
        } else {
            NO_DATA
        }
    }

    pub fn get_data_field(&self, index: isize) -> (word: u32)
        ensures
            word == self.field(index as int),
    {
        match index {
            0 => self.data1,
            1 => self.data2,
            2 => self.data3,
            3 => self.data4,
            4 => self.data5,
            5 => self.data6,
            6 => self.data7,
            7 => self.data8,
            _ => DATA_MESSAGE_NO_DATA,
        }
    }
}

/// A decoded datagram: its tag, and its fragments by their index.
#[derive(Debug, Clone)]
pub struct XPLN11UDPDataMessage {
    pub prologue: String,
    pub data: HashMap<i32, XPLN11UDPDataFragment>,
}

/// The 32-bit word that four bytes spell in little-endian order.
pub open spec fn le_word(b0: u8, b1: u8, b2: u8, b3: u8) -> u32 {
    (b0 as int + 0x100 * (b1 as int) + 0x1_0000 * (b2 as int) + 0x100_0000 * (b3 as int)) as u32
}

/// The signed integer that a 32-bit word denotes in two's complement.
pub open spec fn signed(word: u32) -> i32 {
    if word < 0x8000_0000 {
        word as i32
    } else {
        (word - 0x1_0000_0000) as i32
    }
}

/// The little-endian 32-bit word that `bytes` holds from `start` on.
pub open spec fn word_at(bytes: Seq<u8>, start: int) -> u32 {
    le_word(bytes[start], bytes[start + 1], bytes[start + 2], bytes[start + 3])
}

/// The little-endian signed 32-bit integer that `bytes` holds from `start` on.
pub open spec fn int_at(bytes: Seq<u8>, start: int) -> i32 {
    signed(word_at(bytes, start))
}

/// The fragment that `bytes` holds from `start` on.
pub open spec fn fragment_at(bytes: Seq<u8>, start: int) -> XPLN11UDPDataFragment {
    XPLN11UDPDataFragment {
        index: int_at(bytes, start),
        data1: word_at(bytes, start + 4),
        data2: word_at(bytes, start + 8),
        data3: word_at(bytes, start + 12),
        data4: word_at(bytes, start + 16),
        data5: word_at(bytes, start + 20),
        data6: word_at(bytes, start + 24),
        data7: word_at(bytes, start + 28),
        data8: word_at(bytes, start + 32),
    }
}

/// How many whole fragments a datagram of `length` bytes holds.
pub open spec fn fragment_count(length: nat) -> nat {
    if length < 5 {
        0
    } else {
        ((length - 5) / 36) as nat
    }
}

/// Where fragment `k` of a datagram begins.
pub open spec fn fragment_start(k: int) -> int {
    5 + 36 * k
}

/// The whole fragments of a datagram, in the order in which it holds them.
pub open spec fn frame_fragments(frame: Seq<u8>) -> Seq<XPLN11UDPDataFragment> {
    Seq::new(fragment_count(frame.len()), |k: int| fragment_at(frame, fragment_start(k)))
}

/// Fragments by their index. Where several carry one index, the last of them
/// stays.
pub open spec fn by_index(fragments: Seq<XPLN11UDPDataFragment>) -> Map<
    i32,
    XPLN11UDPDataFragment,
>
    decreases fragments.len(),
{
    if fragments.len() == 0 {
        Map::empty()
    } else {
        by_index(fragments.drop_last()).insert(fragments.last().index, fragments.last())
    }
}

/// What a datagram decodes to.
pub open spec fn decoded(frame: Seq<u8>) -> Map<i32, XPLN11UDPDataFragment> {
    by_index(frame_fragments(frame))
}

/// Decodes the 32-bit word stored in little-endian order at `start`: the
/// encoding of a single-precision field, taken over bit for bit.
pub fn decode_float_data(buf: &[u8], start: usize) -> (word: u32)
    requires
        start + 4 <= buf@.len(),
    ensures
        word == word_at(buf@, start as int),
{
    let b0: u32 = buf[start] as u32;
    let b1: u32 = buf[start + 1] as u32;
    let b2: u32 = buf[start + 2] as u32;
    let b3: u32 = buf[start + 3] as u32;
    b0 + 0x100 * b1 + 0x1_0000 * b2 + 0x100_0000 * b3
}

/// Decodes the signed 32-bit integer stored in little-endian order at `start`.
pub fn decode_int_data(buf: &[u8], start: usize) -> (value: i32)
    requires
        start + 4 <= buf@.len(),
    ensures
        value == int_at(buf@, start as int),
{
    let word: u32 = decode_float_data(buf, start);
    if word < 0x8000_0000 {
        word as i32
    } else {
        let low: i32 = (word - 0x8000_0000) as i32;
        low + i32::MIN
    }
}

/// Decodes the fragment stored at `start`.
pub fn decode_fragment(buf: &[u8], start: usize) -> (fragment: XPLN11UDPDataFragment)
    requires
        start + 36 <= buf@.len(),
    ensures
        fragment == fragment_at(buf@, start as int),
{
    assert(start + 36 <= buf.len());
    XPLN11UDPDataFragment {
        index: decode_int_data(buf, start),
        data1: decode_float_data(buf, start + 4),
        data2: decode_float_data(buf, start + 8),
        data3: decode_float_data(buf, start + 12),
        data4: decode_float_data(buf, start + 16),
        data5: decode_float_data(buf, start + 20),
        data6: decode_float_data(buf, start + 24),
        data7: decode_float_data(buf, start + 28),
        data8: decode_float_data(buf, start + 32),
    }
}

pub fn build_new_data_message(prologue: String) -> (message: XPLN11UDPDataMessage)
    ensures
        message.prologue == prologue,
        message.data@ == Map::<i32, XPLN11UDPDataFragment>::empty(),
{
    XPLN11UDPDataMessage { prologue: prologue, data: HashMap::new() }
}

/// A fragment read from a datagram at a place that lies within its first
/// `length` bytes is the fragment read from those bytes alone.
proof fn lemma_fragment_of_prefix(bytes: Seq<u8>, length: int, start: int)
    requires
        0 <= start,
        start + 36 <= length <= bytes.len(),
    ensures
        fragment_at(bytes.take(length), start) == fragment_at(bytes, start),
{
}

/// Decodes the first `number_of_bytes` bytes of `buf` as one datagram.
///
/// A datagram shorter than nine bytes is refused. Of any other, every whole
/// fragment is decoded and stored under its index; bytes after the last whole
/// fragment are dropped.
pub fn decode_data(number_of_bytes: usize, buf: &[u8]) -> (result: Result<
    XPLN11UDPDataMessage,
    DecodeError,
>)
    requires
        number_of_bytes <= buf@.len(),
    ensures
        result is Err <==> number_of_bytes < 9,
        result is Err ==> result->Err_0 == DecodeError::TooShort,
        result is Ok ==> result->Ok_0.prologue@ == "DATA"@,
        result is Ok ==> result->Ok_0.data@ == decoded(buf@.take(number_of_bytes as int)),
{
    if number_of_bytes < DATA_MESSAGE_MIN_BYTES_SIZE_VALUE {
        return Err(DecodeError::TooShort);
    }
    let mut data_message = build_new_data_message("DATA".to_owned());
    let ghost frame = buf@.take(number_of_bytes as int);
    let ghost fragments = frame_fragments(frame);
    let mut i: usize = DATA_MESSAGE_PROLOGUE_SIZE_VALUE;
    let mut k: usize = 0;
    assert(fragments.take(0) =~= Seq::<XPLN11UDPDataFragment>::empty());
    while number_of_bytes - i >= DATA_MESSAGE_FRAGMENT_SIZE_VALUE
        invariant
            9 <= number_of_bytes <= buf@.len(),
            frame == buf@.take(number_of_bytes as int),
            fragments == frame_fragments(frame),
            i == fragment_start(k as int),
            k <= fragments.len(),
            i <= number_of_bytes,
            data_message.prologue@ == "DATA"@,
            data_message.data@ == by_index(fragments.take(k as int)),
        decreases number_of_bytes - i,
    {
        let data_fragment = decode_fragment(buf, i);
        proof {
            lemma_fragment_of_prefix(buf@, number_of_bytes as int, i as int);
            let done = fragments.take(k as int + 1);
            assert(done.drop_last() =~= fragments.take(k as int));
            assert(done.last() == data_fragment);
        }
        data_message.data.insert(data_fragment.index, data_fragment);
        i = i + DATA_MESSAGE_FRAGMENT_SIZE_VALUE;
        k = k + 1;
    }
    assert(fragments.take(k as int) =~= fragments);
    Ok(data_message)
}

/// Decodes the first `number_of_bytes` bytes of `buf` as one datagram that
/// ends with its last fragment.
///
/// As [`decode_data`], but a datagram with bytes after its last whole fragment
/// is refused, not cut.
pub fn decode_data_strict(number_of_bytes: usize, buf: &[u8]) -> (result: Result<
    XPLN11UDPDataMessage,
    DecodeError,
>)
    requires
        number_of_bytes <= buf@.len(),
    ensures
        number_of_bytes < 9 <==> result == Err::<XPLN11UDPDataMessage, DecodeError>(
            DecodeError::TooShort,
        ),
        number_of_bytes >= 9 && (number_of_bytes - 5) % 36 != 0 <==> result == Err::<
            XPLN11UDPDataMessage,
            DecodeError,
        >(DecodeError::MalformedFragment),
        result is Ok ==> result->Ok_0.prologue@ == "DATA"@,
        result is Ok ==> result->Ok_0.data@ == decoded(buf@.take(number_of_bytes as int)),
{
    if number_of_bytes >= DATA_MESSAGE_MIN_BYTES_SIZE_VALUE && (number_of_bytes
        - DATA_MESSAGE_PROLOGUE_SIZE_VALUE) % DATA_MESSAGE_FRAGMENT_SIZE_VALUE != 0 {
        return Err(DecodeError::MalformedFragment);
    }
    decode_data(number_of_bytes, buf)
}

/// A datagram holds a fragment only if it has room for one: below 41 bytes
/// it decodes to nothing.
pub proof fn lemma_short_frame_holds_nothing(frame: Seq<u8>)
    requires
        frame.len() < 41,
    ensures
        frame_fragments(frame) == Seq::<XPLN11UDPDataFragment>::empty(),
        decoded(frame) == Map::<i32, XPLN11UDPDataFragment>::empty(),
{
    assert(frame_fragments(frame) =~= Seq::<XPLN11UDPDataFragment>::empty());
}

/// Where the last fragment with `index` stands in `fragments`, and -1 where
/// none carries it.
pub open spec fn last_position(fragments: Seq<XPLN11UDPDataFragment>, index: i32) -> int
    decreases fragments.len(),
{
    if fragments.len() == 0 {
        -1
    } else if fragments.last().index == index {
        fragments.len() - 1
    } else {
        last_position(fragments.drop_last(), index)
    }
}

/// `last_position` is the place of a fragment with `index` after which no
/// fragment carries `index`, and it is -1 exactly when no fragment does.
pub proof fn lemma_last_position(fragments: Seq<XPLN11UDPDataFragment>, index: i32)
    ensures
        -1 <= last_position(fragments, index) < fragments.len(),
        last_position(fragments, index) >= 0 ==> fragments[last_position(
            fragments,
            index,
        )].index == index,
        forall|k: int|
            last_position(fragments, index) < k < fragments.len() ==> (
            #[trigger] fragments[k]).index != index,
    decreases fragments.len(),
{
    if fragments.len() > 0 && fragments.last().index != index {
        lemma_last_position(fragments.drop_last(), index);
        assert forall|k: int|
            last_position(fragments, index) < k < fragments.len() implies (
        #[trigger] fragments[k]).index != index by {
            if k < fragments.len() - 1 {
                assert(fragments.drop_last()[k] == fragments[k]);
            }
        }
    }
}

/// The last writer wins: the decoded map holds an index exactly when some
/// fragment carries it, and holds under it the last fragment that does.
pub proof fn lemma_last_writer_wins(fragments: Seq<XPLN11UDPDataFragment>, index: i32)
    ensures
        by_index(fragments).contains_key(index) <==> last_position(fragments, index) >= 0,
        by_index(fragments).contains_key(index) ==> by_index(fragments)[index]
            == fragments[last_position(fragments, index)],
    decreases fragments.len(),
{
    if fragments.len() > 0 {
        lemma_last_writer_wins(fragments.drop_last(), index);
        lemma_last_position(fragments.drop_last(), index);
    }
}

/// Every fragment of the decoded map stands under its own index, and the map
/// holds no more fragments than were decoded.
pub proof fn lemma_by_index_keys(fragments: Seq<XPLN11UDPDataFragment>)
    ensures
        forall|index: i32| #[trigger]
            by_index(fragments).contains_key(index) ==> by_index(fragments)[index].index == index,
        by_index(fragments).dom().finite(),
        by_index(fragments).dom().len() <= fragments.len(),
    decreases fragments.len(),
{
    if fragments.len() > 0 {
        lemma_by_index_keys(fragments.drop_last());
    }
}

/// Fragments that carry pairwise different indices are all kept.
pub proof fn lemma_distinct_indices_all_kept(fragments: Seq<XPLN11UDPDataFragment>)
    requires
        forall|j: int, k: int|
            0 <= j < k < fragments.len() ==> (#[trigger] fragments[j]).index != (
            #[trigger] fragments[k]).index,
    ensures
        by_index(fragments).dom().len() == fragments.len(),
        forall|k: int|
            0 <= k < fragments.len() ==> by_index(fragments).contains_key(
                (#[trigger] fragments[k]).index,
            ) && by_index(fragments)[fragments[k].index] == fragments[k],
    decreases fragments.len(),
{
    if fragments.len() > 0 {
        let front = fragments.drop_last();
        assert forall|j: int, k: int| 0 <= j < k < front.len() implies (#[trigger] front[j]).index
            != (#[trigger] front[k]).index by {
            assert(front[j] == fragments[j]);
            assert(front[k] == fragments[k]);
        }
        lemma_distinct_indices_all_kept(front);
        lemma_by_index_keys(front);
        lemma_last_writer_wins(front, fragments.last().index);
        lemma_last_position(front, fragments.last().index);
        if last_position(front, fragments.last().index) >= 0 {
            let j = last_position(front, fragments.last().index);
            assert(front[j] == fragments[j]);
            assert(fragments[j].index != fragments[fragments.len() - 1].index);
        }
        assert forall|k: int| 0 <= k < fragments.len() implies by_index(fragments).contains_key(
            (#[trigger] fragments[k]).index,
        ) && by_index(fragments)[fragments[k].index] == fragments[k] by {
            if k < fragments.len() - 1 {
                assert(front[k] == fragments[k]);
                assert(fragments[k].index != fragments[fragments.len() - 1].index);
            }
        }
    }
}

/// The four bytes that spell `word` in little-endian order.
pub open spec fn word_bytes(word: u32) -> Seq<u8> {
    seq![
        (word % 0x100) as u8,
        (word / 0x100 % 0x100) as u8,
        (word / 0x1_0000 % 0x100) as u8,
        (word / 0x100_0000) as u8,
    ]
}

/// The 32-bit word that denotes `value` in two's complement.
pub open spec fn unsigned(value: i32) -> u32 {
    if value >= 0 {
        value as u32
    } else {
        (value + 0x1_0000_0000) as u32
    }
}

/// The 36 bytes of one fragment: its index, then its eight fields.
pub open spec fn fragment_bytes(fragment: XPLN11UDPDataFragment) -> Seq<u8> {
    word_bytes(unsigned(fragment.index)) + word_bytes(fragment.data1) + word_bytes(fragment.data2)
        + word_bytes(fragment.data3) + word_bytes(fragment.data4) + word_bytes(fragment.data5)
        + word_bytes(fragment.data6) + word_bytes(fragment.data7) + word_bytes(fragment.data8)
}

/// The bytes of some fragments, one after the other.
pub open spec fn fragments_bytes(fragments: Seq<XPLN11UDPDataFragment>) -> Seq<u8>
    decreases fragments.len(),
{
    if fragments.len() == 0 {
        Seq::empty()
    } else {
        fragments_bytes(fragments.drop_last()) + fragment_bytes(fragments.last())
    }
}

/// The datagram that holds `fragments` behind `prologue`.
pub open spec fn datagram(prologue: Seq<u8>, fragments: Seq<XPLN11UDPDataFragment>) -> Seq<u8> {
    prologue + fragments_bytes(fragments)
}

/// The prologue that this library writes: the letters `DATA` and a zero byte.
pub open spec fn data_prologue() -> Seq<u8> {
    seq![0x44u8, 0x41u8, 0x54u8, 0x41u8, 0x00u8]
}

/// Appends the four bytes of `word` to `buf`, in little-endian order: a
/// single-precision field, written bit for bit.
pub fn encode_float_data(buf: &mut Vec<u8>, word: u32)
    ensures
        final(buf)@ == old(buf)@ + word_bytes(word),
{
    buf.push((word % 0x100) as u8);
    buf.push((word / 0x100 % 0x100) as u8);
    buf.push((word / 0x1_0000 % 0x100) as u8);
    buf.push((word / 0x100_0000) as u8);
    assert(buf@ =~= old(buf)@ + word_bytes(word));
}

/// Appends the four bytes of `value` to `buf`, in little-endian order.
pub fn encode_int_data(buf: &mut Vec<u8>, value: i32)
    ensures
        final(buf)@ == old(buf)@ + word_bytes(unsigned(value)),
{
    let word: u32 = if value >= 0 {
        value as u32
    } else {
        ((value - i32::MIN) as u32) + 0x8000_0000
    };
    encode_float_data(buf, word);
}

/// Appends the 36 bytes of `fragment` to `buf`.
pub fn encode_fragment(buf: &mut Vec<u8>, fragment: &XPLN11UDPDataFragment)
    ensures
        final(buf)@ == old(buf)@ + fragment_bytes(*fragment),
{
    encode_int_data(buf, fragment.index);
    encode_float_data(buf, fragment.data1);
    encode_float_data(buf, fragment.data2);
    encode_float_data(buf, fragment.data3);
    encode_float_data(buf, fragment.data4);
    encode_float_data(buf, fragment.data5);
    encode_float_data(buf, fragment.data6);
    encode_float_data(buf, fragment.data7);
    encode_float_data(buf, fragment.data8);
    assert(buf@ =~= old(buf)@ + fragment_bytes(*fragment));
}

/// Writes the datagram that holds `fragments`, in their order, behind the
/// prologue of this library.
pub fn encode_data(fragments: &Vec<XPLN11UDPDataFragment>) -> (frame: Vec<u8>)
    ensures
        frame@ == datagram(data_prologue(), fragments@),
{
    let mut frame: Vec<u8> = Vec::new();
    frame.push(0x44);
    frame.push(0x41);
    frame.push(0x54);
    frame.push(0x41);
    frame.push(0x00);
    assert(frame@ =~= data_prologue());
    let mut k: usize = 0;
    assert(fragments@.take(0) =~= Seq::<XPLN11UDPDataFragment>::empty());
    while k < fragments.len()
        invariant
            k <= fragments.len(),
            frame@ == datagram(data_prologue(), fragments@.take(k as int)),
        decreases fragments.len() - k,
    {
        encode_fragment(&mut frame, &fragments[k]);
        proof {
            let done = fragments@.take(k as int + 1);
            assert(done.drop_last() =~= fragments@.take(k as int));
            assert(done.last() == fragments@[k as int]);
            assert(frame@ =~= datagram(data_prologue(), done));
        }
        k = k + 1;
    }
    assert(fragments@.take(k as int) =~= fragments@);
    frame
}

/// The bytes of a word spell that word.
pub proof fn lemma_word_round_trip(word: u32)
    ensures
        word_bytes(word).len() == 4,
        word_at(word_bytes(word), 0) == word,
{
}

/// The word of an integer denotes that integer.
pub proof fn lemma_int_round_trip(value: i32)
    ensures
        signed(unsigned(value)) == value,
{
}

/// A word read within the second of two joined sequences is the word read
/// from that sequence alone.
proof fn lemma_word_at_shift(front: Seq<u8>, back: Seq<u8>, start: int)
    requires
        0 <= start,
        start + 4 <= back.len(),
    ensures
        word_at(front + back, front.len() + start) == word_at(back, start),
{
}

/// A fragment read within the second of two joined sequences is the fragment
/// read from that sequence alone.
proof fn lemma_fragment_at_shift(front: Seq<u8>, back: Seq<u8>, start: int)
    requires
        0 <= start,
        start + 36 <= back.len(),
    ensures
        fragment_at(front + back, front.len() + start) == fragment_at(back, start),
{
    lemma_word_at_shift(front, back, start);
    lemma_word_at_shift(front, back, start + 4);
    lemma_word_at_shift(front, back, start + 8);
    lemma_word_at_shift(front, back, start + 12);
    lemma_word_at_shift(front, back, start + 16);
    lemma_word_at_shift(front, back, start + 20);
    lemma_word_at_shift(front, back, start + 24);
    lemma_word_at_shift(front, back, start + 28);
    lemma_word_at_shift(front, back, start + 32);
}

/// A fragment read within the first of two joined sequences is the fragment
/// read from that sequence alone.
proof fn lemma_fragment_at_front(front: Seq<u8>, back: Seq<u8>, start: int)
    requires
        0 <= start,
        start + 36 <= front.len(),
    ensures
        fragment_at(front + back, start) == fragment_at(front, start),
{
}

/// The bytes of a fragment are 36, and they spell that fragment.
pub proof fn lemma_fragment_round_trip(fragment: XPLN11UDPDataFragment)
    ensures
        fragment_bytes(fragment).len() == 36,
        fragment_at(fragment_bytes(fragment), 0) == fragment,
{
    let bytes = fragment_bytes(fragment);
    lemma_int_round_trip(fragment.index);
    lemma_word_round_trip(unsigned(fragment.index));
    lemma_word_round_trip(fragment.data1);
    lemma_word_round_trip(fragment.data2);
    lemma_word_round_trip(fragment.data3);
    lemma_word_round_trip(fragment.data4);
    lemma_word_round_trip(fragment.data5);
    lemma_word_round_trip(fragment.data6);
    lemma_word_round_trip(fragment.data7);
    lemma_word_round_trip(fragment.data8);
    assert(word_at(bytes, 0) == unsigned(fragment.index));
    assert(word_at(bytes, 4) == fragment.data1);
    assert(word_at(bytes, 8) == fragment.data2);
    assert(word_at(bytes, 12) == fragment.data3);
    assert(word_at(bytes, 16) == fragment.data4);
    assert(word_at(bytes, 20) == fragment.data5);
    assert(word_at(bytes, 24) == fragment.data6);
    assert(word_at(bytes, 28) == fragment.data7);
    assert(word_at(bytes, 32) == fragment.data8);
}

/// Fragments take 36 bytes each.
pub proof fn lemma_fragments_bytes_len(fragments: Seq<XPLN11UDPDataFragment>)
    ensures
        fragments_bytes(fragments).len() == 36 * fragments.len(),
    decreases fragments.len(),
{
    if fragments.len() > 0 {
        lemma_fragments_bytes_len(fragments.drop_last());
        lemma_fragment_round_trip(fragments.last());
    }
}

/// A datagram of some fragments is the datagram of all but the last of them,
/// followed by the bytes of the last.
proof fn lemma_datagram_grows(prologue: Seq<u8>, fragments: Seq<XPLN11UDPDataFragment>)
    requires
        fragments.len() > 0,
    ensures
        datagram(prologue, fragments) == datagram(prologue, fragments.drop_last())
            + fragment_bytes(fragments.last()),
        datagram(prologue, fragments.drop_last()).len() == prologue.len() + 36 * (fragments.len()
            - 1),
        fragment_bytes(fragments.last()).len() == 36,
{
    lemma_fragments_bytes_len(fragments.drop_last());
    lemma_fragment_round_trip(fragments.last());
    assert(prologue + (fragments_bytes(fragments.drop_last()) + fragment_bytes(fragments.last()))
        =~= (prologue + fragments_bytes(fragments.drop_last())) + fragment_bytes(
        fragments.last(),
    ));
}

/// Fragment `k` of a datagram is the fragment that was written as its `k`-th.
proof fn lemma_datagram_fragment(
    prologue: Seq<u8>,
    fragments: Seq<XPLN11UDPDataFragment>,
    k: int,
)
    requires
        prologue.len() == 5,
        0 <= k < fragments.len(),
    ensures
        fragment_at(datagram(prologue, fragments), fragment_start(k)) == fragments[k],
    decreases fragments.len(),
{
    let front = fragments.drop_last();
    let head = datagram(prologue, front);
    let tail = fragment_bytes(fragments.last());
    lemma_datagram_grows(prologue, fragments);
    if k == fragments.len() - 1 {
        lemma_fragment_at_shift(head, tail, 0);
        lemma_fragment_round_trip(fragments.last());
    } else {
        lemma_datagram_fragment(prologue, front, k);
        lemma_fragment_at_front(head, tail, fragment_start(k));
    }
}

/// Decoding undoes encoding: a datagram that was written from some fragments
/// behind a prologue of five bytes holds those fragments, in their order, and
/// decodes to them by their index.
pub proof fn lemma_decode_round_trip(prologue: Seq<u8>, fragments: Seq<XPLN11UDPDataFragment>)
    requires
        prologue.len() == 5,
    ensures
        datagram(prologue, fragments).len() == 5 + 36 * fragments.len(),
        frame_fragments(datagram(prologue, fragments)) == fragments,
        decoded(datagram(prologue, fragments)) == by_index(fragments),
{
    let frame = datagram(prologue, fragments);
    lemma_fragments_bytes_len(fragments);
    assert(frame_fragments(frame).len() == fragments.len());
    assert forall|k: int| 0 <= k < fragments.len() implies frame_fragments(frame)[k]
        == fragments[k] by {
        lemma_datagram_fragment(prologue, fragments, k);
    }
    assert(frame_fragments(frame) =~= fragments);
}

} // verus!
