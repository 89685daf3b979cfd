//! The counter embedded in the name and in the address of a reward.
//!
//! Rewards of a non-repeating series are told apart by a decimal counter in
//! their display name (`"... #12"`) and in their address (`".../12.jpg"`).
//! Both are stored in a buffer that may be padded with NUL bytes. At the end
//! of a cycle the counter is advanced by one, or set back to zero when the
//! series ends.
use vstd::prelude::*;
use vstd::utf8::*;
use vstd::string::*;
use crate::error::AuctionContractError;

verus! {

/// Width in bytes of the buffer that holds a reward's name.
pub const MAX_NAME_LENGTH: usize = 32;

/// Width in bytes of the buffer that holds a reward's symbol.
pub const MAX_SYMBOL_LENGTH: usize = 10;

/// Width in bytes of the buffer that holds a reward's address.
pub const MAX_URI_LENGTH: usize = 200;

/// The padding byte.
pub const NUL: u8 = 0;

/// `+`, the sign that may stand before a counter.
pub const PLUS: u8 = 43;

/// `#`, the byte after which the counter of a name starts.
pub const HASH: u8 = 35;

/// `.`, the byte before which the counter of an address ends.
pub const DOT: u8 = 46;

/// `/`, the byte after which the counter of an address starts.
pub const SLASH: u8 = 47;

/// `0`, the first of the ten digits.
pub const ZERO: u8 = 48;

/// The name and address under which a reward is shown.
#[derive(Clone, Debug)]
pub struct MetadataStateData {
    pub name: String,
    pub symbol: String,
    pub uri: String,
}

/// Whether the byte is one of the digits `0` to `9`.
pub open spec fn is_decimal_digit(byte: u8) -> bool {
    ZERO <= byte <= ZERO + 9
}

/// Whether every byte is a digit.
pub open spec fn all_decimal_digits(bytes: Seq<u8>) -> bool {
    forall|i: int| 0 <= i < bytes.len() ==> is_decimal_digit(#[trigger] bytes[i])
}

/// The value of one digit; zero for any other byte.
pub open spec fn digit_value(byte: u8) -> nat {
    if is_decimal_digit(byte) {
        (byte - ZERO) as nat
    } else {
        0
    }
}

/// The number that `digits` denote in base ten, most significant digit first.
pub open spec fn decimal_value(digits: Seq<u8>) -> nat
    decreases digits.len(),
{
    if digits.len() == 0 {
        0
    } else {
        10 * decimal_value(digits.drop_last()) + digit_value(digits.last())
    }
}

/// The shortest sequence of digits that denotes `n`.
pub open spec fn decimal_digits(n: nat) -> Seq<u8>
    decreases n,
{
    if n < 10 {
        seq![(ZERO + n) as u8]
    } else {
        decimal_digits(n / 10).push((ZERO + n % 10) as u8)
    }
}

/// The counter that `text` denotes: an optional `+`, then at least one digit
/// and nothing else, with a value that a `u64` can hold.
pub open spec fn parse_counter(text: Seq<u8>) -> Option<u64> {
    if text.len() > 0 && text[0] == PLUS {
        parse_digits(text.drop_first())
    } else {
        parse_digits(text)
    }
}

/// The number that `digits` denote, where they are digits, at least one, and
/// denote a number that a `u64` can hold.
pub open spec fn parse_digits(digits: Seq<u8>) -> Option<u64> {
    if digits.len() > 0 && all_decimal_digits(digits) && decimal_value(digits) <= u64::MAX {
        Some(decimal_value(digits) as u64)
    } else {
        None
    }
}

/// Where the counter of a name stands: after the last `#` among the first
/// `MAX_NAME_LENGTH` bytes, up to the first NUL behind it or to the end of
/// those bytes.
pub open spec fn name_counter_bounds(bytes: Seq<u8>) -> Option<(int, int)> {
    let width = if bytes.len() < MAX_NAME_LENGTH {
        bytes.len() as int
    } else {
        MAX_NAME_LENGTH as int
    };
    match bytes.take(width).index_of_last(HASH) {
        None => None,
        Some(hash) => Some(
            (
                hash + 1,
                match bytes.subrange(hash + 1, width).index_of_first(NUL) {
                    Some(offset) => hash + 1 + offset,
                    None => width,
                },
            ),
        ),
    }
}

/// A name after its counter has been advanced by one, or set to zero when
/// `is_last_cycle` holds. The padding is dropped.
pub open spec fn incremented_name(bytes: Seq<u8>, is_last_cycle: bool) -> Result<
    Seq<u8>,
    AuctionContractError,
> {
    match name_counter_bounds(bytes) {
        None => Err(AuctionContractError::MetadataManipulationError),
        Some((first, last)) => match parse_counter(bytes.subrange(first, last)) {
            None => Err(AuctionContractError::MetadataManipulationError),
            Some(counter) => if is_last_cycle {
                Ok(bytes.take(first) + decimal_digits(0))
            } else if counter == u64::MAX {
                Err(AuctionContractError::ArithmeticError)
            } else {
                Ok(bytes.take(first) + decimal_digits((counter + 1) as nat))
            },
        },
    }
}

/// Where the counter of an address stands, and where the address ends: the
/// counter starts after the last `/` and ends before the first `.` behind it;
/// the address ends before the first NUL behind that `/`. Where there is no
/// `.` or no NUL, the end of the buffer takes its place.
pub open spec fn uri_counter_bounds(bytes: Seq<u8>) -> Option<(int, int, int)> {
    match bytes.index_of_last(SLASH) {
        None => None,
        Some(slash) => {
            let tail = bytes.skip(slash + 1);
            Some(
                (
                    slash + 1,
                    match tail.index_of_first(DOT) {
                        Some(offset) => slash + 1 + offset,
                        None => bytes.len() as int,
                    },
                    match tail.index_of_first(NUL) {
                        Some(offset) => slash + 1 + offset,
                        None => bytes.len() as int,
                    },
                ),
            )
        },
    }
}

/// An address after its counter has been advanced by one, or set to zero
/// when `is_last_cycle` holds. What follows the counter stays, up to the
/// padding, which is dropped.
pub open spec fn incremented_uri(bytes: Seq<u8>, is_last_cycle: bool) -> Result<
    Seq<u8>,
    AuctionContractError,
> {
    match uri_counter_bounds(bytes) {
        None => Err(AuctionContractError::MetadataManipulationError),
        Some((first, dot, end)) => match parse_counter(bytes.subrange(first, dot)) {
            None => Err(AuctionContractError::MetadataManipulationError),
            Some(counter) => if is_last_cycle {
                Ok(bytes.take(first) + decimal_digits(0) + bytes.subrange(dot, end))
            } else if counter == u64::MAX {
                Err(AuctionContractError::ArithmeticError)
            } else {
                Ok(
                    bytes.take(first) + decimal_digits((counter + 1) as nat) + bytes.subrange(
                        dot,
                        end,
                    ),
                )
            },
        },
    }
}

/// A text without its NUL characters.
pub open spec fn without_nul(chars: Seq<char>) -> Seq<char> {
    chars.filter(|c: char| c != '\0')
}

/// A longer sequence of digits denotes at least as much as its beginning.
proof fn lemma_decimal_value_of_prefix(digits: Seq<u8>, len: int)
    requires
        0 <= len <= digits.len(),
    ensures
        decimal_value(digits.take(len)) <= decimal_value(digits),
    decreases digits.len(),
{
    if len == digits.len() {
        assert(digits.take(len) =~= digits);
    } else {
        assert(digits.drop_last().take(len) =~= digits.take(len));
        lemma_decimal_value_of_prefix(digits.drop_last(), len);
    }
}

/// The digits of a number are digits, and denote that number.
pub proof fn lemma_decimal_digits_denote(n: nat)
    ensures
        decimal_digits(n).len() > 0,
        all_decimal_digits(decimal_digits(n)),
        decimal_value(decimal_digits(n)) == n,
    decreases n,
{
    if n < 10 {
        let digits = decimal_digits(n);
        assert(digits.drop_last() =~= Seq::<u8>::empty());
        assert(decimal_value(digits.drop_last()) == 0);
    } else {
        lemma_decimal_digits_denote(n / 10);
        let digits = decimal_digits(n);
        assert(digits.drop_last() =~= decimal_digits(n / 10));
        assert(digits.last() == (ZERO + n % 10) as u8);
    }
}

/// Writing a counter out and reading it back gives the counter.
pub proof fn lemma_counter_round_trip(counter: u64)
    ensures
        parse_counter(decimal_digits(counter as nat)) == Some(counter),
{
    lemma_decimal_digits_denote(counter as nat);
}

/// A sequence of digits is well-formed UTF-8.
proof fn lemma_digits_are_utf8(digits: Seq<u8>)
    requires
        all_decimal_digits(digits),
    ensures
        valid_utf8(digits),
{
    assert(digits.subrange(0, 0) =~= Seq::<u8>::empty());
    assert(partial_valid_utf8(digits, 0));
    assert forall|i: int| 0 <= i < digits.len() implies #[trigger] is_leading_byte_width_1(
        digits[i],
    ) by {
        assert(is_decimal_digit(digits[i]));
    }
    partial_valid_utf8_extend_ascii_block(digits, 0, digits.len() as int);
    assert(digits.subrange(0, digits.len() as int) =~= digits);
}

/// Text may be cut before any byte below 128, and at its end.
proof fn lemma_cut_before_ascii(bytes: Seq<u8>, index: int)
    requires
        valid_utf8(bytes),
        0 <= index <= bytes.len(),
        index < bytes.len() ==> bytes[index] < 128,
    ensures
        is_char_boundary(bytes, index),
{
    if index < bytes.len() {
        is_char_boundary_iff_not_is_continuation_byte(bytes, index);
    } else {
        is_char_boundary_start_end_of_seq(bytes);
    }
}

/// The piece of a text between two places where it may be cut is
/// well-formed UTF-8.
proof fn lemma_piece_is_utf8(bytes: Seq<u8>, from: int, to: int)
    requires
        valid_utf8(bytes),
        0 <= from <= to <= bytes.len(),
        is_char_boundary(bytes, from),
        is_char_boundary(bytes, to),
    ensures
        valid_utf8(bytes.subrange(from, to)),
{
    valid_utf8_split(bytes, to);
    let head = bytes.subrange(0, to);
    if from < to {
        is_char_boundary_iff_not_is_continuation_byte(bytes, from);
        is_char_boundary_iff_not_is_continuation_byte(head, from);
    } else {
        is_char_boundary_start_end_of_seq(head);
    }
    valid_utf8_split(head, from);
    assert(head.subrange(from, head.len() as int) =~= bytes.subrange(from, to));
}

/// What denotes a counter is not empty and holds neither a NUL nor a byte
/// from 128 on.
proof fn lemma_counter_is_plain(text: Seq<u8>)
    requires
        parse_counter(text) is Some,
    ensures
        text.len() > 0,
        forall|i: int| 0 <= i < text.len() ==> NUL < #[trigger] text[i] < 128,
{
    if text.len() > 0 && text[0] == PLUS {
        let digits = text.drop_first();
        assert forall|i: int| 0 <= i < text.len() implies NUL < #[trigger] text[i] < 128 by {
            if i > 0 {
                assert(is_decimal_digit(digits[i - 1]));
            }
        }
    } else {
        assert forall|i: int| 0 <= i < text.len() implies NUL < #[trigger] text[i] < 128 by {
            assert(is_decimal_digit(text[i]));
        }
    }
}

/// A text stays well-formed UTF-8 when digits take the place of one of its
/// pieces and the text is cut behind another, as long as each piece starts
/// before a byte below 128 or at the end of the text.
proof fn lemma_replaced_is_utf8(text: Seq<u8>, first: int, dot: int, end: int, digits: Seq<u8>)
    requires
        valid_utf8(text),
        0 <= first <= dot <= end <= text.len(),
        first < text.len() ==> text[first] < 128,
        dot < text.len() ==> text[dot] < 128,
        end < text.len() ==> text[end] < 128,
        all_decimal_digits(digits),
    ensures
        valid_utf8(text.take(first) + digits + text.subrange(dot, end)),
{
    lemma_cut_before_ascii(text, first);
    lemma_cut_before_ascii(text, dot);
    lemma_cut_before_ascii(text, end);
    valid_utf8_split(text, first);
    lemma_piece_is_utf8(text, dot, end);
    lemma_digits_are_utf8(digits);
    valid_utf8_concat(text.take(first), digits);
    valid_utf8_concat(text.take(first) + digits, text.subrange(dot, end));
}

/// The number that the digits in `bytes` from `start` up to `end` denote.
fn parse_digits_in(bytes: &Vec<u8>, start: usize, end: usize) -> (number: Option<u64>)
    requires
        start <= end <= bytes.len(),
    ensures
        number == parse_digits(bytes@.subrange(start as int, end as int)),
{
    let ghost digits = bytes@.subrange(start as int, end as int);
    if start == end {
        return None;
    }
    let mut value: u64 = 0;
    let mut i: usize = start;
    while i < end
        invariant
            start <= i <= end <= bytes.len(),
            digits == bytes@.subrange(start as int, end as int),
            all_decimal_digits(digits.take(i - start)),
            value == decimal_value(digits.take(i - start)),
        decreases end - i,
    {
        let byte = bytes[i];
        let ghost next = digits.take(i - start + 1);
        proof {
            assert(next.drop_last() =~= digits.take(i - start));
            assert(next.last() == byte);
            assert(digits[i - start] == byte);
            lemma_decimal_value_of_prefix(digits, i - start + 1);
        }
        if byte < ZERO || byte > ZERO + 9 {
            assert(!all_decimal_digits(digits));
            return None;
        }
        let digit: u64 = (byte - ZERO) as u64;
        assert(decimal_value(next) == 10 * value + digit);
        let tenfold = match value.checked_mul(10) {
            Some(tenfold) => tenfold,
            None => {
                return None;
            },
        };
        value = match tenfold.checked_add(digit) {
            Some(sum) => sum,
            None => {
                return None;
            },
        };
        i = i + 1;
    }
    proof {
        assert(digits.take(i - start) =~= digits);
    }
    Some(value)
}

/// The counter that stands in `bytes` from `start` up to `end`.
fn parse_counter_in(bytes: &Vec<u8>, start: usize, end: usize) -> (counter: Option<u64>)
    requires
        start <= end <= bytes.len(),
    ensures
        counter == parse_counter(bytes@.subrange(start as int, end as int)),
{
    let ghost text = bytes@.subrange(start as int, end as int);
    if start < end && bytes[start] == PLUS {
        proof {
            assert(text[0] == bytes@[start as int]);
            assert(text.drop_first() =~= bytes@.subrange(start + 1, end as int));
        }
        parse_digits_in(bytes, start + 1, end)
    } else {
        proof {
            assert(text.len() > 0 ==> text[0] == bytes@[start as int]);
        }
        parse_digits_in(bytes, start, end)
    }
}

/// Appends the digits of `n` to `out`.
fn push_decimal(n: u64, out: &mut Vec<u8>)
    ensures
        final(out)@ == old(out)@ + decimal_digits(n as nat),
    decreases n,
{
    if n >= 10 {
        push_decimal(n / 10, out);
    }
    out.push(ZERO + (n % 10) as u8);
    proof {
        if n >= 10 {
            assert(final(out)@ =~= old(out)@ + decimal_digits(n as nat));
        } else {
            assert(final(out)@ =~= old(out)@ + decimal_digits(n as nat));
        }
    }
}

/// Appends the bytes of `bytes` from `from` up to `to` to `out`.
fn push_range(bytes: &Vec<u8>, from: usize, to: usize, out: &mut Vec<u8>)
    requires
        from <= to <= bytes.len(),
    ensures
        final(out)@ == old(out)@ + bytes@.subrange(from as int, to as int),
{
    let mut i: usize = from;
    while i < to
        invariant
            from <= i <= to <= bytes.len(),
            out@ == old(out)@ + bytes@.subrange(from as int, i as int),
        decreases to - i,
    {
        out.push(bytes[i]);
        i = i + 1;
        proof {
            assert(out@ =~= old(out)@ + bytes@.subrange(from as int, i as int));
        }
    }
}

/// The place of the last `needle` before `end`.
fn last_index_before(bytes: &Vec<u8>, end: usize, needle: u8) -> (place: Option<usize>)
    requires
        end <= bytes.len(),
    ensures
        match place {
            Some(index) => index < end && bytes@.take(end as int).index_of_last(needle) == Some(
                index as int,
            ),
            None => bytes@.take(end as int).index_of_last(needle) is None,
        },
{
    let ghost window = bytes@.take(end as int);
    let mut i: usize = end;
    while i > 0
        invariant
            i <= end <= bytes.len(),
            window == bytes@.take(end as int),
            forall|j: int| i <= j < end ==> window[j] != needle,
        decreases i,
    {
        i = i - 1;
        if bytes[i] == needle {
            proof {
                assert(window[i as int] == needle);
                window.index_of_last_ensures(needle);
            }
            return Some(i);
        }
    }
    proof {
        window.index_of_last_ensures(needle);
    }
    None
}

/// The place of the first `needle` from `start` up to `end`, or `end` where
/// there is none.
fn first_index_between(bytes: &Vec<u8>, start: usize, end: usize, needle: u8) -> (place: usize)
    requires
        start <= end <= bytes.len(),
    ensures
        start <= place <= end,
        place == match bytes@.subrange(start as int, end as int).index_of_first(needle) {
            Some(offset) => start + offset,
            None => end as int,
        },
{
    let ghost window = bytes@.subrange(start as int, end as int);
    let mut i: usize = start;
    while i < end
        invariant
            start <= i <= end <= bytes.len(),
            window == bytes@.subrange(start as int, end as int),
            forall|j: int| 0 <= j < i - start ==> window[j] != needle,
        decreases end - i,
    {
        if bytes[i] == needle {
            proof {
                assert(window[i - start] == needle);
                window.index_of_first_ensures(needle);
            }
            return i;
        }
        i = i + 1;
    }
    proof {
        window.index_of_first_ensures(needle);
    }
    end
}

/// `String::from_utf8`, with its error dropped: the text whose UTF-8
/// encoding is `bytes`, and nothing where `bytes` is not well-formed UTF-8.
#[verifier::external_body]
fn string_from_utf8(bytes: Vec<u8>) -> (text: Option<String>)
    ensures
        text is Some <==> valid_utf8(bytes@),
        text matches Some(s) ==> encode_utf8(s@) == bytes@,
{
    String::from_utf8(bytes).ok()
}

/// Advances the counter in a reward's name by one, or sets it to zero when
/// `is_last_cycle` holds, and drops the padding.
///
/// The counter is looked for among the first `MAX_NAME_LENGTH` bytes, behind
/// the last `#`. A name that is rejected is left as it was.
pub fn increment_name(string: &mut String, is_last_cycle: bool) -> (result: Result<
    (),
    AuctionContractError,
>)
    ensures
        match incremented_name(encode_utf8(old(string)@), is_last_cycle) {
            Ok(bytes) => result is Ok && encode_utf8(final(string)@) == bytes,
            Err(error) => result == Err::<(), AuctionContractError>(error) && final(string)@
                == old(string)@,
        },
{
    let bytes = string.as_str().as_bytes_vec();
    let width = if bytes.len() < MAX_NAME_LENGTH {
        bytes.len()
    } else {
        MAX_NAME_LENGTH
    };
    let first_pos = match last_index_before(&bytes, width, HASH) {
        Some(hash) => hash + 1,
        None => {
            return Err(AuctionContractError::MetadataManipulationError);
        },
    };
    let last_pos = first_index_between(&bytes, first_pos, width, NUL);
    let integer = match parse_counter_in(&bytes, first_pos, last_pos) {
        Some(integer) => integer,
        None => {
            return Err(AuctionContractError::MetadataManipulationError);
        },
    };
    let replacement: u64 = if is_last_cycle {
        0
    } else {
        match integer.checked_add(1) {
            Some(incremented_integer) => incremented_integer,
            None => {
                return Err(AuctionContractError::ArithmeticError);
            },
        }
    };
    let mut renamed: Vec<u8> = Vec::new();
    push_range(&bytes, 0, first_pos, &mut renamed);
    push_decimal(replacement, &mut renamed);
    proof {
        let text = bytes@;
        let counter = text.subrange(first_pos as int, last_pos as int);
        let digits = decimal_digits(replacement as nat);
        encode_utf8_valid_utf8(old(string)@);
        lemma_counter_is_plain(counter);
        assert(counter[0] == text[first_pos as int]);
        lemma_decimal_digits_denote(replacement as nat);
        lemma_replaced_is_utf8(text, first_pos as int, first_pos as int, first_pos as int, digits);
        assert(renamed@ =~= text.take(first_pos as int) + digits);
        assert(renamed@ =~= text.take(first_pos as int) + digits + text.subrange(
            first_pos as int,
            first_pos as int,
        ));
    }
    match string_from_utf8(renamed) {
        Some(renamed) => {
            *string = renamed;
            Ok(())
        },
        None => Err(AuctionContractError::MetadataManipulationError),
    }
}

/// Advances the counter in a reward's address by one, or sets it to zero
/// when `is_last_cycle` holds, and drops the padding.
///
/// The counter is looked for behind the last `/`, up to the first `.` that
/// follows. An address that is rejected is left as it was.
pub fn increment_uri(uri: &mut String, is_last_cycle: bool) -> (result: Result<
    (),
    AuctionContractError,
>)
    ensures
        match incremented_uri(encode_utf8(old(uri)@), is_last_cycle) {
            Ok(bytes) => result is Ok && encode_utf8(final(uri)@) == bytes,
            Err(error) => result == Err::<(), AuctionContractError>(error) && final(uri)@ == old(
                uri,
            )@,
        },
{
    let bytes = uri.as_str().as_bytes_vec();
    let uri_len = bytes.len();
    let slash_pos = match last_index_before(&bytes, uri_len, SLASH) {
        Some(slash) => slash + 1,
        None => {
            proof {
                assert(bytes@.take(uri_len as int) =~= bytes@);
            }
            return Err(AuctionContractError::MetadataManipulationError);
        },
    };
    let dot_pos = first_index_between(&bytes, slash_pos, uri_len, DOT);
    let last_pos = first_index_between(&bytes, slash_pos, uri_len, NUL);
    proof {
        assert(bytes@.take(uri_len as int) =~= bytes@);
        assert(bytes@.subrange(slash_pos as int, uri_len as int) =~= bytes@.skip(
            slash_pos as int,
        ));
    }
    let integer = match parse_counter_in(&bytes, slash_pos, dot_pos) {
        Some(integer) => integer,
        None => {
            return Err(AuctionContractError::MetadataManipulationError);
        },
    };
    let replacement: u64 = if is_last_cycle {
        0
    } else {
        match integer.checked_add(1) {
            Some(incremented_integer) => incremented_integer,
            None => {
                return Err(AuctionContractError::ArithmeticError);
            },
        }
    };
    proof {
        // no NUL stands inside a counter, so the address ends behind it
        let text = bytes@;
        let tail = text.subrange(slash_pos as int, uri_len as int);
        let counter = text.subrange(slash_pos as int, dot_pos as int);
        lemma_counter_is_plain(counter);
        tail.index_of_first_ensures(NUL);
        tail.index_of_first_ensures(DOT);
        if last_pos < dot_pos {
            assert(tail[last_pos - slash_pos] == NUL);
            assert(counter[last_pos - slash_pos] == NUL);
        }
        assert(counter[0] == text[slash_pos as int]);
        if dot_pos < uri_len {
            assert(tail[dot_pos - slash_pos] == DOT);
        }
        if last_pos < uri_len {
            assert(tail[last_pos - slash_pos] == NUL);
        }
    }
    let mut renamed: Vec<u8> = Vec::new();
    push_range(&bytes, 0, slash_pos, &mut renamed);
    push_decimal(replacement, &mut renamed);
    push_range(&bytes, dot_pos, last_pos, &mut renamed);
    proof {
        let text = bytes@;
        let digits = decimal_digits(replacement as nat);
        encode_utf8_valid_utf8(old(uri)@);
        lemma_decimal_digits_denote(replacement as nat);
        lemma_replaced_is_utf8(text, slash_pos as int, dot_pos as int, last_pos as int, digits);
        assert(renamed@ =~= text.take(slash_pos as int) + digits + text.subrange(
            dot_pos as int,
            last_pos as int,
        ));
    }
    match string_from_utf8(renamed) {
        Some(renamed) => {
            *uri = renamed;
            Ok(())
        },
        None => Err(AuctionContractError::MetadataManipulationError),
    }
}

} // verus!
