//! What only chance and the clock can give.
//!
//! Whether a value was drawn at random, or read from the clock, cannot be told from the value. So what
//! these predicates are made of stays within this module: elsewhere they hold only of what the random
//! source and the clock themselves hand out, and the laws say what else is known of it.
use crate::clock::Timestamp;
use vstd::prelude::*;

verus! {

/// Whether a character is a hexadecimal digit in lower case.
pub open spec fn is_hex(c: char) -> bool {
    '0' <= c <= '9' || 'a' <= c <= 'f'
}

/// Whether a text is a key that the random source has handed out.
pub closed spec fn is_random_key(key: Seq<char>) -> bool {
    &&& key.len() == 36
    &&& forall|i: int|
        0 <= i < 36 ==> if i == 8 || i == 13 || i == 18 || i == 23 {
            #[trigger] key[i] == '-'
        } else {
            is_hex(key[i])
        }
    &&& key[14] == '4'
    &&& key[19] == '8' || key[19] == '9' || key[19] == 'a' || key[19] == 'b'
}

/// A random key is a version 4 UUID in its hyphenated form: 32 hexadecimal digits in groups of 8, 4,
/// 4, 4 and 12, of which the first of the third group is a 4. That a text has this form does not make
/// it a random key.
pub proof fn random_key_has_its_form(key: Seq<char>)
    requires
        is_random_key(key),
    ensures
        key.len() == 36,
        key[8] == '-' && key[13] == '-' && key[18] == '-' && key[23] == '-',
        key[14] == '4',
        key[19] == '8' || key[19] == '9' || key[19] == 'a' || key[19] == 'b',
        forall|i: int|
            0 <= i < 36 && i != 8 && i != 13 && i != 18 && i != 23 ==> is_hex(#[trigger] key[i]),
{
    assert forall|i: int| 0 <= i < 36 && i != 8 && i != 13 && i != 18 && i != 23 implies is_hex(#[trigger] key[i]) by {
    }
}

/// Whether an instant is one that the calendar clock has given.
pub closed spec fn is_clock_reading(t: Timestamp) -> bool {
    0 <= t.secs <= 8_210_266_876_799 && t.nanos < 1_000_000_000
}

/// What the calendar clock gives is at or after the Unix epoch, and within the calendar.
pub proof fn clock_reading_is_in_the_calendar(t: Timestamp)
    requires
        is_clock_reading(t),
    ensures
        0 <= t.secs <= 8_210_266_876_799,
        t.nanos < 1_000_000_000,
{
}

/// Whether an answer is one that the machine's clock has given when asked for the nanoseconds past the
/// last whole second since the Unix epoch; none is its answer where it is set before the epoch.
pub closed spec fn is_nanos_reading(answer: Option<u32>) -> bool {
    answer matches Some(n) ==> n < 1_000_000_000
}

/// The nanoseconds past a second are fewer than those of a second.
pub proof fn nanos_reading_is_below_a_second(answer: Option<u32>)
    requires
        is_nanos_reading(answer),
    ensures
        answer matches Some(n) ==> n < 1_000_000_000,
{
}

} // verus!
