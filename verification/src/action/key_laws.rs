//! What holds of every key stream the encoders can produce.

use vstd::prelude::*;

use crate::action::key::{
    blank_key, character_bytes, character_part, chord_bytes, message_bytes, message_empty,
    message_push, message_supported, plain_key, shifted_key, text_bytes,
};
use crate::action::key_map::{codes_avoid_flush, press_and_release_ranges, KeyCode};
use crate::FLUSH;

verus! {

/// How many bytes of a key stream say that a key goes down.
pub open spec fn press_count(bytes: Seq<u8>) -> nat
    decreases bytes.len(),
{
    if bytes.len() == 0 {
        0
    } else {
        press_count(bytes.drop_last()) + if bytes.last() < 128 {
            1nat
        } else {
            0nat
        }
    }
}

/// How many bytes of a key stream say that a key comes up.
pub open spec fn release_count(bytes: Seq<u8>) -> nat
    decreases bytes.len(),
{
    if bytes.len() == 0 {
        0
    } else {
        release_count(bytes.drop_last()) + if bytes.last() >= 128 {
            1nat
        } else {
            0nat
        }
    }
}

/// A character belongs to one row of the table at most: it is plain, or
/// shifted, or a blank, never two of these.
pub proof fn character_has_one_row(c: char)
    ensures
        !(plain_key(c) is Some && shifted_key(c) is Some),
        !(plain_key(c) is Some && blank_key(c) is Some),
        !(shifted_key(c) is Some && blank_key(c) is Some),
{
}

/// Within a row no key is given to two characters, but for Enter, which
/// both line ends strike.
pub proof fn key_has_one_character(a: char, b: char)
    requires
        a != b,
    ensures
        plain_key(a) is Some ==> plain_key(a) != plain_key(b),
        shifted_key(a) is Some ==> shifted_key(a) != shifted_key(b),
        blank_key(a) is Some && blank_key(a) == blank_key(b) ==> blank_key(a) == Some(
            KeyCode::Enter,
        ),
{
}

/// The key a character is typed with is the same plain and shifted: the
/// shifted row holds the upper-case letter of each lower-case one.
pub proof fn letters_share_their_key(lower: char, upper: char)
    requires
        'a' <= lower <= 'z',
        upper as int == lower as int - 32,
    ensures
        plain_key(lower) is Some,
        shifted_key(upper) == plain_key(lower),
{
}

/// A chord of two keys presses the first, then the second, and releases the
/// second before the first.
pub proof fn chord_of_two(a: KeyCode, b: KeyCode)
    ensures
        chord_bytes(seq![a, b]) == seq![
            a.press_code(),
            b.press_code(),
            b.release_code(),
            a.release_code(),
        ],
{
}

/// Two keys typed as text: the first is pressed and released, then the
/// second.
pub proof fn text_of_two(a: KeyCode, b: KeyCode)
    ensures
        text_bytes(seq![a, b]) == seq![
            a.press_code(),
            a.release_code(),
            b.press_code(),
            b.release_code(),
        ],
{
}

/// The first half of a chord is the press bytes in the order of the keys;
/// the second half is their release bytes in the opposite order.
pub proof fn chord_halves(keys: Seq<KeyCode>)
    ensures
        chord_bytes(keys).len() == 2 * keys.len(),
        chord_bytes(keys).take(keys.len() as int) == keys.map_values(
            |k: KeyCode| k.press_code(),
        ),
        chord_bytes(keys).skip(keys.len() as int) == keys.reverse().map_values(
            |k: KeyCode| k.release_code(),
        ),
{
}

/// Text gives two bytes for each key: its press, then at once its release.
pub proof fn text_pairs(keys: Seq<KeyCode>, i: int)
    requires
        0 <= i < keys.len(),
    ensures
        text_bytes(keys).len() == 2 * keys.len(),
        text_bytes(keys)[2 * i] == keys[i].press_code(),
        text_bytes(keys)[2 * i + 1] == keys[i].release_code(),
{
}

/// One key alone sends the same two bytes as text and as a chord.
pub proof fn single_key(key: KeyCode)
    ensures
        text_bytes(seq![key]) == seq![key.press_code(), key.release_code()],
        chord_bytes(seq![key]) == text_bytes(seq![key]),
{
}

/// A message of one character is that character's bytes.
pub proof fn message_of_one(c: char)
    ensures
        message_supported(seq![c]) <==> character_bytes(c) is Some,
        message_bytes(seq![c]) == character_part(c),
{
    message_empty();
    message_push(Seq::empty(), c);
    assert(Seq::<char>::empty().push(c) == seq![c]);
}

/// A message of lower-case letters can always be typed, and takes two bytes
/// for each letter: one press and one release.
pub proof fn lower_case_message_length(text: Seq<char>)
    requires
        forall|i: int| 0 <= i < text.len() ==> 'a' <= #[trigger] text[i] <= 'z',
    ensures
        message_supported(text),
        message_bytes(text).len() == 2 * text.len(),
    decreases text.len(),
{
    if text.len() == 0 {
        message_empty();
        assert(text == Seq::<char>::empty());
    } else {
        let front = text.drop_last();
        let c = text.last();
        assert(text == front.push(c));
        assert forall|i: int| 0 <= i < front.len() implies 'a' <= #[trigger] front[i] <= 'z' by {
            assert(front[i] == text[i]);
        }
        lower_case_message_length(front);
        message_push(front, c);
        assert(plain_key(c) is Some);
    }
}

/// No byte of typed text is the flush byte.
pub proof fn text_avoids_flush(keys: Seq<KeyCode>)
    ensures
        !text_bytes(keys).contains(FLUSH),
{
    assert forall|i: int| 0 <= i < text_bytes(keys).len() implies text_bytes(keys)[i]
        != FLUSH by {
        codes_avoid_flush(keys[i / 2]);
    }
}

/// No byte of a chord is the flush byte.
pub proof fn chord_avoids_flush(keys: Seq<KeyCode>)
    ensures
        !chord_bytes(keys).contains(FLUSH),
{
    assert forall|i: int| 0 <= i < chord_bytes(keys).len() implies chord_bytes(keys)[i]
        != FLUSH by {
        if i < keys.len() {
            codes_avoid_flush(keys[i]);
        } else {
            codes_avoid_flush(keys[2 * keys.len() - 1 - i]);
        }
    }
}

/// No byte of a message is the flush byte, whatever the text.
pub proof fn message_avoids_flush(text: Seq<char>)
    ensures
        !message_bytes(text).contains(FLUSH),
    decreases text.len(),
{
    if text.len() == 0 {
        message_empty();
        assert(text == Seq::<char>::empty());
    } else {
        let front = text.drop_last();
        let c = text.last();
        assert(text == front.push(c));
        message_avoids_flush(front);
        message_push(front, c);
        if let Some(key) = plain_key(c) {
            text_avoids_flush(seq![key]);
        } else if let Some(key) = shifted_key(c) {
            chord_avoids_flush(seq![KeyCode::Shift, key]);
        } else if let Some(key) = blank_key(c) {
            chord_avoids_flush(seq![key]);
        }
    }
}

/// Counting over two streams laid end to end is counting over each.
proof fn lemma_counts_add(a: Seq<u8>, b: Seq<u8>)
    ensures
        press_count(a + b) == press_count(a) + press_count(b),
        release_count(a + b) == release_count(a) + release_count(b),
    decreases b.len(),
{
    if b.len() == 0 {
        assert(a + b == a);
    } else {
        assert((a + b).drop_last() == a + b.drop_last());
        lemma_counts_add(a, b.drop_last());
    }
}

/// The counts of a stream of one byte.
proof fn lemma_counts_one(byte: u8)
    ensures
        press_count(seq![byte]) == if byte < 128 {
            1nat
        } else {
            0nat
        },
        release_count(seq![byte]) == if byte >= 128 {
            1nat
        } else {
            0nat
        },
{
    assert(seq![byte].drop_last() == Seq::<u8>::empty());
    assert(press_count(seq![byte].drop_last()) == 0);
    assert(release_count(seq![byte].drop_last()) == 0);
}

/// Typed text presses every key once and releases every key once.
pub proof fn text_is_balanced(keys: Seq<KeyCode>)
    ensures
        press_count(text_bytes(keys)) == keys.len(),
        release_count(text_bytes(keys)) == keys.len(),
    decreases keys.len(),
{
    if keys.len() == 0 {
        assert(text_bytes(keys) == Seq::<u8>::empty());
    } else {
        let front = keys.drop_last();
        let key = keys.last();
        text_is_balanced(front);
        press_and_release_ranges(key);
        lemma_counts_one(key.press_code());
        lemma_counts_one(key.release_code());
        lemma_counts_add(text_bytes(front), seq![key.press_code()]);
        lemma_counts_add(text_bytes(front) + seq![key.press_code()], seq![key.release_code()]);
        assert(text_bytes(keys) == text_bytes(front) + seq![key.press_code()] + seq![
            key.release_code(),
        ]);
    }
}

/// A chord presses every key once and releases every key once.
pub proof fn chord_is_balanced(keys: Seq<KeyCode>)
    ensures
        press_count(chord_bytes(keys)) == keys.len(),
        release_count(chord_bytes(keys)) == keys.len(),
    decreases keys.len(),
{
    if keys.len() == 0 {
        assert(chord_bytes(keys) == Seq::<u8>::empty());
    } else {
        let inner = keys.drop_first();
        let key = keys.first();
        chord_is_balanced(inner);
        press_and_release_ranges(key);
        lemma_counts_one(key.press_code());
        lemma_counts_one(key.release_code());
        lemma_counts_add(seq![key.press_code()], chord_bytes(inner));
        lemma_counts_add(seq![key.press_code()] + chord_bytes(inner), seq![key.release_code()]);
        assert(chord_bytes(keys) == seq![key.press_code()] + chord_bytes(inner) + seq![
            key.release_code(),
        ]);
    }
}

/// In every message as many keys go down as come up: no key is left held.
pub proof fn message_is_balanced(text: Seq<char>)
    ensures
        press_count(message_bytes(text)) == release_count(message_bytes(text)),
    decreases text.len(),
{
    if text.len() == 0 {
        message_empty();
        assert(text == Seq::<char>::empty());
    } else {
        let front = text.drop_last();
        let c = text.last();
        assert(text == front.push(c));
        message_is_balanced(front);
        message_push(front, c);
        lemma_counts_add(message_bytes(front), character_part(c));
        if let Some(key) = plain_key(c) {
            text_is_balanced(seq![key]);
        } else if let Some(key) = shifted_key(c) {
            chord_is_balanced(seq![KeyCode::Shift, key]);
        } else if let Some(key) = blank_key(c) {
            chord_is_balanced(seq![key]);
        }
    }
}

} // verus!
