//! The shift cipher of the bundled plugin.

use vstd::prelude::*;

verus! {

/// The shift that applies when the plugin's environment names none.
pub const DEFAULT_SHIFT: u8 = 3;

/// Whether `c` is a small ASCII letter.
pub open spec fn is_lower(c: char) -> bool {
    'a' <= c <= 'z'
}

/// Whether `c` is a capital ASCII letter.
pub open spec fn is_upper(c: char) -> bool {
    'A' <= c <= 'Z'
}

/// The letter `shift` places after `c` in its alphabet, wrapping round from
/// `z` to `a`; a character that is no ASCII letter stays as it is.
pub open spec fn rotate(c: char, shift: nat) -> char {
    if is_lower(c) {
        (('a' as int) + ((c as int) - ('a' as int) + shift) % 26) as char
    } else if is_upper(c) {
        (('A' as int) + ((c as int) - ('A' as int) + shift) % 26) as char
    } else {
        c
    }
}

/// `text` with every character rotated by `shift`.
pub open spec fn shifted(text: Seq<char>, shift: nat) -> Seq<char> {
    Seq::new(text.len(), |i: int| rotate(text[i], shift))
}

/// `String::push` appends one character and keeps what the string held.
pub assume_specification[ String::push ](s: &mut String, ch: char)
    ensures
        final(s)@ == old(s)@.push(ch),
;

/// Rotates one character.
pub fn rotate_char(c: char, shift: u8) -> (r: char)
    ensures
        r == rotate(c, shift as nat),
{
    let step: u8 = shift % 26;
    if 'a' <= c && c <= 'z' {
        let offset: u8 = (c as u8) - ('a' as u8);
        let moved: u8 = (offset + step) % 26;
        (('a' as u8) + moved) as char
    } else if 'A' <= c && c <= 'Z' {
        let offset: u8 = (c as u8) - ('A' as u8);
        let moved: u8 = (offset + step) % 26;
        (('A' as u8) + moved) as char
    } else {
        c
    }
}

/// Rotates every ASCII letter of `input` by `shift` places within its own
/// case; every other character is copied.
pub fn shift_string(input: &str, shift: u8) -> (out: String)
    ensures
        out@ == shifted(input@, shift as nat),
{
    let mut out = String::new();
    for c in it: input.chars()
        invariant
            it.seq() == input@,
            out@ == shifted(input@.take(it.index() as int), shift as nat),
    {
        out.push(rotate_char(c, shift));
        assert(out@ =~= shifted(input@.take(it.index() + 1), shift as nat));
    }
    assert(input@.take(input@.len() as int) =~= input@);
    out
}

/// The shift that undoes `shift`.
pub open spec fn inverse(shift: nat) -> nat {
    (26 - shift % 26) as nat
}

/// The shift by which decoding undoes an encoding by `shift`.
pub fn inverse_shift(shift: u8) -> (r: u8)
    ensures
        r == inverse(shift as nat),
        1 <= r <= 26,
{
    26 - shift % 26
}

/// Whether `c` is an ASCII decimal digit.
pub open spec fn is_digit(c: char) -> bool {
    '0' <= c <= '9'
}

/// Whether `text` holds decimal digits only.
pub open spec fn all_digits(text: Seq<char>) -> bool {
    forall|i: int| 0 <= i < text.len() ==> is_digit(#[trigger] text[i])
}

/// The number that a run of decimal digits denotes, most significant digit
/// first.
pub open spec fn decimal_value(digits: Seq<char>) -> nat
    decreases digits.len(),
{
    if digits.len() == 0 {
        0
    } else {
        decimal_value(digits.drop_last()) * 10 + ((digits.last() as int) - ('0' as int)) as nat
    }
}

/// `text` without one leading `+`.
pub open spec fn unsigned_part(text: Seq<char>) -> Seq<char> {
    if text.len() > 0 && text[0] == '+' {
        text.drop_first()
    } else {
        text
    }
}

/// The shift that `text` spells: an optional `+`, then at least one decimal
/// digit and nothing else, denoting a number of at most 255. Any other text
/// spells none.
pub open spec fn parsed_shift(text: Seq<char>) -> Option<u8> {
    let digits = unsigned_part(text);
    if digits.len() > 0 && all_digits(digits) && decimal_value(digits) <= 255 {
        Some(decimal_value(digits) as u8)
    } else {
        None
    }
}

/// The shift that a plugin uses when its environment holds `setting` for the
/// shift amount: the number that the setting spells, and the default where
/// there is no setting or it spells none.
pub open spec fn shift_setting(setting: Option<Seq<char>>) -> u8 {
    match setting {
        Some(text) => match parsed_shift(text) {
            Some(shift) => shift,
            None => DEFAULT_SHIFT,
        },
        None => DEFAULT_SHIFT,
    }
}

/// A run of digits denotes at least what any of its prefixes denotes.
proof fn lemma_decimal_value_grows(digits: Seq<char>, n: int)
    requires
        0 <= n <= digits.len(),
        all_digits(digits),
    ensures
        decimal_value(digits.take(n)) <= decimal_value(digits),
    decreases digits.len(),
{
    if n == digits.len() {
        assert(digits.take(n) =~= digits);
    } else {
        assert(digits.drop_last().take(n) =~= digits.take(n));
        assert(is_digit(digits.last()));
        lemma_decimal_value_grows(digits.drop_last(), n);
    }
}

/// The digits among the first `k` characters of `text`: all of them but a
/// leading sign.
spec fn digits_read(text: Seq<char>, signed: bool, k: int) -> Seq<char> {
    text.subrange(if signed { 1 } else { 0 }, k)
}

/// Reads a shift amount from its decimal spelling.
pub fn parse_shift(text: &str) -> (r: Option<u8>)
    ensures
        r == parsed_shift(text@),
{
    let mut value: u16 = 0;
    let mut at_start = true;
    let mut signed = false;
    let mut any = false;
    for c in it: text.chars()
        invariant
            it.seq() == text@,
            at_start == (it.index() == 0),
            signed == (it.index() > 0 && text@[0] == '+'),
            any == (digits_read(text@, signed, it.index() as int).len() > 0),
            all_digits(digits_read(text@, signed, it.index() as int)),
            value == decimal_value(digits_read(text@, signed, it.index() as int)),
            value <= 255,
    {
        let ghost k = it.index() as int;
        let ghost from = if signed { 1int } else { 0int };
        let ghost seen = digits_read(text@, signed, k);
        if at_start && c == '+' {
            signed = true;
            assert(text@.subrange(1, 1) =~= Seq::<char>::empty());
        } else if '0' <= c && c <= '9' {
            let digit: u16 = ((c as u8) - ('0' as u8)) as u16;
            let next: u16 = value * 10 + digit;
            let ghost grown = text@.subrange(from, k + 1);
            assert(grown.drop_last() =~= seen);
            assert(grown.last() == c);
            if next > 255 {
                proof {
                    let digits = unsigned_part(text@);
                    assert(digits =~= text@.subrange(from, text@.len() as int));
                    if all_digits(digits) {
                        assert(digits.take(k + 1 - from) =~= grown);
                        lemma_decimal_value_grows(digits, k + 1 - from);
                    }
                }
                return None;
            }
            value = next;
            any = true;
        } else {
            proof {
                let digits = unsigned_part(text@);
                assert(digits =~= text@.subrange(from, text@.len() as int));
                assert(digits[k - from] == c);
            }
            return None;
        }
        at_start = false;
    }
    proof {
        let from = if signed { 1int } else { 0int };
        assert(unsigned_part(text@) =~= text@.subrange(from, text@.len() as int));
    }
    if any {
        Some(value as u8)
    } else {
        None
    }
}

/// The shift in force for a plugin whose environment holds `setting` for the
/// shift amount, if it holds any.
pub fn get_shift(setting: Option<&str>) -> (shift: u8)
    ensures
        shift == shift_setting(
            match setting {
                Some(text) => Some(text@),
                None => None,
            },
        ),
{
    match setting {
        Some(text) => match parse_shift(text) {
            Some(shift) => shift,
            None => DEFAULT_SHIFT,
        },
        None => DEFAULT_SHIFT,
    }
}

/// A place in the alphabet that is moved on by a shift and then by the
/// inverse of the shift is where it was.
proof fn lemma_offset_round_trip(offset: int, shift: nat)
    requires
        0 <= offset < 26,
    ensures
        ((offset + shift) % 26 + inverse(shift)) % 26 == offset,
{
    let rest = shift % 26;
    let moved = (offset + shift) % 26;
    let turns = (offset + shift) / 26 - shift / 26;
    assert(shift == 26 * (shift / 26) + rest);
    assert(offset + shift == 26 * ((offset + shift) / 26) + moved);
    assert(moved == offset + rest - 26 * turns);
    assert(turns == 0 || turns == 1);
    assert(moved + inverse(shift) == offset + 26 - 26 * turns);
}

/// Rotating a character by a shift and then by the inverse of that shift
/// gives the character back.
pub proof fn lemma_rotate_round_trip(c: char, shift: nat)
    ensures
        rotate(rotate(c, shift), inverse(shift)) == c,
{
    if is_lower(c) {
        let offset = (c as int) - ('a' as int);
        let moved = (offset + shift) % 26;
        lemma_offset_round_trip(offset, shift);
        assert(rotate(c, shift) as int == ('a' as int) + moved);
        assert(is_lower(rotate(c, shift)));
    } else if is_upper(c) {
        let offset = (c as int) - ('A' as int);
        let moved = (offset + shift) % 26;
        lemma_offset_round_trip(offset, shift);
        assert(rotate(c, shift) as int == ('A' as int) + moved);
        assert(is_upper(rotate(c, shift)));
    }
}

/// Decoding undoes encoding: a text shifted by any amount and then by the
/// inverse of that amount is the text again.
pub proof fn lemma_shift_round_trip(text: Seq<char>, shift: nat)
    ensures
        shifted(shifted(text, shift), inverse(shift)) == text,
{
    assert forall|i: int| 0 <= i < text.len() implies rotate(
        rotate(text[i], shift),
        inverse(shift),
    ) == text[i] by {
        lemma_rotate_round_trip(text[i], shift);
    }
    assert(shifted(shifted(text, shift), inverse(shift)) =~= text);
}

/// A shift in either direction keeps the length of a text and leaves every
/// character that is no ASCII letter where and as it was.
pub proof fn lemma_shift_keeps_other_characters(text: Seq<char>, shift: nat, i: int)
    requires
        0 <= i < text.len(),
        !is_lower(text[i]),
        !is_upper(text[i]),
    ensures
        shifted(text, shift).len() == text.len(),
        shifted(text, shift)[i] == text[i],
        shifted(text, inverse(shift))[i] == text[i],
{
}

} // verus!
