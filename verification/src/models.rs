//! Shared helpers of the data model: identifiers, durations, e-mail and file-name checks.
use vstd::prelude::*;
use crate::text::{
    char_is_control, chars_of, contains_char, decimal, decimal2, digit_char, is_control,
    lemma_decimal_digits, lemma_digits_exclude, lemma_leading_ws_bound, lemma_trim_bounds,
    lemma_trim_idempotent, leading_ws, lemma_parse_decimal, lemma_parse_decimal2,
    lemma_split_append, lemma_split_without_sep, parse_u32, parse_unsigned, push_decimal, push_decimal2, slice_skip, split_chars, split_on, string_of, trim, trim_chars,
    utf8_len,
};

verus! {

// ---------------------------------------------------------------------------
// Identifiers
// ---------------------------------------------------------------------------

/// Lowercase hexadecimal digit for `d` (0..=15).
pub open spec fn hex_lower_char(d: nat) -> char {
    if d < 10 {
        digit_char(d)
    } else if d == 10 {
        'a'
    } else if d == 11 {
        'b'
    } else if d == 12 {
        'c'
    } else if d == 13 {
        'd'
    } else if d == 14 {
        'e'
    } else {
        'f'
    }
}

/// Two lowercase hexadecimal digits of a byte (the rendering of `{:02x}`).
pub open spec fn hex_byte(b: u8) -> Seq<char> {
    seq![hex_lower_char((b / 16) as nat), hex_lower_char((b % 16) as nat)]
}

/// The lowercase hexadecimal text of `bytes`, two digits a byte.
pub open spec fn hex_of(bytes: Seq<u8>) -> Seq<char>
    decreases bytes.len(),
{
    if bytes.len() == 0 {
        Seq::<char>::empty()
    } else {
        hex_of(bytes.drop_last()) + hex_byte(bytes.last())
    }
}

/// The hyphenated lowercase text of a 16-byte UUID (8-4-4-4-12 hex digits).
pub open spec fn uuid_text(b: Seq<u8>) -> Seq<char> {
    hex_of(b.subrange(0, 4)) + seq!['-'] + hex_of(b.subrange(4, 6)) + seq!['-'] + hex_of(
        b.subrange(6, 8),
    ) + seq!['-'] + hex_of(b.subrange(8, 10)) + seq!['-'] + hex_of(b.subrange(10, 16))
}

/// The 16 bytes of a freshly generated random (version 4) UUID: the version
/// nibble is 4 and the variant bits are `10`, as `uuid::Uuid::new_v4` documents.
/// The bytes themselves are random.
#[verifier::external_body]
pub(crate) fn random_uuid_bytes() -> (b: Vec<u8>)
    ensures
        b@.len() == 16,
        b@[6] / 16 == 4,
        b@[8] / 64 == 2,
{
    uuid::Uuid::new_v4().as_bytes().to_vec()
}

fn hex_digit(d: u8) -> (c: char)
    requires
        d < 16,
    ensures
        c == hex_lower_char(d as nat),
{
    if d == 0 {
        '0'
    } else if d == 1 {
        '1'
    } else if d == 2 {
        '2'
    } else if d == 3 {
        '3'
    } else if d == 4 {
        '4'
    } else if d == 5 {
        '5'
    } else if d == 6 {
        '6'
    } else if d == 7 {
        '7'
    } else if d == 8 {
        '8'
    } else if d == 9 {
        '9'
    } else if d == 10 {
        'a'
    } else if d == 11 {
        'b'
    } else if d == 12 {
        'c'
    } else if d == 13 {
        'd'
    } else if d == 14 {
        'e'
    } else {
        'f'
    }
}

/// Appends the lowercase hexadecimal text of `bytes[from..to]` to `v`.
pub fn push_hex(v: &mut Vec<char>, bytes: &[u8], from: usize, to: usize)
    requires
        from <= to <= bytes@.len(),
    ensures
        final(v)@ == old(v)@ + hex_of(bytes@.subrange(from as int, to as int)),
{
    let ghost start = v@;
    let mut i = from;
    while i < to
        invariant
            from <= i <= to <= bytes@.len(),
            v@ == start + hex_of(bytes@.subrange(from as int, i as int)),
        decreases to - i,
    {
        let b = bytes[i];
        v.push(hex_digit(b / 16));
        v.push(hex_digit(b % 16));
        i = i + 1;
        assert(bytes@.subrange(from as int, i as int).drop_last() =~= bytes@.subrange(
            from as int,
            i - 1 as int,
        ));
        assert(v@ =~= start + hex_of(bytes@.subrange(from as int, i as int)));
    }
}

/// A new random identifier: a version 4 UUID in its hyphenated lowercase form.
pub fn generate_id() -> (id: String)
    ensures
        exists|b: Seq<u8>| b.len() == 16 && b[6] / 16 == 4 && b[8] / 64 == 2 && id@ == uuid_text(b),
{
    let b = random_uuid_bytes();
    let mut v: Vec<char> = Vec::new();
    push_hex(&mut v, &b, 0, 4);
    v.push('-');
    push_hex(&mut v, &b, 4, 6);
    v.push('-');
    push_hex(&mut v, &b, 6, 8);
    v.push('-');
    push_hex(&mut v, &b, 8, 10);
    v.push('-');
    push_hex(&mut v, &b, 10, 16);
    assert(v@ =~= uuid_text(b@));
    string_of(&v)
}

// ---------------------------------------------------------------------------
// Durations
// ---------------------------------------------------------------------------

/// `M:SS` below an hour, `H:MM:SS` from an hour on.
pub open spec fn duration_text(seconds: nat) -> Seq<char> {
    let hours = seconds / 3600;
    let minutes = (seconds % 3600) / 60;
    let secs = seconds % 60;
    if hours > 0 {
        decimal(hours) + seq![':'] + decimal2(minutes) + seq![':'] + decimal2(secs)
    } else {
        decimal(minutes) + seq![':'] + decimal2(secs)
    }
}

/// Convert duration in seconds to a human-readable format (`1:05`, `1:01:05`).
pub fn format_duration(seconds: u32) -> (r: String)
    ensures
        r@ == duration_text(seconds as nat),
{
    let hours = seconds / 3600;
    let minutes = (seconds % 3600) / 60;
    let secs = seconds % 60;
    let mut v: Vec<char> = Vec::new();
    if hours > 0 {
        push_decimal(&mut v, hours as u64);
        v.push(':');
        push_decimal2(&mut v, minutes as u64);
        v.push(':');
        push_decimal2(&mut v, secs as u64);
    } else {
        push_decimal(&mut v, minutes as u64);
        v.push(':');
        push_decimal2(&mut v, secs as u64);
    }
    assert(v@ =~= duration_text(seconds as nat));
    string_of(&v)
}

/// The number of seconds that `MM:SS` or `HH:MM:SS` stands for, before any
/// bound on the result; `None` when the text has another shape or a part is
/// not a `u32`.
pub open spec fn duration_value(s: Seq<char>) -> Option<nat> {
    let parts = split_on(s, ':');
    if parts.len() == 2 {
        match (parse_unsigned(parts[0], u32::MAX as nat), parse_unsigned(parts[1], u32::MAX as nat)) {
            (Some(m), Some(sec)) => Some(m * 60 + sec),
            _ => None,
        }
    } else if parts.len() == 3 {
        match (
            parse_unsigned(parts[0], u32::MAX as nat),
            parse_unsigned(parts[1], u32::MAX as nat),
            parse_unsigned(parts[2], u32::MAX as nat),
        ) {
            (Some(h), Some(m), Some(sec)) => Some(h * 3600 + m * 60 + sec),
            _ => None,
        }
    } else {
        None
    }
}

/// Reading back a formatted duration gives the number of seconds it was
/// formatted from: `parse_duration(format_duration(s)) == Some(s)` for every
/// `u32` number of seconds.
pub proof fn duration_round_trip(seconds: nat)
    requires
        seconds <= u32::MAX,
    ensures
        duration_value(duration_text(seconds)) == Some(seconds),
{
    let max = u32::MAX as nat;
    let hours = seconds / 3600;
    let minutes = (seconds % 3600) / 60;
    let secs = seconds % 60;
    lemma_parse_decimal2(minutes, max);
    lemma_parse_decimal2(secs, max);
    lemma_digits_exclude(decimal2(minutes), ':');
    lemma_digits_exclude(decimal2(secs), ':');
    if hours > 0 {
        lemma_parse_decimal(hours, max);
        lemma_decimal_digits(hours);
        lemma_digits_exclude(decimal(hours), ':');
        lemma_split_without_sep(decimal(hours), ':');
        lemma_split_append(decimal(hours), ':', decimal2(minutes));
        lemma_split_append(decimal(hours) + seq![':'] + decimal2(minutes), ':', decimal2(secs));
        let parts = split_on(duration_text(seconds), ':');
        assert(parts =~= seq![decimal(hours), decimal2(minutes), decimal2(secs)]);
    } else {
        lemma_parse_decimal(minutes, max);
        lemma_decimal_digits(minutes);
        lemma_digits_exclude(decimal(minutes), ':');
        lemma_split_without_sep(decimal(minutes), ':');
        lemma_split_append(decimal(minutes), ':', decimal2(secs));
        let parts = split_on(duration_text(seconds), ':');
        assert(parts =~= seq![decimal(minutes), decimal2(secs)]);
    }
}

/// Parse duration string (MM:SS or HH:MM:SS) to seconds.
pub fn parse_duration(duration_str: &str) -> (r: Option<u32>)
    requires
        duration_value(duration_str@) matches Some(v) ==> v <= u32::MAX,
    ensures
        match duration_value(duration_str@) {
            Some(v) => r == Some(v as u32),
            None => r is None,
        },
{
    let cs = chars_of(duration_str);
    let parts = split_chars(&cs, ':');
    let ghost sp = split_on(duration_str@, ':');
    assert(parts@.len() == sp.len());
    if parts.len() == 2 {
        assert(parts@[0]@ == sp[0] && parts@[1]@ == sp[1]);
        let minutes = match parse_u32(&parts[0]) {
            Some(m) => m,
            None => return None,
        };
        let seconds = match parse_u32(&parts[1]) {
            Some(s) => s,
            None => return None,
        };
        Some(minutes * 60 + seconds)
    } else if parts.len() == 3 {
        assert(parts@[0]@ == sp[0] && parts@[1]@ == sp[1] && parts@[2]@ == sp[2]);
        let hours = match parse_u32(&parts[0]) {
            Some(h) => h,
            None => return None,
        };
        let minutes = match parse_u32(&parts[1]) {
            Some(m) => m,
            None => return None,
        };
        let seconds = match parse_u32(&parts[2]) {
            Some(s) => s,
            None => return None,
        };
        Some(hours * 3600 + minutes * 60 + seconds)
    } else {
        None
    }
}

// ---------------------------------------------------------------------------
// E-mail addresses and file names
// ---------------------------------------------------------------------------

/// An address has an `@` with something before it, holds a `.` and is
/// longer than five bytes.
pub open spec fn email_plausible(s: Seq<char>) -> bool {
    s.len() > 0 && s.skip(1).contains('@') && s.contains('.') && utf8_len(s) > 5
}

/// Validate email address format.
pub fn is_valid_email(email: &str) -> (r: bool)
    ensures
        r == email_plausible(email@),
{
    let cs = chars_of(email);
    if cs.len() == 0 {
        return false;
    }
    let rest = slice_skip(&cs, 1);
    contains_char(rest, '@') && contains_char(&cs, '.') && email.as_bytes().len() > 5
}

/// Whether `c` may not stand in a file name.
pub open spec fn forbidden_in_filename(c: char) -> bool {
    c == '/' || c == '\\' || c == ':' || c == '*' || c == '?' || c == '"' || c == '<' || c
        == '>' || c == '|' || is_control(c)
}

/// `c`, or `_` where it may not stand in a file name.
pub open spec fn filename_char(c: char) -> char {
    if forbidden_in_filename(c) {
        '_'
    } else {
        c
    }
}

/// Every forbidden character replaced by `_`, then surrounding whitespace trimmed.
pub open spec fn sanitized_filename(s: Seq<char>) -> Seq<char> {
    trim(s.map_values(|c: char| filename_char(c)))
}

/// A sanitized name holds no character that may not stand in a file name.
pub proof fn sanitized_filename_is_safe(name: Seq<char>)
    ensures
        forall|i: int|
            0 <= i < sanitized_filename(name).len() ==> !forbidden_in_filename(
                #[trigger] sanitized_filename(name)[i],
            ),
{
    let mapped = name.map_values(|c: char| filename_char(c));
    lemma_trim_bounds(mapped);
    lemma_leading_ws_bound(mapped);
    assert forall|i: int|
        0 <= i < sanitized_filename(name).len() implies !forbidden_in_filename(
        #[trigger] sanitized_filename(name)[i],
    ) by {
        let a = leading_ws(mapped);
        assert(a < mapped.len());
        assert(sanitized_filename(name)[i] == mapped[a + i]);
        assert(mapped[a + i] == filename_char(name[a + i]));
    }
}

/// Sanitizing a sanitized name leaves it as it is.
pub proof fn sanitize_filename_idempotent(name: Seq<char>)
    ensures
        sanitized_filename(sanitized_filename(name)) == sanitized_filename(name),
{
    let once = sanitized_filename(name);
    sanitized_filename_is_safe(name);
    let remapped = once.map_values(|c: char| filename_char(c));
    assert(remapped =~= once);
    lemma_trim_idempotent(name.map_values(|c: char| filename_char(c)));
}

/// Sanitize string for use in file paths.
pub fn sanitize_filename(name: &str) -> (r: String)
    ensures
        r@ == sanitized_filename(name@),
{
    let cs = chars_of(name);
    let mut mapped: Vec<char> = Vec::new();
    let mut i: usize = 0;
    while i < cs.len()
        invariant
            i <= cs@.len(),
            cs@ == name@,
            mapped@ =~= cs@.subrange(0, i as int).map_values(|c: char| filename_char(c)),
        decreases cs@.len() - i,
    {
        let c = cs[i];
        let forbidden = c == '/' || c == '\\' || c == ':' || c == '*' || c == '?' || c == '"' || c
            == '<' || c == '>' || c == '|' || char_is_control(c);
        if forbidden {
            mapped.push('_');
        } else {
            mapped.push(c);
        }
        i = i + 1;
    }
    assert(cs@.subrange(0, cs@.len() as int) =~= cs@);
    let t = trim_chars(&mapped);
    string_of(&t)
}

} // verus!
