//! Character-level building blocks shared by the rest of the library:
//! decimal rendering and parsing of integers, splitting, searching and
//! trimming, all stated over `Seq<char>`.
use vstd::prelude::*;

verus! {

// ---------------------------------------------------------------------------
// Conversions between strings and character vectors
// ---------------------------------------------------------------------------

/// The characters of `s`, in order (std `str::chars` collected into a `Vec`).
#[verifier::external_body]
pub(crate) fn chars_of(s: &str) -> (v: Vec<char>)
    ensures
        v@ == s@,
{
    s.chars().collect()
}

/// The string made of the characters `v`, in order (std `FromIterator<char> for String`).
#[verifier::external_body]
pub(crate) fn string_of(v: &[char]) -> (s: String)
    ensures
        s@ == v@,
{
    v.iter().collect()
}

/// An owned copy of `s`.
pub fn owned(s: &str) -> (r: String)
    ensures
        r@ == s@,
{
    s.to_owned()
}

/// Appends the characters of `s` to `v`.
pub fn push_str_chars(v: &mut Vec<char>, s: &str)
    ensures
        final(v)@ == old(v)@ + s@,
{
    let cs = chars_of(s);
    push_all(v, &cs);
}

/// The texts of `parts`, one after the other.
pub open spec fn concat(parts: Seq<&str>) -> Seq<char> {
    parts.map_values(|p: &str| p@).flatten()
}

/// `concat` of two, three, four and five parts.
pub proof fn lemma_concat(a: &str, b: &str, c: &str, d: &str, e: &str)
    ensures
        concat(seq![a, b]) == a@ + b@,
        concat(seq![a, b, c]) == a@ + b@ + c@,
        concat(seq![a, b, c, d]) == a@ + b@ + c@ + d@,
        concat(seq![a, b, c, d, e]) == a@ + b@ + c@ + d@ + e@,
{
    reveal_with_fuel(Seq::<Seq<char>>::flatten, 6);
    assert(seq![a, b].map_values(|p: &str| p@) =~= seq![a@, b@]);
    assert(seq![a, b, c].map_values(|p: &str| p@) =~= seq![a@, b@, c@]);
    assert(seq![a, b, c, d].map_values(|p: &str| p@) =~= seq![a@, b@, c@, d@]);
    assert(seq![a, b, c, d, e].map_values(|p: &str| p@) =~= seq![a@, b@, c@, d@, e@]);
    assert(seq![b@].drop_first() =~= Seq::<Seq<char>>::empty());
    assert(seq![a@, b@].drop_first() =~= seq![b@]);
    assert(seq![a@, b@, c@].drop_first() =~= seq![b@, c@]);
    assert(seq![b@, c@].drop_first() =~= seq![c@]);
    assert(seq![c@].drop_first() =~= Seq::<Seq<char>>::empty());
    assert(seq![a@, b@, c@, d@].drop_first() =~= seq![b@, c@, d@]);
    assert(seq![b@, c@, d@].drop_first() =~= seq![c@, d@]);
    assert(seq![c@, d@].drop_first() =~= seq![d@]);
    assert(seq![d@].drop_first() =~= Seq::<Seq<char>>::empty());
    assert(seq![a@, b@, c@, d@, e@].drop_first() =~= seq![b@, c@, d@, e@]);
    assert(seq![b@, c@, d@, e@].drop_first() =~= seq![c@, d@, e@]);
    assert(seq![c@, d@, e@].drop_first() =~= seq![d@, e@]);
    assert(seq![d@, e@].drop_first() =~= seq![e@]);
    assert(seq![e@].drop_first() =~= Seq::<Seq<char>>::empty());
    assert(b@ + Seq::<char>::empty() =~= b@);
    assert(c@ + Seq::<char>::empty() =~= c@);
    assert(d@ + Seq::<char>::empty() =~= d@);
    assert(e@ + Seq::<char>::empty() =~= e@);
    assert(a@ + (b@ + c@) =~= a@ + b@ + c@);
    assert(b@ + (c@ + d@) =~= b@ + c@ + d@);
    assert(a@ + (b@ + c@ + d@) =~= a@ + b@ + c@ + d@);
    assert(c@ + (d@ + e@) =~= c@ + d@ + e@);
    assert(b@ + (c@ + d@ + e@) =~= b@ + c@ + d@ + e@);
    assert(a@ + (b@ + c@ + d@ + e@) =~= a@ + b@ + c@ + d@ + e@);
}

/// The concatenation of `parts`.
pub fn join(parts: &[&str]) -> (r: String)
    ensures
        r@ == concat(parts@),
{
    let mut v: Vec<char> = Vec::new();
    let mut i: usize = 0;
    while i < parts.len()
        invariant
            i <= parts@.len(),
            v@ == concat(parts@.subrange(0, i as int)),
        decreases parts@.len() - i,
    {
        proof {
            let pre = parts@.subrange(0, i as int).map_values(|p: &str| p@);
            assert(parts@.subrange(0, i + 1).map_values(|p: &str| p@) =~= pre.push(parts@[i as int]@));
            pre.lemma_flatten_push(parts@[i as int]@);
        }
        push_str_chars(&mut v, parts[i]);
        i = i + 1;
    }
    assert(parts@.subrange(0, parts@.len() as int) =~= parts@);
    string_of(&v)
}

/// The texts of a list of strings.
pub open spec fn texts(v: Seq<String>) -> Seq<Seq<char>> {
    v.map_values(|x: String| x@)
}

/// Appends an owned copy of `s` to `v`.
pub fn push_string(v: &mut Vec<String>, s: &str)
    ensures
        texts(final(v)@) == texts(old(v)@).push(s@),
        final(v)@.len() == old(v)@.len() + 1,
        forall|i: int| 0 <= i < old(v)@.len() ==> final(v)@[i] == old(v)@[i],
        final(v)@[old(v)@.len() as int]@ == s@,
{
    let ghost before = v@;
    v.push(owned(s));
    assert(texts(v@) =~= texts(before).push(s@));
}

/// The texts of a list of name-value pairs.
pub open spec fn pair_texts(v: Seq<(String, String)>) -> Seq<(Seq<char>, Seq<char>)> {
    v.map_values(|p: (String, String)| (p.0@, p.1@))
}

/// Appends the pair `(k, val)` to `v`.
pub fn push_pair(v: &mut Vec<(String, String)>, k: &str, val: &str)
    ensures
        pair_texts(final(v)@) == pair_texts(old(v)@).push((k@, val@)),
{
    let ghost before = v@;
    v.push((owned(k), owned(val)));
    assert(pair_texts(v@) =~= pair_texts(before).push((k@, val@)));
}

/// `parts` with `sep` between each two.
pub open spec fn joined(parts: Seq<Seq<char>>, sep: Seq<char>) -> Seq<char>
    decreases parts.len(),
{
    if parts.len() == 0 {
        Seq::empty()
    } else if parts.len() == 1 {
        parts[0]
    } else {
        joined(parts.drop_last(), sep) + sep + parts.last()
    }
}

/// The first `count` of `parts` joined with `sep` (std `join` on a prefix).
pub fn join_texts(parts: &Vec<String>, count: usize, sep: &str) -> (r: String)
    requires
        count <= parts@.len(),
    ensures
        r@ == joined(texts(parts@).take(count as int), sep@),
{
    let mut v: Vec<char> = Vec::new();
    let mut i: usize = 0;
    let sv = chars_of(sep);
    while i < count
        invariant
            i <= count <= parts@.len(),
            sv@ == sep@,
            v@ == joined(texts(parts@).take(i as int), sep@),
        decreases count - i,
    {
        let ghost pre = texts(parts@).take(i as int);
        let ghost next = texts(parts@).take(i + 1);
        proof {
            assert(next.drop_last() =~= pre);
            assert(next.last() == parts@[i as int]@);
        }
        if i > 0 {
            push_all(&mut v, &sv);
        } else {
            assert(pre.len() == 0);
        }
        let cs = chars_of(parts[i].as_str());
        push_all(&mut v, &cs);
        proof {
            assert(v@ =~= joined(next, sep@));
        }
        i = i + 1;
    }
    string_of(&v)
}

/// Appends all of `w` to `v`.
pub fn push_all(v: &mut Vec<char>, w: &[char])
    ensures
        final(v)@ == old(v)@ + w@,
{
    let ghost start = v@;
    let mut i: usize = 0;
    while i < w.len()
        invariant
            i <= w@.len(),
            v@ == start + w@.subrange(0, i as int),
        decreases w@.len() - i,
    {
        v.push(w[i]);
        i = i + 1;
        assert(w@.subrange(0, i as int) =~= w@.subrange(0, i - 1 as int).push(w@[i - 1]));
    }
    assert(w@.subrange(0, w@.len() as int) =~= w@);
}

// ---------------------------------------------------------------------------
// Decimal digits
// ---------------------------------------------------------------------------

/// The ASCII digit for `d` (0..=9).
pub open spec fn digit_char(d: nat) -> char {
    if d == 0 {
        '0'
    } else if d == 1 {
        '1'
    } else if d == 2 {
        '2'
    } else if d == 3 {
        '3'
    } else if d == 4 {
        '4'
    } else if d == 5 {
        '5'
    } else if d == 6 {
        '6'
    } else if d == 7 {
        '7'
    } else if d == 8 {
        '8'
    } else {
        '9'
    }
}

/// Whether `c` is an ASCII decimal digit.
pub open spec fn is_digit(c: char) -> bool {
    '0' <= c && c <= '9'
}

/// The value of the ASCII digit `c`.
pub open spec fn digit_value(c: char) -> nat {
    ((c as int) - ('0' as int)) as nat
}

/// The decimal representation of `n`, without leading zeros.
pub open spec fn decimal(n: nat) -> Seq<char>
    decreases n,
{
    if n < 10 {
        seq![digit_char(n)]
    } else {
        decimal(n / 10).push(digit_char(n % 10))
    }
}

/// The decimal representation of a signed number (a leading `-` when negative).
pub open spec fn signed_decimal(n: int) -> Seq<char> {
    if n < 0 {
        seq!['-'] + decimal((-n) as nat)
    } else {
        decimal(n as nat)
    }
}

/// The decimal representation of `n`, left-padded with `0` to at least two characters
/// (the rendering of `{:02}`).
pub open spec fn decimal2(n: nat) -> Seq<char> {
    if n < 10 {
        seq!['0', digit_char(n)]
    } else {
        decimal(n)
    }
}

pub fn digit_to_char(d: u64) -> (c: char)
    requires
        d < 10,
    ensures
        c == digit_char(d as nat),
{
    if d == 0 {
        '0'
    } else if d == 1 {
        '1'
    } else if d == 2 {
        '2'
    } else if d == 3 {
        '3'
    } else if d == 4 {
        '4'
    } else if d == 5 {
        '5'
    } else if d == 6 {
        '6'
    } else if d == 7 {
        '7'
    } else if d == 8 {
        '8'
    } else {
        '9'
    }
}

/// Appends the decimal representation of `n` to `v`.
pub fn push_decimal(v: &mut Vec<char>, n: u64)
    ensures
        final(v)@ == old(v)@ + decimal(n as nat),
    decreases n,
{
    if n >= 10 {
        push_decimal(v, n / 10);
    }
    let c = digit_to_char(n % 10);
    v.push(c);
    assert(decimal(n as nat) == if n < 10 {
        seq![digit_char(n as nat)]
    } else {
        decimal((n / 10) as nat).push(digit_char((n % 10) as nat))
    });
}

/// Appends the decimal representation of `n` to `v`.
pub fn push_signed_decimal(v: &mut Vec<char>, n: i64)
    ensures
        final(v)@ == old(v)@ + signed_decimal(n as int),
{
    if n < 0 {
        v.push('-');
        let m: u64 = if n == i64::MIN {
            9223372036854775808u64
        } else {
            (-n) as u64
        };
        push_decimal(v, m);
    } else {
        push_decimal(v, n as u64);
    }
}

/// Appends `n` padded with a leading `0` to two digits.
pub fn push_decimal2(v: &mut Vec<char>, n: u64)
    ensures
        final(v)@ == old(v)@ + decimal2(n as nat),
{
    if n < 10 {
        v.push('0');
    }
    push_decimal(v, n);
    assert(n < 10 ==> decimal(n as nat) == seq![digit_char(n as nat)]);
}

/// The decimal text of `n` as a `String` (std `u64::to_string`).
pub fn u64_to_string(n: u64) -> (s: String)
    ensures
        s@ == decimal(n as nat),
{
    let mut v: Vec<char> = Vec::new();
    push_decimal(&mut v, n);
    assert(v@ =~= decimal(n as nat));
    string_of(&v)
}

// ---------------------------------------------------------------------------
// Parsing integers (the rules of std `FromStr` for integer types)
// ---------------------------------------------------------------------------

/// Whether every character of `s` is an ASCII digit.
pub open spec fn all_digits(s: Seq<char>) -> bool {
    forall|i: int| 0 <= i < s.len() ==> #[trigger] is_digit(s[i])
}

/// The value of a run of decimal digits.
pub open spec fn digits_value(s: Seq<char>) -> nat
    decreases s.len(),
{
    if s.len() == 0 {
        0
    } else {
        digits_value(s.drop_last()) * 10 + digit_value(s.last())
    }
}

/// The digits of an unsigned number: one optional leading `+` is dropped.
pub open spec fn unsigned_body(s: Seq<char>) -> Seq<char> {
    if s.len() > 0 && s[0] == '+' {
        s.drop_first()
    } else {
        s
    }
}

/// What std's `FromStr` gives for an unsigned integer type whose largest value is `max`.
pub open spec fn parse_unsigned(s: Seq<char>, max: nat) -> Option<nat> {
    let d = unsigned_body(s);
    if d.len() > 0 && all_digits(d) && digits_value(d) <= max {
        Some(digits_value(d))
    } else {
        None
    }
}

/// What std's `FromStr` gives for a signed integer type with range `min..=max`:
/// an optional `+` or `-`, then at least one digit.
pub open spec fn parse_signed(s: Seq<char>, min: int, max: int) -> Option<int> {
    if s.len() > 0 && s[0] == '-' {
        let d = s.drop_first();
        if d.len() > 0 && all_digits(d) && -(digits_value(d) as int) >= min {
            Some(-(digits_value(d) as int))
        } else {
            None
        }
    } else {
        let d = unsigned_body(s);
        if d.len() > 0 && all_digits(d) && digits_value(d) <= max {
            Some(digits_value(d) as int)
        } else {
            None
        }
    }
}

/// The decimal text of `n` is a nonempty run of digits whose value is `n`.
pub proof fn lemma_decimal_digits(n: nat)
    ensures
        decimal(n).len() > 0,
        all_digits(decimal(n)),
        digits_value(decimal(n)) == n,
    decreases n,
{
    let d = digit_char(n % 10);
    assert(is_digit(d) && digit_value(d) == n % 10);
    assert(digits_value(Seq::<char>::empty()) == 0);
    if n < 10 {
        assert(seq![d].drop_last() =~= Seq::<char>::empty());
        assert(seq![d].last() == d);
    } else {
        lemma_decimal_digits(n / 10);
        let s = decimal(n);
        assert(s.drop_last() =~= decimal(n / 10));
        assert forall|i: int| 0 <= i < s.len() implies #[trigger] is_digit(s[i]) by {
            if i < s.len() - 1 {
                assert(s[i] == decimal(n / 10)[i]);
            }
        }
    }
}

/// `parse_unsigned` reads back the decimal text of any `n` up to the bound.
pub proof fn lemma_parse_decimal(n: nat, max: nat)
    requires
        n <= max,
    ensures
        parse_unsigned(decimal(n), max) == Some(n),
{
    lemma_decimal_digits(n);
    assert(is_digit(decimal(n)[0]));
}

/// `parse_unsigned` reads back the two-digit text of any `n` up to the bound.
pub proof fn lemma_parse_decimal2(n: nat, max: nat)
    requires
        n <= max,
    ensures
        parse_unsigned(decimal2(n), max) == Some(n),
        all_digits(decimal2(n)),
{
    if n < 10 {
        let d = digit_char(n);
        let s = seq!['0', d];
        assert(is_digit(d) && digit_value(d) == n);
        assert(s.drop_last() =~= seq!['0']);
        assert(seq!['0'].drop_last() =~= Seq::<char>::empty());
        assert(digits_value(Seq::<char>::empty()) == 0);
        assert(seq!['0'].last() == '0');
        assert(digit_value('0') == 0);
        assert(digits_value(seq!['0']) == 0);
        assert(s.last() == d);
        assert(digits_value(s) == n);
        assert(is_digit(s[0]) && is_digit(s[1]));
        assert(all_digits(s));
    } else {
        lemma_parse_decimal(n, max);
        lemma_decimal_digits(n);
    }
}

proof fn lemma_digits_value_monotone(s: Seq<char>, i: int, j: int)
    requires
        0 <= i <= j <= s.len(),
    ensures
        digits_value(s.subrange(0, i)) <= digits_value(s.subrange(0, j)),
    decreases j - i,
{
    if i < j {
        lemma_digits_value_monotone(s, i, j - 1);
        assert(s.subrange(0, j).drop_last() =~= s.subrange(0, j - 1));
    }
}

/// Parses a run of digits (no sign), stopping with `None` as soon as the value
/// exceeds `max` or a non-digit is met.
fn parse_digit_run(d: &[char], max: u64) -> (r: Option<u64>)
    requires
        max >= 9,
    ensures
        match r {
            Some(v) => d@.len() > 0 && all_digits(d@) && digits_value(d@) <= max && v
                == digits_value(d@),
            None => !(d@.len() > 0 && all_digits(d@) && digits_value(d@) <= max),
        },
{
    if d.len() == 0 {
        return None;
    }
    let mut acc: u64 = 0;
    let mut i: usize = 0;
    while i < d.len()
        invariant
            i <= d@.len(),
            acc <= max,
            acc == digits_value(d@.subrange(0, i as int)),
            max >= 9,
            all_digits(d@.subrange(0, i as int)),
        decreases d@.len() - i,
    {
        let c = d[i];
        if !('0' <= c && c <= '9') {
            assert(!is_digit(d@[i as int]));
            return None;
        }
        let dv: u64 = (c as u32 - '0' as u32) as u64;
        assert(d@.subrange(0, i + 1).drop_last() =~= d@.subrange(0, i as int));
        assert(d@.subrange(0, i + 1).last() == c);
        if acc > (max - dv) / 10 {
            proof {
                lemma_digits_value_monotone(d@, i + 1, d@.len() as int);
                assert(d@.subrange(0, d@.len() as int) =~= d@);
                assert(acc * 10 + dv > max) by (nonlinear_arith)
                    requires
                        acc > (max - dv) / 10,
                        dv <= 9,
                        dv <= max,
                ;
            }
            return None;
        }
        proof {
            assert(acc * 10 + dv <= max) by (nonlinear_arith)
                requires
                    acc <= (max - dv) / 10,
                    dv <= max,
            ;
        }
        acc = acc * 10 + dv;
        i = i + 1;
        assert(all_digits(d@.subrange(0, i as int))) by {
            assert forall|k: int| 0 <= k < i implies #[trigger] is_digit(
                d@.subrange(0, i as int)[k],
            ) by {
                if k < i - 1 {
                    assert(d@.subrange(0, i as int)[k] == d@.subrange(0, i - 1 as int)[k]);
                }
            }
        }
    }
    assert(d@.subrange(0, d@.len() as int) =~= d@);
    Some(acc)
}

/// std `str::parse::<u32>`.
pub fn parse_u32(s: &[char]) -> (r: Option<u32>)
    ensures
        match parse_unsigned(s@, u32::MAX as nat) {
            Some(v) => r == Some(v as u32),
            None => r is None,
        },
{
    let body: &[char] = if s.len() > 0 && s[0] == '+' {
        slice_skip(s, 1)
    } else {
        s
    };
    assert(body@ == unsigned_body(s@));
    match parse_digit_run(body, u32::MAX as u64) {
        Some(v) => Some(v as u32),
        None => None,
    }
}

/// std `str::parse::<u64>`.
pub fn parse_u64(s: &[char]) -> (r: Option<u64>)
    ensures
        match parse_unsigned(s@, u64::MAX as nat) {
            Some(v) => r == Some(v as u64),
            None => r is None,
        },
{
    let body: &[char] = if s.len() > 0 && s[0] == '+' {
        slice_skip(s, 1)
    } else {
        s
    };
    assert(body@ == unsigned_body(s@));
    parse_digit_run(body, u64::MAX)
}

/// std `str::parse::<i32>`.
pub fn parse_i32(s: &[char]) -> (r: Option<i32>)
    ensures
        match parse_signed(s@, i32::MIN as int, i32::MAX as int) {
            Some(v) => r == Some(v as i32),
            None => r is None,
        },
{
    if s.len() > 0 && s[0] == '-' {
        let body = slice_skip(s, 1);
        assert(body@ == s@.drop_first());
        match parse_digit_run(body, 2147483648u64) {
            Some(v) => {
                if v == 2147483648u64 {
                    Some(i32::MIN)
                } else {
                    Some(-(v as i32))
                }
            },
            None => None,
        }
    } else {
        let body: &[char] = if s.len() > 0 && s[0] == '+' {
            slice_skip(s, 1)
        } else {
            s
        };
        assert(body@ == unsigned_body(s@));
        match parse_digit_run(body, i32::MAX as u64) {
            Some(v) => Some(v as i32),
            None => None,
        }
    }
}

/// The characters of `s` from position `n` on (std slice indexing `&s[n..]`).
pub fn slice_skip(s: &[char], n: usize) -> (r: &[char])
    requires
        n <= s@.len(),
    ensures
        r@ == s@.skip(n as int),
{
    vstd::slice::slice_subrange(s, n, s.len())
}

// ---------------------------------------------------------------------------
// Splitting
// ---------------------------------------------------------------------------

/// The pieces of `s` between occurrences of `sep` (std `str::split` with a `char`
/// pattern): `n` separators give `n + 1` pieces, empty ones included.
pub open spec fn split_on(s: Seq<char>, sep: char) -> Seq<Seq<char>>
    decreases s.len(),
{
    if s.len() == 0 {
        seq![Seq::<char>::empty()]
    } else {
        let rest = split_on(s.drop_last(), sep);
        if s.last() == sep {
            rest.push(Seq::<char>::empty())
        } else {
            rest.update(rest.len() - 1, rest.last().push(s.last()))
        }
    }
}

pub proof fn lemma_split_nonempty(s: Seq<char>, sep: char)
    ensures
        split_on(s, sep).len() >= 1,
    decreases s.len(),
{
    if s.len() > 0 {
        lemma_split_nonempty(s.drop_last(), sep);
    }
}

/// A text without the separator is one piece.
pub proof fn lemma_split_without_sep(s: Seq<char>, sep: char)
    requires
        !s.contains(sep),
    ensures
        split_on(s, sep) == seq![s],
    decreases s.len(),
{
    if s.len() == 0 {
        assert(s =~= Seq::<char>::empty());
    } else {
        assert(!s.drop_last().contains(sep)) by {
            if s.drop_last().contains(sep) {
                let i = choose|i: int| 0 <= i < s.drop_last().len() && s.drop_last()[i] == sep;
                assert(s[i] == sep);
            }
        }
        lemma_split_without_sep(s.drop_last(), sep);
        assert(s.last() != sep) by {
            assert(s[s.len() - 1] == s.last());
        }
        assert(s.drop_last().push(s.last()) =~= s);
        assert(seq![s.drop_last()].update(0, s.drop_last().push(s.last())) =~= seq![s]);
    }
}

/// Appending a separator and a separator-free piece adds that piece.
pub proof fn lemma_split_append(a: Seq<char>, sep: char, b: Seq<char>)
    requires
        !b.contains(sep),
    ensures
        split_on(a + seq![sep] + b, sep) == split_on(a, sep).push(b),
    decreases b.len(),
{
    let s = a + seq![sep] + b;
    if b.len() == 0 {
        assert(s.drop_last() =~= a);
        assert(b =~= Seq::<char>::empty());
    } else {
        assert(!b.drop_last().contains(sep)) by {
            if b.drop_last().contains(sep) {
                let i = choose|i: int| 0 <= i < b.drop_last().len() && b.drop_last()[i] == sep;
                assert(b[i] == sep);
            }
        }
        lemma_split_append(a, sep, b.drop_last());
        assert(s.drop_last() =~= a + seq![sep] + b.drop_last());
        assert(s.last() == b.last());
        assert(b.last() != sep) by {
            assert(b[b.len() - 1] == b.last());
        }
        lemma_split_nonempty(a, sep);
        assert(b.drop_last().push(b.last()) =~= b);
        assert(split_on(a, sep).push(b.drop_last()).update(
            split_on(a, sep).len() as int,
            b.drop_last().push(b.last()),
        ) =~= split_on(a, sep).push(b));
    }
}

/// The first piece of a text is what stands before its first separator.
pub proof fn lemma_split_first(a: Seq<char>, sep: char, b: Seq<char>)
    requires
        !a.contains(sep),
    ensures
        split_on(a + seq![sep] + b, sep).len() >= 2,
        split_on(a + seq![sep] + b, sep)[0] == a,
    decreases b.len(),
{
    let s = a + seq![sep] + b;
    if b.len() == 0 {
        assert(b =~= Seq::<char>::empty());
        assert(s =~= a + seq![sep] + Seq::<char>::empty());
        lemma_split_append(a, sep, Seq::<char>::empty());
        lemma_split_without_sep(a, sep);
    } else {
        lemma_split_first(a, sep, b.drop_last());
        assert(s.drop_last() =~= a + seq![sep] + b.drop_last());
    }
}

/// A run of digits holds no `:` and no other non-digit.
pub proof fn lemma_digits_exclude(s: Seq<char>, c: char)
    requires
        all_digits(s),
        !is_digit(c),
    ensures
        !s.contains(c),
{
    if s.contains(c) {
        let i = choose|i: int| 0 <= i < s.len() && s[i] == c;
        assert(is_digit(s[i]));
    }
}

/// The view of a vector of character vectors.
pub open spec fn views_of(v: Seq<Vec<char>>) -> Seq<Seq<char>> {
    Seq::new(v.len(), |i: int| v[i]@)
}

/// Splits `s` at every `sep`.
pub fn split_chars(s: &[char], sep: char) -> (r: Vec<Vec<char>>)
    ensures
        views_of(r@) == split_on(s@, sep),
{
    let mut parts: Vec<Vec<char>> = Vec::new();
    let mut cur: Vec<char> = Vec::new();
    let mut i: usize = 0;
    proof {
        assert(s@.subrange(0, 0) =~= Seq::<char>::empty());
    }
    while i < s.len()
        invariant
            i <= s@.len(),
            views_of(parts@).push(cur@) =~= split_on(s@.subrange(0, i as int), sep),
        decreases s@.len() - i,
    {
        let c = s[i];
        let ghost before = s@.subrange(0, i as int);
        assert(s@.subrange(0, i + 1).drop_last() =~= before);
        assert(s@.subrange(0, i + 1).last() == c);
        if c == sep {
            let done = cur;
            parts.push(done);
            cur = Vec::new();
            assert(views_of(parts@) =~= views_of(parts@).drop_last().push(done@));
        } else {
            cur.push(c);
        }
        i = i + 1;
        proof {
            let sp = split_on(before, sep);
            lemma_split_nonempty(before, sep);
            assert(views_of(parts@).push(cur@) =~= split_on(s@.subrange(0, i as int), sep));
        }
    }
    parts.push(cur);
    assert(s@.subrange(0, s@.len() as int) =~= s@);
    assert(views_of(parts@) =~= split_on(s@, sep));
    parts
}

// ---------------------------------------------------------------------------
// Searching
// ---------------------------------------------------------------------------

/// Whether `pat` occurs in `s` starting at position `i`.
pub open spec fn occurs_at(s: Seq<char>, pat: Seq<char>, i: int) -> bool {
    0 <= i && i + pat.len() <= s.len() && s.subrange(i, i + pat.len()) == pat
}

/// Whether `pat` occurs anywhere in `s` (std `str::contains`).
pub open spec fn contains_seq(s: Seq<char>, pat: Seq<char>) -> bool {
    exists|i: int| occurs_at(s, pat, i)
}

/// `i` is the first position at or after `from` where `pat` occurs.
pub open spec fn first_occurrence_from(s: Seq<char>, pat: Seq<char>, from: int, i: int) -> bool {
    from <= i && occurs_at(s, pat, i) && forall|j: int|
        from <= j < i ==> !#[trigger] occurs_at(s, pat, j)
}

/// The first position at or after `from` where `pat` occurs (std `str::find`).
pub fn find_from(s: &[char], pat: &[char], from: usize) -> (r: Option<usize>)
    requires
        from <= s@.len(),
    ensures
        match r {
            Some(i) => first_occurrence_from(s@, pat@, from as int, i as int),
            None => forall|j: int| from <= j ==> !#[trigger] occurs_at(s@, pat@, j),
        },
{
    if pat.len() > s.len() {
        assert forall|j: int| from <= j implies !#[trigger] occurs_at(s@, pat@, j) by {}
        return None;
    }
    let mut i: usize = from;
    let last: usize = s.len() - pat.len();
    if from > last {
        assert forall|j: int| from <= j implies !#[trigger] occurs_at(s@, pat@, j) by {}
        return None;
    }
    while i < last
        invariant
            from <= i <= last,
            last == s@.len() - pat@.len(),
            pat@.len() <= s@.len(),
            forall|j: int| from <= j < i ==> !#[trigger] occurs_at(s@, pat@, j),
        decreases last - i,
    {
        if matches_at(s, pat, i) {
            return Some(i);
        }
        i = i + 1;
    }
    if matches_at(s, pat, i) {
        return Some(i);
    }
    assert forall|j: int| from <= j implies !#[trigger] occurs_at(s@, pat@, j) by {
        if j > i {
            assert(j + pat@.len() > s@.len());
        }
    }
    None
}

/// Whether `pat` occurs in `s` at position `i`.
pub fn matches_at(s: &[char], pat: &[char], i: usize) -> (r: bool)
    ensures
        r == occurs_at(s@, pat@, i as int),
{
    if i > s.len() || pat.len() > s.len() - i {
        return false;
    }
    let mut k: usize = 0;
    let n = s.len();
    while k < pat.len()
        invariant
            n == s@.len(),
            k <= pat@.len(),
            i <= s@.len(),
            i + pat@.len() <= s@.len(),
            forall|m: int| 0 <= m < k ==> s@[i + m] == pat@[m],
        decreases pat@.len() - k,
    {
        if s[i + k] != pat[k] {
            assert(s@.subrange(i as int, i + pat@.len())[k as int] != pat@[k as int]);
            return false;
        }
        k = k + 1;
    }
    assert(s@.subrange(i as int, i + pat@.len()) =~= pat@);
    true
}

/// Whether `s` contains `pat`.
pub fn contains_chars(s: &[char], pat: &[char]) -> (r: bool)
    ensures
        r == contains_seq(s@, pat@),
{
    match find_from(s, pat, 0) {
        Some(_) => true,
        None => {
            assert(!contains_seq(s@, pat@)) by {
                assert forall|j: int| !occurs_at(s@, pat@, j) by {
                    if 0 <= j {
                    }
                }
            }
            false
        },
    }
}

/// Whether `s` starts with `pat`.
pub open spec fn starts_with(s: Seq<char>, pat: Seq<char>) -> bool {
    pat.len() <= s.len() && s.subrange(0, pat.len() as int) == pat
}

/// Whether `s` ends with `pat`.
pub open spec fn ends_with(s: Seq<char>, pat: Seq<char>) -> bool {
    pat.len() <= s.len() && s.subrange(s.len() - pat.len(), s.len() as int) == pat
}

/// std `str::starts_with`.
pub fn starts_with_chars(s: &[char], pat: &[char]) -> (r: bool)
    ensures
        r == starts_with(s@, pat@),
{
    matches_at(s, pat, 0)
}

/// std `str::ends_with`.
pub fn ends_with_chars(s: &[char], pat: &[char]) -> (r: bool)
    ensures
        r == ends_with(s@, pat@),
{
    if pat.len() > s.len() {
        return false;
    }
    matches_at(s, pat, s.len() - pat.len())
}

/// Whether `c` occurs in `s`.
pub fn contains_char(s: &[char], c: char) -> (r: bool)
    ensures
        r == s@.contains(c),
{
    let mut i: usize = 0;
    while i < s.len()
        invariant
            i <= s@.len(),
            forall|j: int| 0 <= j < i ==> s@[j] != c,
        decreases s@.len() - i,
    {
        if s[i] == c {
            return true;
        }
        i = i + 1;
    }
    false
}

/// The characters `s[from..to]`, copied.
pub fn sub_chars(s: &[char], from: usize, to: usize) -> (r: Vec<char>)
    requires
        from <= to <= s@.len(),
    ensures
        r@ == s@.subrange(from as int, to as int),
{
    let mut r: Vec<char> = Vec::new();
    let mut i = from;
    while i < to
        invariant
            from <= i <= to <= s@.len(),
            r@ == s@.subrange(from as int, i as int),
        decreases to - i,
    {
        r.push(s[i]);
        i = i + 1;
        assert(r@ =~= s@.subrange(from as int, i as int));
    }
    r
}

// ---------------------------------------------------------------------------
// Character classes and trimming
// ---------------------------------------------------------------------------

/// std `char::is_control`: the Unicode general category Cc.
pub open spec fn is_control(c: char) -> bool {
    (c as u32) <= 0x1f || (0x7f <= (c as u32) && (c as u32) <= 0x9f)
}

/// std `char::is_whitespace`: the Unicode `White_Space` property.
pub open spec fn is_whitespace(c: char) -> bool {
    let u = c as u32;
    (0x09 <= u && u <= 0x0d) || u == 0x20 || u == 0x85 || u == 0xa0 || u == 0x1680 || (0x2000
        <= u && u <= 0x200a) || u == 0x2028 || u == 0x2029 || u == 0x202f || u == 0x205f || u
        == 0x3000
}

pub fn char_is_control(c: char) -> (r: bool)
    ensures
        r == is_control(c),
{
    let u = c as u32;
    u <= 0x1f || (0x7f <= u && u <= 0x9f)
}

pub fn char_is_whitespace(c: char) -> (r: bool)
    ensures
        r == is_whitespace(c),
{
    let u = c as u32;
    (0x09 <= u && u <= 0x0d) || u == 0x20 || u == 0x85 || u == 0xa0 || u == 0x1680 || (0x2000
        <= u && u <= 0x200a) || u == 0x2028 || u == 0x2029 || u == 0x202f || u == 0x205f || u
        == 0x3000
}

/// The number of leading whitespace characters of `s`.
pub open spec fn leading_ws(s: Seq<char>) -> nat
    decreases s.len(),
{
    if s.len() > 0 && is_whitespace(s[0]) {
        1 + leading_ws(s.drop_first())
    } else {
        0
    }
}

/// The number of trailing whitespace characters of `s`.
pub open spec fn trailing_ws(s: Seq<char>) -> nat
    decreases s.len(),
{
    if s.len() > 0 && is_whitespace(s.last()) {
        1 + trailing_ws(s.drop_last())
    } else {
        0
    }
}

/// std `str::trim`: `s` without leading and trailing whitespace.
pub open spec fn trim(s: Seq<char>) -> Seq<char> {
    let a = leading_ws(s);
    if a == s.len() {
        Seq::<char>::empty()
    } else {
        s.subrange(a as int, s.len() - trailing_ws(s))
    }
}

pub proof fn lemma_leading_ws_bound(s: Seq<char>)
    ensures
        leading_ws(s) <= s.len(),
    decreases s.len(),
{
    if s.len() > 0 && is_whitespace(s[0]) {
        lemma_leading_ws_bound(s.drop_first());
    }
}

proof fn lemma_leading_ws_step(s: Seq<char>, i: int)
    requires
        0 <= i < s.len(),
        forall|j: int| 0 <= j < i ==> #[trigger] is_whitespace(s[j]),
    ensures
        is_whitespace(s[i]) ==> leading_ws(s) > i,
        !is_whitespace(s[i]) ==> leading_ws(s) == i,
    decreases i,
{
    if i > 0 {
        assert(is_whitespace(s[0]));
        lemma_leading_ws_step(s.drop_first(), i - 1);
    }
}

proof fn lemma_leading_all(s: Seq<char>)
    requires
        forall|j: int| 0 <= j < s.len() ==> #[trigger] is_whitespace(s[j]),
    ensures
        leading_ws(s) == s.len(),
    decreases s.len(),
{
    if s.len() > 0 {
        lemma_leading_all(s.drop_first());
    }
}

proof fn lemma_trailing_ws_step(s: Seq<char>, k: int)
    requires
        0 <= k < s.len(),
        forall|j: int| s.len() - k <= j < s.len() ==> #[trigger] is_whitespace(s[j]),
    ensures
        is_whitespace(s[s.len() - 1 - k]) ==> trailing_ws(s) > k,
        !is_whitespace(s[s.len() - 1 - k]) ==> trailing_ws(s) == k,
    decreases k,
{
    if k > 0 {
        assert(is_whitespace(s.last()));
        lemma_trailing_ws_step(s.drop_last(), k - 1);
    }
}

proof fn lemma_leading_ws_stops(s: Seq<char>)
    requires
        leading_ws(s) < s.len(),
    ensures
        !is_whitespace(s[leading_ws(s) as int]),
    decreases s.len(),
{
    if s.len() > 0 && is_whitespace(s[0]) {
        lemma_leading_ws_stops(s.drop_first());
    }
}

proof fn lemma_trailing_ws_stops(s: Seq<char>)
    requires
        trailing_ws(s) < s.len(),
    ensures
        !is_whitespace(s[s.len() - 1 - trailing_ws(s)]),
    decreases s.len(),
{
    if s.len() > 0 && is_whitespace(s.last()) {
        lemma_trailing_ws_stops(s.drop_last());
    }
}

proof fn lemma_trailing_ws_before(s: Seq<char>, i: int)
    requires
        0 <= i < s.len(),
        !is_whitespace(s[i]),
    ensures
        trailing_ws(s) <= s.len() - 1 - i,
    decreases s.len(),
{
    if is_whitespace(s.last()) {
        assert(i != s.len() - 1);
        lemma_trailing_ws_before(s.drop_last(), i);
    }
}

/// The trimmed text is the stretch of `s` between its leading and trailing
/// whitespace; when it is not empty it starts and ends with a non-whitespace
/// character.
pub proof fn lemma_trim_bounds(s: Seq<char>)
    ensures
        leading_ws(s) < s.len() ==> leading_ws(s) + trailing_ws(s) < s.len(),
        leading_ws(s) < s.len() ==> trim(s) == s.subrange(
            leading_ws(s) as int,
            s.len() - trailing_ws(s),
        ),
        trim(s).len() > 0 ==> !is_whitespace(trim(s)[0]) && !is_whitespace(trim(s).last()),
        trim(s).len() <= s.len(),
{
    lemma_leading_ws_bound(s);
    let a = leading_ws(s);
    if a < s.len() {
        lemma_leading_ws_stops(s);
        lemma_trailing_ws_before(s, a as int);
        lemma_trailing_ws_stops(s);
        let t = trim(s);
        assert(t[0] == s[a as int]);
        assert(t.last() == s[s.len() - 1 - trailing_ws(s)]);
    }
}

/// Trimming twice trims no more than trimming once.
pub proof fn lemma_trim_idempotent(s: Seq<char>)
    ensures
        trim(trim(s)) == trim(s),
{
    lemma_trim_bounds(s);
    let t = trim(s);
    if t.len() == 0 {
        assert(t =~= Seq::<char>::empty());
    } else {
        assert(leading_ws(t) == 0);
        assert(trailing_ws(t) == 0);
        assert(t.subrange(0, t.len() as int) =~= t);
    }
}

/// std `str::trim_end_matches(c)`: `s` without its trailing run of `c`.
pub open spec fn strip_trailing(s: Seq<char>, c: char) -> Seq<char>
    decreases s.len(),
{
    if s.len() > 0 && s.last() == c {
        strip_trailing(s.drop_last(), c)
    } else {
        s
    }
}

proof fn lemma_strip_trailing_step(s: Seq<char>, c: char, n: int)
    requires
        0 <= n <= s.len(),
        forall|j: int| n <= j < s.len() ==> #[trigger] s[j] == c,
    ensures
        strip_trailing(s, c) == strip_trailing(s.subrange(0, n), c),
    decreases s.len() - n,
{
    if n < s.len() {
        assert(s[s.len() - 1] == c);
        assert(s.drop_last() =~= s.subrange(0, s.len() - 1));
        assert(s.drop_last().subrange(0, n) =~= s.subrange(0, n));
        lemma_strip_trailing_step(s.drop_last(), c, n);
    } else {
        assert(s.subrange(0, n) =~= s);
    }
}

/// The characters of `s` without any trailing `c`.
pub fn trim_end_char(s: &str, c: char) -> (r: String)
    ensures
        r@ == strip_trailing(s@, c),
{
    let v = chars_of(s);
    let mut n: usize = v.len();
    while n > 0 && v[n - 1] == c
        invariant
            n <= v@.len(),
            forall|j: int| n <= j < v@.len() ==> #[trigger] v@[j] == c,
        decreases n,
    {
        n = n - 1;
    }
    proof {
        lemma_strip_trailing_step(v@, c, n as int);
        let t = v@.subrange(0, n as int);
        if t.len() > 0 {
            assert(t.last() != c);
        }
    }
    let w = sub_chars(&v, 0, n);
    string_of(&w)
}

/// Trims whitespace from both ends of `s`.
pub fn trim_chars(s: &[char]) -> (r: Vec<char>)
    ensures
        r@ == trim(s@),
{
    let mut a: usize = 0;
    while a < s.len() && char_is_whitespace(s[a])
        invariant
            a <= s@.len(),
            forall|j: int| 0 <= j < a ==> #[trigger] is_whitespace(s@[j]),
        decreases s@.len() - a,
    {
        a = a + 1;
    }
    if a == s.len() {
        proof {
            lemma_leading_all(s@);
        }
        return Vec::new();
    }
    proof {
        lemma_leading_ws_step(s@, a as int);
    }
    let mut b: usize = s.len();
    while b > a && char_is_whitespace(s[b - 1])
        invariant
            a < s@.len(),
            a <= b <= s@.len(),
            !is_whitespace(s@[a as int]),
            forall|j: int| b <= j < s@.len() ==> #[trigger] is_whitespace(s@[j]),
        decreases b,
    {
        b = b - 1;
    }
    proof {
        if b == a {
            assert(false);
        }
        lemma_trailing_ws_step(s@, (s@.len() - b) as int);
    }
    sub_chars(s, a, b)
}

// ---------------------------------------------------------------------------
// Case mapping
// ---------------------------------------------------------------------------

/// The result of std `str::to_lowercase` on `s` (Unicode lowercase mapping).
pub uninterp spec fn lowercase(s: Seq<char>) -> Seq<char>;

/// The result of std `str::to_uppercase` on `s` (Unicode uppercase mapping).
pub uninterp spec fn uppercase(s: Seq<char>) -> Seq<char>;

/// std `str::to_lowercase`: the contract names the result; Unicode case mapping
/// is not restated here.
#[verifier::external_body]
pub(crate) fn to_lowercase(s: &[char]) -> (r: Vec<char>)
    ensures
        r@ == lowercase(s@),
{
    let st: String = s.iter().collect();
    st.to_lowercase().chars().collect()
}

/// std `str::to_uppercase`: the contract names the result; Unicode case mapping
/// is not restated here.
#[verifier::external_body]
pub(crate) fn to_uppercase(s: &[char]) -> (r: Vec<char>)
    ensures
        r@ == uppercase(s@),
{
    let st: String = s.iter().collect();
    st.to_uppercase().chars().collect()
}

/// Whether two character sequences are equal, element by element.
pub fn chars_eq(a: &[char], b: &[char]) -> (r: bool)
    ensures
        r == (a@ == b@),
{
    if a.len() != b.len() {
        return false;
    }
    let r = matches_at(a, b, 0);
    proof {
        if r {
            assert(a@.subrange(0, b@.len() as int) =~= a@);
        } else {
            assert(a@.subrange(0, b@.len() as int) =~= a@);
        }
    }
    r
}

/// Byte length of the UTF-8 encoding of `s` (what std `str::len` returns).
pub open spec fn utf8_len(s: Seq<char>) -> nat {
    vstd::utf8::encode_utf8(s).len()
}

/// The UTF-8 byte length of the string made of `s` (std `str::len`).
pub fn utf8_len_of(s: &[char]) -> (n: usize)
    ensures
        n == utf8_len(s@),
{
    let st = string_of(s);
    let b = st.as_str().as_bytes();
    b.len()
}

} // verus!
