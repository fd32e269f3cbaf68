//! qBittorrent: magnet hashes, byte sizes, torrent states and request forms.
use vstd::prelude::*;
use crate::text::{
    chars_of, decimal, decimal2, find_from, first_occurrence_from, occurs_at, owned, push_decimal,
    push_decimal2, push_signed_decimal, push_str_chars, signed_decimal, string_of, sub_chars,
    to_uppercase, uppercase, utf8_len, utf8_len_of, contains_seq, contains_chars,
};

verus! {

// ---------------------------------------------------------------------------
// Transfer figures and the parameters of a new torrent
// ---------------------------------------------------------------------------

/// qBittorrent's global transfer figures.
#[derive(Debug, Clone)]
pub struct GlobalTransferInfo {
    pub dl_info_speed: u64,
    pub dl_info_data: u64,
    pub up_info_speed: u64,
    pub up_info_data: u64,
    pub dl_rate_limit: i64,
    pub up_rate_limit: i64,
    pub dht_nodes: u32,
    pub connection_status: String,
}

/// The parameters qBittorrent accepts for a new torrent.
#[derive(Debug, Clone)]
pub struct AddTorrentRequest {
    /// Magnet links or URLs.
    pub urls: Option<String>,
    /// The bytes of a torrent file.
    pub torrents: Option<Vec<u8>>,
    pub savepath: Option<String>,
    /// A cookie for private trackers.
    pub cookie: Option<String>,
    pub category: Option<String>,
    /// Comma-separated tags.
    pub tags: Option<String>,
    pub skip_checking: Option<bool>,
    pub paused: Option<bool>,
    pub root_folder: Option<bool>,
    pub rename: Option<String>,
    pub up_limit: Option<i64>,
    pub dl_limit: Option<i64>,
    pub auto_tmm: Option<bool>,
}

// ---------------------------------------------------------------------------
// Magnet links
// ---------------------------------------------------------------------------

/// Where the info hash of a magnet link starts and ends: after the first
/// `xt=urn:btih:`, up to the next `&` or the end of the link.
pub open spec fn magnet_hash_span(m: Seq<char>) -> Option<(int, int)> {
    let key = "xt=urn:btih:"@;
    if exists|i: int| first_occurrence_from(m, key, 0, i) {
        let i = choose|i: int| first_occurrence_from(m, key, 0, i);
        let start = i + 12;
        if exists|j: int| first_occurrence_from(m, seq!['&'], start, j) {
            Some((start, choose|j: int| first_occurrence_from(m, seq!['&'], start, j)))
        } else {
            Some((start, m.len() as int))
        }
    } else {
        None
    }
}

/// The upper-cased info hash of a magnet link, if it has one of at least 20 bytes.
pub open spec fn magnet_hash(m: Seq<char>) -> Option<Seq<char>> {
    match magnet_hash_span(m) {
        Some((s, e)) => if utf8_len(m.subrange(s, e)) >= 20 {
            Some(uppercase(m.subrange(s, e)))
        } else {
            None
        },
        None => None,
    }
}

proof fn lemma_first_occurrence_unique(s: Seq<char>, pat: Seq<char>, from: int, i: int, j: int)
    requires
        first_occurrence_from(s, pat, from, i),
        first_occurrence_from(s, pat, from, j),
    ensures
        i == j,
{
    if i < j {
        assert(!occurs_at(s, pat, i));
    } else if j < i {
        assert(!occurs_at(s, pat, j));
    }
}

/// The hash read back from a magnet link built from an info hash `h` (no
/// `&` in it, at least 20 bytes), followed by nothing or by further `&`
/// parameters, is `h` upper-cased.
pub proof fn magnet_hash_of_link(h: Seq<char>, rest: Seq<char>)
    requires
        !h.contains('&'),
        utf8_len(h) >= 20,
        rest.len() == 0 || rest[0] == '&',
    ensures
        magnet_hash("magnet:?xt=urn:btih:"@ + h + rest) == Some(uppercase(h)),
{
    reveal_strlit("xt=urn:btih:");
    reveal_strlit("magnet:?xt=urn:btih:");
    let key = "xt=urn:btih:"@;
    let m = "magnet:?xt=urn:btih:"@ + h + rest;
    let amp = seq!['&'];
    assert(m.subrange(8, 20) =~= key);
    assert(occurs_at(m, key, 8));
    assert forall|j: int| 0 <= j < 8 implies !#[trigger] occurs_at(m, key, j) by {
        if occurs_at(m, key, j) {
            assert(m.subrange(j, j + 12)[0] == key[0]);
            assert(m[j] == key[0]);
        }
    }
    assert(first_occurrence_from(m, key, 0, 8));
    let i = choose|i: int| first_occurrence_from(m, key, 0, i);
    lemma_first_occurrence_unique(m, key, 0, i, 8);
    let end: int = 20 + h.len() as int;
    assert forall|j: int| 20 <= j < end implies !#[trigger] occurs_at(m, amp, j) by {
        if occurs_at(m, amp, j) {
            assert(m.subrange(j, j + 1)[0] == amp[0]);
            assert(m[j] == h[j - 20]);
        }
    }
    if rest.len() > 0 {
        assert(m.subrange(end, end + 1) =~= amp);
        assert(first_occurrence_from(m, amp, 20, end));
        let k = choose|k: int| first_occurrence_from(m, amp, 20, k);
        lemma_first_occurrence_unique(m, amp, 20, k, end);
    } else {
        assert(!exists|k: int| first_occurrence_from(m, amp, 20, k)) by {
            if exists|k: int| first_occurrence_from(m, amp, 20, k) {
                let k = choose|k: int| first_occurrence_from(m, amp, 20, k);
                assert(occurs_at(m, amp, k));
            }
        }
    }
    assert(m.subrange(20, end) =~= h);
}

/// Extract the info hash from a magnet URL.
pub fn extract_hash_from_magnet(magnet_url: &str) -> (r: Option<String>)
    ensures
        match magnet_hash(magnet_url@) {
            Some(h) => r matches Some(s) && s@ == h,
            None => r is None,
        },
{
    let m = chars_of(magnet_url);
    let key = chars_of("xt=urn:btih:");
    proof {
        reveal_strlit("xt=urn:btih:");
    }
    match find_from(&m, &key, 0) {
        Some(i) => {
            proof {
                let c = choose|c: int| first_occurrence_from(m@, key@, 0, c);
                lemma_first_occurrence_unique(m@, key@, 0, i as int, c);
            }
            assert(key@.len() == 12);
            assert(i + key@.len() <= m@.len());
            assert(m@.len() == m.len());
            let start = i + 12;
            let amp = chars_of("&");
            proof {
                reveal_strlit("&");
                assert(amp@ =~= seq!['&']);
            }
            let end = match find_from(&m, &amp, start) {
                Some(j) => {
                    proof {
                        let c = choose|c: int| first_occurrence_from(m@, seq!['&'], start as int, c);
                        lemma_first_occurrence_unique(m@, seq!['&'], start as int, j as int, c);
                    }
                    j
                },
                None => {
                    assert(!exists|j: int| first_occurrence_from(m@, seq!['&'], start as int, j));
                    m.len()
                },
            };
            let hash = sub_chars(&m, start, end);
            if utf8_len_of(&hash) >= 20 {
                let up = to_uppercase(&hash);
                Some(string_of(&up))
            } else {
                None
            }
        },
        None => {
            assert(!exists|i: int| first_occurrence_from(m@, key@, 0, i));
            None
        },
    }
}

/// The identifier a newly added torrent is tracked by: its magnet hash, or
/// `unknown_<now>` where the link has none (`now` is a Unix time).
pub open spec fn tracked_torrent_id(magnet: Seq<char>, now: int) -> Seq<char> {
    match magnet_hash(magnet) {
        Some(h) => h,
        None => "unknown_"@ + signed_decimal(now),
    }
}

/// The identifier under which `add_magnet` reports a torrent it added at `now`.
pub fn tracked_torrent_id_for(magnet_url: &str, now: i64) -> (r: String)
    ensures
        r@ == tracked_torrent_id(magnet_url@, now as int),
{
    match extract_hash_from_magnet(magnet_url) {
        Some(h) => h,
        None => {
            let mut v: Vec<char> = Vec::new();
            push_str_chars(&mut v, "unknown_");
            push_signed_decimal(&mut v, now);
            string_of(&v)
        },
    }
}

// ---------------------------------------------------------------------------
// Human-readable byte sizes
// ---------------------------------------------------------------------------

/// The number of low bits that a `u64` loses when converted to `f64`: its bit
/// length beyond 53.
pub open spec fn lost_bits(b: nat) -> nat {
    if b < 0x20000000000000 {
        0
    } else if b < 0x40000000000000 {
        1
    } else if b < 0x80000000000000 {
        2
    } else if b < 0x100000000000000 {
        3
    } else if b < 0x200000000000000 {
        4
    } else if b < 0x400000000000000 {
        5
    } else if b < 0x800000000000000 {
        6
    } else if b < 0x1000000000000000 {
        7
    } else if b < 0x2000000000000000 {
        8
    } else if b < 0x4000000000000000 {
        9
    } else if b < 0x8000000000000000 {
        10
    } else {
        11
    }
}

/// 2 to the power `e`, for `e <= 11`.
pub open spec fn unit_of_bits(e: nat) -> nat {
    if e == 0 {
        1
    } else if e == 1 {
        2
    } else if e == 2 {
        4
    } else if e == 3 {
        8
    } else if e == 4 {
        16
    } else if e == 5 {
        32
    } else if e == 6 {
        64
    } else if e == 7 {
        128
    } else if e == 8 {
        256
    } else if e == 9 {
        512
    } else if e == 10 {
        1024
    } else {
        2048
    }
}

/// `b` rounded to the nearest multiple of `unit`, ties to an even multiple.
pub open spec fn round_half_even(b: nat, unit: nat) -> nat {
    let q = b / unit;
    let r = b % unit;
    if 2 * r > unit || (2 * r == unit && q % 2 == 1) {
        (q + 1) * unit
    } else {
        q * unit
    }
}

/// The value of `b as f64`: `b` rounded to 53 significant bits, ties to even.
pub open spec fn as_f64(b: nat) -> nat {
    round_half_even(b, unit_of_bits(lost_bits(b)))
}

/// How many times a size is divided by 1024 before it is shown: until it is
/// below 1024, and at most four times (terabytes).
pub open spec fn unit_steps(f: nat) -> nat {
    if f < 1024 {
        0
    } else if f < 1048576 {
        1
    } else if f < 1073741824 {
        2
    } else if f < 1099511627776 {
        3
    } else {
        4
    }
}

/// 1024 to the power `k`, for `k <= 4`.
pub open spec fn step_divisor(k: nat) -> nat {
    if k == 0 {
        1
    } else if k == 1 {
        1024
    } else if k == 2 {
        1048576
    } else if k == 3 {
        1073741824
    } else {
        1099511627776
    }
}

/// The unit name after `k` divisions.
pub open spec fn unit_name(k: nat) -> Seq<char> {
    if k == 0 {
        "B"@
    } else if k == 1 {
        "KB"@
    } else if k == 2 {
        "MB"@
    } else if k == 3 {
        "GB"@
    } else {
        "TB"@
    }
}

/// `f / d` in hundredths, rounded to nearest, ties to even (what `{:.2}` does
/// with an exact binary value).
pub open spec fn hundredths(f: nat, d: nat) -> nat {
    let t = f * 100;
    let q = t / d;
    let r = t % d;
    if 2 * r > d || (2 * r == d && q % 2 == 1) {
        q + 1
    } else {
        q
    }
}

/// `bytes` shown with two decimals in B, KB, MB, GB or TB, computed as the
/// floating-point code does: convert to `f64`, divide by 1024 while at least
/// 1024 (at most four times), print with `{:.2}`.
pub open spec fn bytes_text(bytes: nat) -> Seq<char> {
    let f = as_f64(bytes);
    let k = unit_steps(f);
    let q = hundredths(f, step_divisor(k));
    decimal(q / 100) + seq!['.'] + decimal2(q % 100) + seq![' '] + unit_name(k)
}

pub(crate) fn f64_value(bytes: u64) -> (f: u128)
    ensures
        f == as_f64(bytes as nat),
        f <= 0x10000000000000000,
{
    let b = bytes as u128;
    let unit: u128 = if b < 0x20000000000000 {
        1
    } else if b < 0x40000000000000 {
        2
    } else if b < 0x80000000000000 {
        4
    } else if b < 0x100000000000000 {
        8
    } else if b < 0x200000000000000 {
        16
    } else if b < 0x400000000000000 {
        32
    } else if b < 0x800000000000000 {
        64
    } else if b < 0x1000000000000000 {
        128
    } else if b < 0x2000000000000000 {
        256
    } else if b < 0x4000000000000000 {
        512
    } else if b < 0x8000000000000000 {
        1024
    } else {
        2048
    };
    assert(unit == unit_of_bits(lost_bits(bytes as nat)));
    let q = b / unit;
    let r = b % unit;
    proof {
        assert(q * unit <= b) by (nonlinear_arith)
            requires
                q == b / unit,
                unit > 0,
        ;
        assert((q + 1) * unit <= b + unit) by (nonlinear_arith)
            requires
                q == b / unit,
                unit > 0,
        ;
        if unit == 2048 {
            assert(q <= 0x1FFFFFFFFFFFFF) by (nonlinear_arith)
                requires
                    q == b / 2048,
                    b < 0x10000000000000000,
            ;
            assert((q + 1) * unit <= 0x10000000000000000) by (nonlinear_arith)
                requires
                    q <= 0x1FFFFFFFFFFFFF,
                    unit == 2048,
            ;
        } else {
            assert(b < 0x8000000000000000);
        }
    }
    let f = if 2 * r > unit || (2 * r == unit && q % 2 == 1) {
        (q + 1) * unit
    } else {
        q * unit
    };
    f
}

fn unit_name_str(k: u64) -> (s: &'static str)
    requires
        k <= 4,
    ensures
        s@ == unit_name(k as nat),
{
    if k == 0 {
        "B"
    } else if k == 1 {
        "KB"
    } else if k == 2 {
        "MB"
    } else if k == 3 {
        "GB"
    } else {
        "TB"
    }
}

/// Format bytes in human readable format (`1.00 KB`, `512.00 B`, ...).
pub fn format_bytes(bytes: u64) -> (r: String)
    ensures
        r@ == bytes_text(bytes as nat),
{
    let f = f64_value(bytes);
    let (k, d): (u64, u128) = if f < 1024 {
        (0, 1)
    } else if f < 1048576 {
        (1, 1024)
    } else if f < 1073741824 {
        (2, 1048576)
    } else if f < 1099511627776 {
        (3, 1073741824)
    } else {
        (4, 1099511627776)
    };
    assert(k == unit_steps(f as nat) && d == step_divisor(k as nat));
    let t = f * 100;
    let q0 = t / d;
    let rem = t % d;
    let q = if 2 * rem > d || (2 * rem == d && q0 % 2 == 1) {
        q0 + 1
    } else {
        q0
    };
    assert(q == hundredths(f as nat, d as nat));
    proof {
        assert(q0 <= t) by (nonlinear_arith)
            requires
                q0 == t / d,
                d >= 1,
        ;
    }
    let whole = q / 100;
    let frac = q % 100;
    proof {
        assert(whole <= 0x10000000000000000u128 * 100 + 1);
        if k < 4 {
            assert(whole <= 1025) by (nonlinear_arith)
                requires
                    whole == q / 100,
                    q <= q0 + 1,
                    q0 == t / d,
                    t == f * 100,
                    f < d * 1024,
                    d >= 1,
            ;
        } else {
            assert(whole <= 0x2000000) by (nonlinear_arith)
                requires
                    whole == q / 100,
                    q <= q0 + 1,
                    q0 == t / d,
                    t == f * 100,
                    f <= 0x10000000000000000,
                    d == 1099511627776,
            ;
        }
    }
    let mut v: Vec<char> = Vec::new();
    push_decimal(&mut v, whole as u64);
    v.push('.');
    push_decimal2(&mut v, frac as u64);
    v.push(' ');
    push_str_chars(&mut v, unit_name_str(k));
    assert(v@ =~= bytes_text(bytes as nat));
    string_of(&v)
}

// ---------------------------------------------------------------------------
// Torrent states and requests
// ---------------------------------------------------------------------------

/// A login succeeded when the answer was a success status and its body holds
/// `Ok.` or is empty.
pub open spec fn login_accepted(status_success: bool, body: Seq<char>) -> bool {
    status_success && (contains_seq(body, "Ok."@) || body.len() == 0)
}

/// Whether a login (or an add request) answer means success.
pub fn is_login_accepted(status_success: bool, body: &str) -> (r: bool)
    ensures
        r == login_accepted(status_success, body@),
{
    if !status_success {
        return false;
    }
    let b = chars_of(body);
    let ok = chars_of("Ok.");
    contains_chars(&b, &ok) || body.is_empty()
}

/// `downloading` or `metaDL`.
pub fn state_is_downloading(state: &str) -> (r: bool)
    ensures
        r == (state@ == "downloading"@ || state@ == "metaDL"@),
{
    let s = chars_of(state);
    crate::text::chars_eq(&s, &chars_of("downloading")) || crate::text::chars_eq(&s, &chars_of("metaDL"))
}

/// `pausedDL` or `pausedUP`.
pub fn state_is_paused(state: &str) -> (r: bool)
    ensures
        r == (state@ == "pausedDL"@ || state@ == "pausedUP"@),
{
    let s = chars_of(state);
    crate::text::chars_eq(&s, &chars_of("pausedDL")) || crate::text::chars_eq(&s, &chars_of("pausedUP"))
}

/// `uploading` or `stalledUP`.
pub fn state_is_seeding(state: &str) -> (r: bool)
    ensures
        r == (state@ == "uploading"@ || state@ == "stalledUP"@),
{
    let s = chars_of(state);
    crate::text::chars_eq(&s, &chars_of("uploading")) || crate::text::chars_eq(&s, &chars_of("stalledUP"))
}

/// `error` or `missingFiles`.
pub fn state_is_error(state: &str) -> (r: bool)
    ensures
        r == (state@ == "error"@ || state@ == "missingFiles"@),
{
    let s = chars_of(state);
    crate::text::chars_eq(&s, &chars_of("error")) || crate::text::chars_eq(&s, &chars_of("missingFiles"))
}

/// The texts of a list of form fields.
pub open spec fn field_texts(v: Seq<(String, String)>) -> Seq<(Seq<char>, Seq<char>)> {
    v.map_values(|p: (String, String)| (p.0@, p.1@))
}

/// The multipart fields sent to add a magnet link: the link, the optional
/// category and save path, then fixed defaults.
pub open spec fn add_torrent_fields(
    magnet: Seq<char>,
    category: Option<Seq<char>>,
    save_path: Option<Seq<char>>,
) -> Seq<(Seq<char>, Seq<char>)> {
    seq![("urls"@, magnet)] + match category {
        Some(c) => seq![("category"@, c)],
        None => Seq::empty(),
    } + match save_path {
        Some(p) => seq![("savepath"@, p)],
        None => Seq::empty(),
    } + seq![
        ("paused"@, "false"@),
        ("skip_checking"@, "false"@),
        ("root_folder"@, "true"@),
        ("auto_tmm"@, "false"@),
    ]
}

fn push_field(v: &mut Vec<(String, String)>, k: &str, val: &str)
    ensures
        field_texts(final(v)@) == field_texts(old(v)@).push((k@, val@)),
{
    let ghost before = v@;
    v.push((owned(k), owned(val)));
    assert(field_texts(v@) =~= field_texts(before).push((k@, val@)));
}

/// The form fields of an add-torrent request.
pub fn add_torrent_form(magnet_url: &str, category: Option<&str>, save_path: Option<&str>) -> (r:
    Vec<(String, String)>)
    ensures
        field_texts(r@) == add_torrent_fields(
            magnet_url@,
            match category {
                Some(c) => Some(c@),
                None => None,
            },
            match save_path {
                Some(p) => Some(p@),
                None => None,
            },
        ),
{
    let mut v: Vec<(String, String)> = Vec::new();
    push_field(&mut v, "urls", magnet_url);
    if let Some(cat) = category {
        push_field(&mut v, "category", cat);
    }
    if let Some(path) = save_path {
        push_field(&mut v, "savepath", path);
    }
    push_field(&mut v, "paused", "false");
    push_field(&mut v, "skip_checking", "false");
    push_field(&mut v, "root_folder", "true");
    push_field(&mut v, "auto_tmm", "false");
    assert(field_texts(v@) =~= add_torrent_fields(
        magnet_url@,
        match category {
            Some(c) => Some(c@),
            None => None,
        },
        match save_path {
            Some(p) => Some(p@),
            None => None,
        },
    ));
    v
}

} // verus!
