//! MusicBrainz: metadata records, request addresses and parameters, release
//! dates, genres and cover-art choice.
use vstd::prelude::*;
use chrono::Datelike;
use chrono::NaiveDate;
use crate::text::{
    chars_of, concat, decimal, join, joined, lemma_concat, owned, parse_i32, parse_signed, parse_u32,
    pair_texts, parse_unsigned, push_pair, push_string, split_chars, split_on, string_of, texts, u64_to_string, utf8_len, views_of,
};

verus! {

/// Geographic area information.
#[derive(Debug, Clone)]
pub struct Area {
    pub id: String,
    pub name: String,
    pub sort_name: Option<String>,
    pub area_type: Option<String>,
    pub iso_3166_1_codes: Option<Vec<String>>,
    pub iso_3166_2_codes: Option<Vec<String>>,
    pub iso_3166_3_codes: Option<Vec<String>>,
}

/// Life span information (begin and end dates).
#[derive(Debug, Clone)]
pub struct LifeSpan {
    pub begin: Option<String>,
    pub end: Option<String>,
    pub ended: Option<bool>,
}

/// Alias information.
#[derive(Debug, Clone)]
pub struct Alias {
    pub name: String,
    pub sort_name: Option<String>,
    pub alias_type: Option<String>,
    pub locale: Option<String>,
    pub primary: Option<bool>,
}

/// Genre information.
#[derive(Debug, Clone)]
pub struct Genre {
    pub id: String,
    pub name: String,
    pub count: Option<u32>,
}

/// Tag information.
#[derive(Debug, Clone)]
pub struct Tag {
    pub name: String,
    pub count: Option<u32>,
}

/// URL information in relations.
#[derive(Debug, Clone)]
pub struct Url {
    pub id: String,
    pub resource: String,
}

/// Label information of a release.
#[derive(Debug, Clone)]
pub struct LabelInfo {
    pub catalog_number: Option<String>,
    pub label: Option<Label>,
}

/// Label entity.
#[derive(Debug, Clone)]
pub struct Label {
    pub id: String,
    pub name: String,
    pub sort_name: Option<String>,
    pub disambiguation: Option<String>,
    pub label_type: Option<String>,
    pub country: Option<String>,
    pub area: Option<Area>,
    pub life_span: Option<LifeSpan>,
}

/// Cover Art Archive information of a release.
#[derive(Debug, Clone)]
pub struct CoverArtArchive {
    pub artwork: Option<bool>,
    pub count: Option<u32>,
    pub front: Option<bool>,
    pub back: Option<bool>,
}

/// Cover art image information.
#[derive(Debug, Clone)]
pub struct CoverArtImage {
    pub id: String,
    pub image: String,
    pub thumbnails: Option<CoverArtThumbnails>,
    pub front: Option<bool>,
    pub back: Option<bool>,
    pub types: Option<Vec<String>>,
    pub comment: Option<String>,
    pub approved: Option<bool>,
    pub edit: Option<u32>,
}

/// Cover art thumbnails.
#[derive(Debug, Clone)]
pub struct CoverArtThumbnails {
    pub small: Option<String>,
    pub large: Option<String>,
    pub thumb_250: Option<String>,
    pub thumb_500: Option<String>,
    pub thumb_1200: Option<String>,
}

/// A day of the proleptic Gregorian calendar.
#[derive(Debug, Clone, Copy, PartialEq, Eq, Structural)]
pub struct CalendarDate {
    pub year: i32,
    pub month: u32,
    pub day: u32,
}

/// Leap years of the proleptic Gregorian calendar.
pub open spec fn is_leap_year(y: int) -> bool {
    y % 4 == 0 && (y % 100 != 0 || y % 400 == 0)
}

/// The number of days of month `m` of year `y`.
pub open spec fn days_in_month(y: int, m: int) -> int {
    if m == 2 {
        if is_leap_year(y) {
            29
        } else {
            28
        }
    } else if m == 4 || m == 6 || m == 9 || m == 11 {
        30
    } else {
        31
    }
}

/// Whether `y-m-d` is a day that chrono's `NaiveDate` can hold: years
/// -262143 to 262142.
pub open spec fn valid_date(y: int, m: int, d: int) -> bool {
    -262143 <= y <= 262142 && 1 <= m <= 12 && 1 <= d <= days_in_month(y, m)
}

/// The date `y-m-d`, where it exists.
pub open spec fn date_of(y: int, m: int, d: int) -> Option<CalendarDate> {
    if valid_date(y, m, d) {
        Some(CalendarDate { year: y as i32, month: m as u32, day: d as u32 })
    } else {
        None
    }
}

/// What chrono's `NaiveDate::parse_from_str(s, "%Y-%m-%d")` reads from `s`.
pub uninterp spec fn iso_date_parse(s: Seq<char>) -> Option<CalendarDate>;

/// chrono's `NaiveDate::from_ymd_opt`: the date, if it exists and is in
/// chrono's range (years -262143 to 262142, Gregorian leap years).
#[verifier::external_body]
fn date_from_ymd(year: i32, month: u32, day: u32) -> (r: Option<CalendarDate>)
    ensures
        r == date_of(year as int, month as int, day as int),
{
    match NaiveDate::from_ymd_opt(year, month, day) {
        Some(d) => Some(CalendarDate { year: d.year(), month: d.month(), day: d.day() }),
        None => None,
    }
}

/// chrono's `NaiveDate::parse_from_str(s, "%Y-%m-%d")`, its error dropped.
/// Only that a date read this way exists is stated; which texts it accepts
/// is left to the name `iso_date_parse`.
#[verifier::external_body]
fn parse_iso_date(s: &str) -> (r: Option<CalendarDate>)
    ensures
        r == iso_date_parse(s@),
        r matches Some(d) ==> valid_date(d.year as int, d.month as int, d.day as int),
{
    match NaiveDate::parse_from_str(s, "%Y-%m-%d") {
        Ok(d) => Some(CalendarDate { year: d.year(), month: d.month(), day: d.day() }),
        Err(_) => None,
    }
}

/// The date MusicBrainz means by `s`: `YYYY` (the first of January),
/// `YYYY-MM` (the first of the month) or `YYYY-MM-DD`, told apart by their
/// length in bytes.
pub open spec fn release_date(s: Seq<char>) -> Option<CalendarDate> {
    let n = utf8_len(s);
    if n == 4 {
        match parse_signed(s, i32::MIN as int, i32::MAX as int) {
            Some(y) => date_of(y, 1, 1),
            None => None,
        }
    } else if n == 7 {
        let parts = split_on(s, '-');
        if parts.len() == 2 {
            match (
                parse_signed(parts[0], i32::MIN as int, i32::MAX as int),
                parse_unsigned(parts[1], u32::MAX as nat),
            ) {
                (Some(y), Some(m)) => date_of(y, m as int, 1),
                _ => None,
            }
        } else {
            None
        }
    } else if n == 10 {
        iso_date_parse(s)
    } else {
        None
    }
}

/// The outcome of a lookup by MusicBrainz id.
pub enum Lookup {
    /// 200: read the entity from the body.
    Found,
    /// 404: there is no such entity.
    Missing,
    /// Any other status: the lookup failed.
    Failed(u16),
}

/// What the library keeps of a MusicBrainz connection.
pub struct MusicBrainzClient {
    pub base_url: String,
    pub cover_art_url: String,
    pub user_agent: String,
    pub rate_limit_delay_ms: u64,
}

/// The genres of an artist: the names of all its genres, then the names of
/// its tags counted more than five times (no count is zero).
pub open spec fn artist_genres(genres: Option<Seq<Genre>>, tags: Option<Seq<Tag>>) -> Seq<Seq<char>> {
    (match genres {
        Some(g) => g.map_values(|x: Genre| x.name@),
        None => Seq::empty(),
    }) + (match tags {
        Some(t) => t.filter(|x: Tag| x.count.unwrap_or(0) > 5).map_values(|x: Tag| x.name@),
        None => Seq::empty(),
    })
}

/// `parts` joined with `sep` (std `[&str]::join`).
pub fn join_with(parts: &[&str], sep: &str) -> (r: String)
    ensures
        r@ == joined(parts@.map_values(|p: &str| p@), sep@),
{
    let mut v: Vec<char> = Vec::new();
    let mut i: usize = 0;
    let sv = chars_of(sep);
    while i < parts.len()
        invariant
            i <= parts@.len(),
            sv@ == sep@,
            v@ == joined(parts@.subrange(0, i as int).map_values(|p: &str| p@), sep@),
        decreases parts@.len() - i,
    {
        let ghost pre = parts@.subrange(0, i as int).map_values(|p: &str| p@);
        let ghost next = parts@.subrange(0, i + 1).map_values(|p: &str| p@);
        proof {
            assert(next.drop_last() =~= pre);
            assert(next.last() == parts@[i as int]@);
        }
        if i > 0 {
            let mut k: usize = 0;
            while k < sv.len()
                invariant
                    k <= sv@.len(),
                    v@ == joined(pre, sep@) + sv@.subrange(0, k as int),
                decreases sv@.len() - k,
            {
                v.push(sv[k]);
                k = k + 1;
                assert(v@ =~= joined(pre, sep@) + sv@.subrange(0, k as int));
            }
            assert(sv@.subrange(0, sv@.len() as int) =~= sv@);
        } else {
            assert(pre.len() == 0);
        }
        let cs = chars_of(parts[i]);
        let mut k: usize = 0;
        let ghost mid = v@;
        while k < cs.len()
            invariant
                k <= cs@.len(),
                v@ == mid + cs@.subrange(0, k as int),
            decreases cs@.len() - k,
        {
            v.push(cs[k]);
            k = k + 1;
            assert(v@ =~= mid + cs@.subrange(0, k as int));
        }
        assert(cs@.subrange(0, cs@.len() as int) =~= cs@);
        proof {
            if i == 0 {
                assert(v@ =~= joined(next, sep@));
            } else {
                assert(v@ =~= joined(next, sep@));
            }
        }
        i = i + 1;
    }
    assert(parts@.subrange(0, parts@.len() as int) =~= parts@);
    string_of(&v)
}

impl MusicBrainzClient {
    /// A client that announces itself as `user_agent`, sends at most one
    /// request a second, and uses the public MusicBrainz and Cover Art
    /// Archive services.
    pub fn new(user_agent: &str) -> (r: Self)
        ensures
            r.base_url@ == "https://musicbrainz.org/ws/2"@,
            r.cover_art_url@ == "https://coverartarchive.org"@,
            r.user_agent@ == user_agent@,
            r.rate_limit_delay_ms == 1000,
    {
        MusicBrainzClient {
            base_url: owned("https://musicbrainz.org/ws/2"),
            cover_art_url: owned("https://coverartarchive.org"),
            user_agent: owned(user_agent),
            rate_limit_delay_ms: 1000,
        }
    }

    /// How long to wait before the next request, `elapsed_ms` after the last
    /// one (none yet: no wait).
    pub fn rate_limit_wait(&self, elapsed_ms: Option<u64>) -> (r: u64)
        ensures
            match elapsed_ms {
                Some(e) => r == if e < self.rate_limit_delay_ms {
                    self.rate_limit_delay_ms - e
                } else {
                    0
                },
                None => r == 0,
            },
            elapsed_ms matches Some(e) ==> e + r >= self.rate_limit_delay_ms,
    {
        match elapsed_ms {
            Some(e) => if e < self.rate_limit_delay_ms {
                self.rate_limit_delay_ms - e
            } else {
                0
            },
            None => 0,
        }
    }

    /// The artist fetched by a health check.
    pub fn health_url(&self) -> (r: String)
        ensures
            r@ == self.base_url@ + "/artist/5b11f4ce-a62d-471e-81fc-a69a8278c7da"@,
    {
        let b = self.base_url.as_str();
        proof {
            lemma_concat(b, "/artist/5b11f4ce-a62d-471e-81fc-a69a8278c7da", "", "", "");
        }
        join(&[b, "/artist/5b11f4ce-a62d-471e-81fc-a69a8278c7da"])
    }

    /// The address of an entity (`artist`, `release`, `recording`) by id.
    pub fn entity_url(&self, kind: &str, mbid: &str) -> (r: String)
        ensures
            r@ == self.base_url@ + "/"@ + kind@ + "/"@ + mbid@,
    {
        let b = self.base_url.as_str();
        proof {
            lemma_concat(b, "/", kind, "/", mbid);
        }
        join(&[b, "/", kind, "/", mbid])
    }

    /// The search address for an entity kind.
    pub fn search_url(&self, kind: &str) -> (r: String)
        ensures
            r@ == self.base_url@ + "/"@ + kind@,
    {
        let b = self.base_url.as_str();
        proof {
            lemma_concat(b, "/", kind, "", "");
        }
        join(&[b, "/", kind])
    }

    /// The cover art of a release.
    pub fn cover_art_address(&self, release_mbid: &str) -> (r: String)
        ensures
            r@ == self.cover_art_url@ + "/release/"@ + release_mbid@,
    {
        let b = self.cover_art_url.as_str();
        proof {
            lemma_concat(b, "/release/", release_mbid, "", "");
        }
        join(&[b, "/release/", release_mbid])
    }

    /// The query of a lookup: JSON, and the included sub-queries joined by
    /// `+` where given.
    pub fn lookup_params(&self, includes: Option<&[&str]>) -> (r: Vec<(String, String)>)
        ensures
            pair_texts(r@) == seq![("fmt"@, "json"@)] + match includes {
                Some(inc) => seq![("inc"@, joined(inc@.map_values(|p: &str| p@), "+"@))],
                None => Seq::empty(),
            },
    {
        let mut v: Vec<(String, String)> = Vec::new();
        push_pair(&mut v, "fmt", "json");
        if let Some(inc) = includes {
            let j = join_with(inc, "+");
            push_pair(&mut v, "inc", j.as_str());
        }
        assert(pair_texts(v@) =~= seq![("fmt"@, "json"@)] + match includes {
            Some(inc) => seq![("inc"@, joined(inc@.map_values(|p: &str| p@), "+"@))],
            None => Seq::empty(),
        });
        v
    }

    /// The query of a search: the query text, JSON, and the limit where given.
    pub fn search_params(&self, query: &str, limit: Option<u32>) -> (r: Vec<(String, String)>)
        ensures
            pair_texts(r@) == seq![("query"@, query@), ("fmt"@, "json"@)] + match limit {
                Some(n) => seq![("limit"@, decimal(n as nat))],
                None => Seq::empty(),
            },
    {
        let mut v: Vec<(String, String)> = Vec::new();
        push_pair(&mut v, "query", query);
        push_pair(&mut v, "fmt", "json");
        if let Some(n) = limit {
            let d = u64_to_string(n as u64);
            push_pair(&mut v, "limit", d.as_str());
        }
        assert(pair_texts(v@) =~= seq![("query"@, query@), ("fmt"@, "json"@)] + match limit {
            Some(n) => seq![("limit"@, decimal(n as nat))],
            None => Seq::empty(),
        });
        v
    }

    /// Genres of an artist, from its genres and tags.
    pub fn extract_artist_genres(&self, genres: &Option<Vec<Genre>>, tags: &Option<Vec<Tag>>) -> (r:
        Vec<String>)
        ensures
            texts(r@) == artist_genres(
                match genres {
                    Some(g) => Some(g@),
                    None => None,
                },
                match tags {
                    Some(t) => Some(t@),
                    None => None,
                },
            ),
    {
        let mut out: Vec<String> = Vec::new();
        let ghost gpart: Seq<Seq<char>> = match genres {
            Some(g) => g@.map_values(|x: Genre| x.name@),
            None => Seq::empty(),
        };
        if let Some(g) = genres {
            let mut i: usize = 0;
            while i < g.len()
                invariant
                    i <= g@.len(),
                    texts(out@) == g@.subrange(0, i as int).map_values(|x: Genre| x.name@),
                decreases g@.len() - i,
            {
                proof {
                    assert(g@.subrange(0, i + 1).map_values(|x: Genre| x.name@) =~= g@.subrange(
                        0,
                        i as int,
                    ).map_values(|x: Genre| x.name@).push(g@[i as int].name@));
                }
                push_string(&mut out, g[i].name.as_str());
                i = i + 1;
            }
            assert(g@.subrange(0, g@.len() as int) =~= g@);
        }
        assert(texts(out@) =~= gpart);
        if let Some(t) = tags {
            let ghost keep = |x: Tag| x.count.unwrap_or(0) > 5;
            let mut i: usize = 0;
            while i < t.len()
                invariant
                    i <= t@.len(),
                    texts(out@) == gpart + t@.subrange(0, i as int).filter(keep).map_values(
                        |x: Tag| x.name@,
                    ),
                    keep == (|x: Tag| x.count.unwrap_or(0) > 5),
                decreases t@.len() - i,
            {
                let ghost pre = t@.subrange(0, i as int);
                proof {
                    assert(t@.subrange(0, i + 1) =~= pre.push(t@[i as int]));
                    pre.lemma_filter_push(t@[i as int], keep);
                }
                let c = match t[i].count {
                    Some(c) => c,
                    None => 0,
                };
                if c > 5 {
                    proof {
                        assert(pre.push(t@[i as int]).filter(keep) == pre.filter(keep).push(
                            t@[i as int],
                        ));
                        assert(pre.filter(keep).push(t@[i as int]).map_values(|x: Tag| x.name@)
                            =~= pre.filter(keep).map_values(|x: Tag| x.name@).push(
                            t@[i as int].name@,
                        ));
                    }
                    push_string(&mut out, t[i].name.as_str());
                    assert(texts(out@) =~= gpart + t@.subrange(0, i + 1).filter(keep).map_values(
                        |x: Tag| x.name@,
                    ));
                } else {
                    assert(texts(out@) =~= gpart + t@.subrange(0, i + 1).filter(keep).map_values(
                        |x: Tag| x.name@,
                    ));
                }
                i = i + 1;
            }
            assert(t@.subrange(0, t@.len() as int) =~= t@);
        }
        assert(texts(out@) =~= artist_genres(
            match genres {
                Some(g) => Some(g@),
                None => None,
            },
            match tags {
                Some(t) => Some(t@),
                None => None,
            },
        ));
        out
    }

    /// Reads a MusicBrainz date: `YYYY`, `YYYY-MM` or `YYYY-MM-DD`.
    pub fn parse_release_date(&self, date_str: &str) -> (r: Option<CalendarDate>)
        ensures
            r == release_date(date_str@),
    {
        let n = date_str.as_bytes().len();
        let s = chars_of(date_str);
        if n == 4 {
            match parse_i32(&s) {
                Some(y) => date_from_ymd(y, 1, 1),
                None => None,
            }
        } else if n == 7 {
            let parts = split_chars(&s, '-');
            proof {
                assert(views_of(parts@).len() == parts@.len());
            }
            if parts.len() == 2 {
                proof {
                    assert(views_of(parts@)[0] == parts@[0]@);
                    assert(views_of(parts@)[1] == parts@[1]@);
                }
                match (parse_i32(&parts[0]), parse_u32(&parts[1])) {
                    (Some(y), Some(m)) => date_from_ymd(y, m, 1),
                    _ => None,
                }
            } else {
                None
            }
        } else if n == 10 {
            parse_iso_date(date_str)
        } else {
            None
        }
    }
}

/// What a lookup by id answered with `status` means.
pub fn lookup_outcome(status: u16) -> (r: Lookup)
    ensures
        status == 200 ==> r is Found,
        status == 404 ==> r is Missing,
        status != 200 && status != 404 ==> (r matches Lookup::Failed(s) && s == status),
{
    if status == 200 {
        Lookup::Found
    } else if status == 404 {
        Lookup::Missing
    } else {
        Lookup::Failed(status)
    }
}

/// The image to use as the front cover, by index: the first marked front,
/// else the first of all.
pub fn front_cover_index(images: &Vec<CoverArtImage>) -> (r: Option<usize>)
    ensures
        match r {
            Some(i) => i < images@.len() && (
                (images@[i as int].front == Some(true) && forall|j: int|
                    0 <= j < i ==> #[trigger] images@[j].front != Some(true))
                || (i == 0 && forall|j: int|
                    0 <= j < images@.len() ==> #[trigger] images@[j].front != Some(true))),
            None => images@.len() == 0,
        },
{
    let mut i: usize = 0;
    while i < images.len()
        invariant
            i <= images@.len(),
            forall|j: int| 0 <= j < i ==> #[trigger] images@[j].front != Some(true),
        decreases images@.len() - i,
    {
        if let Some(true) = images[i].front {
            return Some(i);
        }
        i = i + 1;
    }
    if images.len() > 0 {
        Some(0)
    } else {
        None
    }
}

/// The query of a fuzzy artist search.
pub fn artist_search_query(name: &str) -> (r: String)
    ensures
        r@ == "artist:"@ + name@,
{
    proof {
        lemma_concat("artist:", name, "", "", "");
    }
    join(&["artist:", name])
}

/// The query of a fuzzy release search.
pub fn release_search_query(artist: &str, album: &str) -> (r: String)
    ensures
        r@ == "artist:"@ + artist@ + " AND release:"@ + album@,
{
    proof {
        lemma_concat("artist:", artist, " AND release:", album, "");
    }
    join(&["artist:", artist, " AND release:", album])
}

} // verus!
