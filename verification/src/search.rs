//! Catalogue search: which sources a search asks, the MusicBrainz search
//! addresses, and how each kind of answer record becomes a search hit.
use vstd::prelude::*;
use crate::clients::navidrome::utf8_bytes;
use crate::lidarr_addon::{percent_encoded, url_encode};
use crate::text::{
    chars_eq, chars_of, contains_chars, contains_seq, join, join_texts, joined, lemma_concat,
    lemma_split_nonempty, lowercase, owned, parse_u32, parse_unsigned, split_chars, split_on, texts, to_lowercase,
    u64_to_string, decimal, views_of, lemma_split_first, lemma_split_without_sep, all_digits, digits_value,
    is_digit,
};

verus! {

/// The kinds of MusicBrainz search.
#[derive(Debug, Clone, Copy, PartialEq, Eq, Structural)]
pub enum SearchKind {
    Artist,
    Album,
    Recording,
}

/// What an artist record of a MusicBrainz search answer holds (the names of
/// its tags and aliases where it has such lists, the resources of its
/// `official homepage` relations).
pub struct ArtistRecord {
    pub name: Option<String>,
    pub id: Option<String>,
    pub disambiguation: Option<String>,
    pub country: Option<String>,
    pub life_span_begin: Option<String>,
    pub artist_type: Option<String>,
    pub tag_names: Option<Vec<String>>,
    pub alias_names: Option<Vec<String>>,
    pub homepages: Vec<String>,
    pub score: Option<u64>,
}

/// A relation of a MusicBrainz artist: its type and the resource of its
/// URL, where the answer gives them as strings.
pub struct ArtistRelation {
    pub relation_type: Option<String>,
    pub url_resource: Option<String>,
}

/// The resources of the `official homepage` relations that name one, in order.
pub open spec fn homepage_resources(rels: Seq<ArtistRelation>) -> Seq<Seq<char>>
    decreases rels.len(),
{
    if rels.len() == 0 {
        Seq::empty()
    } else {
        let last = rels.last();
        let before = homepage_resources(rels.drop_last());
        match (last.relation_type, last.url_resource) {
            (Some(t), Some(u)) => if t@ == "official homepage"@ {
                before.push(u@)
            } else {
                before
            },
            _ => before,
        }
    }
}

/// The homepages of an artist: the URL resources of its `official homepage`
/// relations, in order.
pub fn official_homepages(relations: &Vec<ArtistRelation>) -> (r: Vec<String>)
    ensures
        texts(r@) == homepage_resources(relations@),
{
    let mut out: Vec<String> = Vec::new();
    let mut i: usize = 0;
    while i < relations.len()
        invariant
            i <= relations@.len(),
            texts(out@) == homepage_resources(relations@.take(i as int)),
        decreases relations@.len() - i,
    {
        proof {
            assert(relations@.take(i + 1).drop_last() =~= relations@.take(i as int));
            assert(relations@.take(i + 1).last() == relations@[i as int]);
        }
        let rel = &relations[i];
        match (&rel.relation_type, &rel.url_resource) {
            (Some(t), Some(u)) => {
                if chars_eq(&chars_of(t.as_str()), &chars_of("official homepage")) {
                    crate::text::push_string(&mut out, u.as_str());
                }
            },
            _ => {},
        }
        i = i + 1;
    }
    assert(relations@.take(relations@.len() as int) =~= relations@);
    out
}

/// A search hit for an artist.
pub struct ArtistHit {
    pub id: String,
    pub name: String,
    pub album: String,
    pub year: Option<u32>,
    pub genre: String,
    pub external_url: String,
    pub musicbrainz_id: String,
    pub score: u64,
    pub country: String,
    pub disambiguation: String,
    pub artist_type: String,
    pub aliases: String,
    pub external_urls: Vec<String>,
}

/// What a release-group record of a MusicBrainz search answer holds.
pub struct AlbumRecord {
    pub title: Option<String>,
    pub id: Option<String>,
    pub primary_type: Option<String>,
    pub secondary_types: Option<Vec<String>>,
    pub first_artist_name: Option<String>,
    pub first_release_date: Option<String>,
    pub score: Option<u64>,
}

/// A search hit for an album.
pub struct AlbumHit {
    pub id: String,
    pub title: String,
    pub artist: String,
    pub year: Option<u32>,
    pub genre: String,
    pub external_url: String,
    pub musicbrainz_id: String,
    pub score: u64,
    pub primary_type: String,
    pub secondary_types: String,
}

/// What a recording record of a MusicBrainz search answer holds.
pub struct RecordingRecord {
    pub title: Option<String>,
    pub id: Option<String>,
    pub first_artist_name: Option<String>,
    pub length_ms: Option<u64>,
    pub first_release_title: Option<String>,
    pub first_release_date: Option<String>,
    pub score: Option<u64>,
    pub isrcs: Option<Vec<String>>,
    pub tag_names: Option<Vec<String>>,
}

/// A search hit for a recording.
pub struct RecordingHit {
    pub id: String,
    pub title: String,
    pub artist: String,
    pub album: String,
    pub duration: Option<u64>,
    pub year: Option<u32>,
    pub genre: String,
    pub external_url: String,
    pub musicbrainz_id: String,
    pub score: u64,
    pub isrcs: String,
}

/// What a release known to Lidarr holds.
pub struct ReleaseRecord {
    pub title: Option<String>,
    pub artist_name: Option<String>,
    pub quality: Option<String>,
    pub album_title: Option<String>,
    pub size: Option<u64>,
    pub seeders: Option<u64>,
    pub leechers: Option<u64>,
    pub magnet_url: Option<String>,
    pub indexer: Option<String>,
    pub guid: Option<String>,
}

/// A downloadable release offered by a search.
pub struct ReleaseHit {
    pub id: String,
    pub title: String,
    pub artist: String,
    pub album: String,
    pub quality: String,
    pub size_mb: u64,
    pub seeders: u64,
    pub leechers: u64,
    pub indexer: String,
    pub magnet_url: Option<String>,
}

// ---------------------------------------------------------------------------
// Plain rules
// ---------------------------------------------------------------------------

/// The text of an optional string, or `d`.
pub open spec fn text_or(o: Option<String>, d: Seq<char>) -> Seq<char> {
    match o {
        Some(s) => s@,
        None => d,
    }
}

/// The year at the start of a date (`YYYY`, `YYYY-MM`, ...): the part before
/// the first `-`, where it reads as a `u32`; none for an empty date.
pub open spec fn year_of(date: Seq<char>) -> Option<u32> {
    if date.len() == 0 {
        None
    } else {
        match parse_unsigned(split_on(date, '-')[0], u32::MAX as nat) {
            Some(y) => Some(y as u32),
            None => None,
        }
    }
}

/// What is shown as an artist's album column: its disambiguation, else its
/// type and country, else its type.
pub open spec fn album_context(disambiguation: Seq<char>, country: Seq<char>, artist_type: Seq<char>) -> Seq<
    char,
> {
    if disambiguation.len() > 0 {
        disambiguation
    } else if country.len() > 0 {
        artist_type + " ("@ + country + ")"@
    } else {
        artist_type
    }
}

/// At most the first `n` names, joined with `, `.
pub open spec fn first_names(names: Seq<Seq<char>>, n: nat) -> Seq<char> {
    joined(names.take(if names.len() < n { names.len() as int } else { n as int }), ", "@)
}

fn text_or_exec(o: &Option<String>, d: &str) -> (r: String)
    ensures
        r@ == text_or(*o, d@),
{
    match o {
        Some(s) => owned(s.as_str()),
        None => owned(d),
    }
}

fn first_names_exec(names: &Vec<String>, n: usize) -> (r: String)
    ensures
        r@ == first_names(texts(names@), n as nat),
{
    let count = if names.len() < n {
        names.len()
    } else {
        n
    };
    join_texts(names, count, ", ")
}

/// The year of a date is the number before its first `-`, or the whole
/// date where it has no `-`: a date without `-` reads as the `u32` it
/// spells (so `"1993"` gives 1993), and one that continues with `-` after a
/// dash-free part `a` reads as `a` does.
pub proof fn year_is_read_before_the_first_dash(a: Seq<char>, rest: Seq<char>)
    requires
        !a.contains('-'),
    ensures
        a.len() > 0 ==> year_of(a) == match parse_unsigned(a, u32::MAX as nat) {
            Some(y) => Some(y as u32),
            None => None::<u32>,
        },
        year_of(a + seq!['-'] + rest) == match parse_unsigned(a, u32::MAX as nat) {
            Some(y) => Some(y as u32),
            None => None::<u32>,
        },
        (a.len() > 0 && all_digits(a) && digits_value(a) <= u32::MAX) ==> year_of(a) == Some(
            digits_value(a) as u32,
        ),
{
    lemma_split_without_sep(a, '-');
    lemma_split_first(a, '-', rest);
    if a.len() > 0 && all_digits(a) {
        assert(is_digit(a[0]));
    }
}

/// The year at the start of a date.
pub fn year_from_date(date: &str) -> (r: Option<u32>)
    ensures
        r == year_of(date@),
{
    let d = chars_of(date);
    if d.len() == 0 {
        return None;
    }
    let parts = split_chars(&d, '-');
    proof {
        lemma_split_nonempty(d@, '-');
        assert(views_of(parts@)[0] == parts@[0]@);
    }
    parse_u32(&parts[0])
}

/// What is shown as an artist's album column.
pub fn album_context_of(disambiguation: &str, country: &str, artist_type: &str) -> (r: String)
    ensures
        r@ == album_context(disambiguation@, country@, artist_type@),
{
    if !disambiguation.is_empty() {
        owned(disambiguation)
    } else if !country.is_empty() {
        proof {
            lemma_concat(artist_type, " (", country, ")", "");
        }
        join(&[artist_type, " (", country, ")"])
    } else {
        owned(artist_type)
    }
}

/// The hit for an artist record, if it has a name.
pub open spec fn artist_hit_of(h: ArtistHit, rec: ArtistRecord) -> bool {
    let id = text_or(rec.id, Seq::empty());
    let dis = text_or(rec.disambiguation, Seq::empty());
    let country = text_or(rec.country, Seq::empty());
    let ty = text_or(rec.artist_type, "Artist"@);
    &&& rec.name matches Some(n) && h.name@ == n@
    &&& h.id@ == "musicbrainz_artist_"@ + id
    &&& h.album@ == album_context(dis, country, ty)
    &&& h.year == year_of(text_or(rec.life_span_begin, Seq::empty()))
    &&& h.genre@ == match rec.tag_names {
        Some(t) => first_names(texts(t@), 3),
        None => ty,
    }
    &&& h.external_url@ == "https://musicbrainz.org/artist/"@ + id
    &&& h.musicbrainz_id@ == id
    &&& h.score == rec.score.unwrap_or(0)
    &&& h.country@ == country
    &&& h.disambiguation@ == dis
    &&& h.artist_type@ == ty
    &&& h.aliases@ == match rec.alias_names {
        Some(a) => first_names(texts(a@), 3),
        None => Seq::empty(),
    }
    &&& texts(h.external_urls@) == texts(rec.homepages@).take(
        if rec.homepages@.len() < 2 {
            rec.homepages@.len() as int
        } else {
            2
        },
    )
}

/// The search hit for one artist record; none where it has no name.
pub fn artist_hit(rec: &ArtistRecord) -> (r: Option<ArtistHit>)
    ensures
        rec.name is None ==> r is None,
        rec.name is Some ==> (r matches Some(h) && artist_hit_of(h, *rec)),
{
    let name = match &rec.name {
        Some(n) => owned(n.as_str()),
        None => return None,
    };
    proof {
        reveal_strlit("");
        assert(""@ =~= Seq::<char>::empty());
    }
    let id = text_or_exec(&rec.id, "");
    let dis = text_or_exec(&rec.disambiguation, "");
    let country = text_or_exec(&rec.country, "");
    let ty = text_or_exec(&rec.artist_type, "Artist");
    let begin = text_or_exec(&rec.life_span_begin, "");
    let genre = match &rec.tag_names {
        Some(t) => first_names_exec(t, 3),
        None => owned(ty.as_str()),
    };
    let aliases = match &rec.alias_names {
        Some(a) => first_names_exec(a, 3),
        None => String::new(),
    };
    let mut urls: Vec<String> = Vec::new();
    let mut i: usize = 0;
    while i < rec.homepages.len() && i < 2
        invariant
            i <= rec.homepages@.len(),
            i <= 2,
            texts(urls@) == texts(rec.homepages@).take(i as int),
        decreases 2 - i,
    {
        crate::text::push_string(&mut urls, rec.homepages[i].as_str());
        assert(texts(rec.homepages@).take(i + 1) =~= texts(rec.homepages@).take(i as int).push(
            rec.homepages@[i as int]@,
        ));
        i = i + 1;
    }
    let ids = id.as_str();
    proof {
        lemma_concat("musicbrainz_artist_", ids, "", "", "");
        lemma_concat("https://musicbrainz.org/artist/", ids, "", "", "");
    }
    let hit = ArtistHit {
        id: join(&["musicbrainz_artist_", ids]),
        name,
        album: album_context_of(dis.as_str(), country.as_str(), ty.as_str()),
        year: year_from_date(begin.as_str()),
        genre,
        external_url: join(&["https://musicbrainz.org/artist/", ids]),
        musicbrainz_id: owned(ids),
        score: match rec.score {
            Some(s) => s,
            None => 0,
        },
        country,
        disambiguation: dis,
        artist_type: ty,
        aliases,
        external_urls: urls,
    };
    Some(hit)
}

/// The hit for a release-group record, if it has a title.
pub open spec fn album_hit_of(h: AlbumHit, rec: AlbumRecord) -> bool {
    let id = text_or(rec.id, Seq::empty());
    let primary = text_or(rec.primary_type, "Album"@);
    let secondary = match rec.secondary_types {
        Some(t) => joined(texts(t@), ", "@),
        None => Seq::empty(),
    };
    &&& rec.title matches Some(t) && h.title@ == t@
    &&& h.id@ == "musicbrainz_album_"@ + id
    &&& h.artist@ == text_or(rec.first_artist_name, "Unknown Artist"@)
    &&& h.year == year_of(text_or(rec.first_release_date, Seq::empty()))
    &&& h.genre@ == if secondary.len() == 0 {
        primary
    } else {
        primary + " ("@ + secondary + ")"@
    }
    &&& h.external_url@ == "https://musicbrainz.org/release-group/"@ + id
    &&& h.musicbrainz_id@ == id
    &&& h.score == rec.score.unwrap_or(0)
    &&& h.primary_type@ == primary
    &&& h.secondary_types@ == secondary
}

/// The search hit for one release-group record; none where it has no title.
pub fn album_hit(rec: &AlbumRecord) -> (r: Option<AlbumHit>)
    ensures
        rec.title is None ==> r is None,
        rec.title is Some ==> (r matches Some(h) && album_hit_of(h, *rec)),
{
    let title = match &rec.title {
        Some(t) => owned(t.as_str()),
        None => return None,
    };
    proof {
        reveal_strlit("");
        assert(""@ =~= Seq::<char>::empty());
    }
    let id = text_or_exec(&rec.id, "");
    let primary = text_or_exec(&rec.primary_type, "Album");
    let secondary = match &rec.secondary_types {
        Some(t) => {
            let s = join_texts(t, t.len(), ", ");
            assert(texts(t@).take(t@.len() as int) =~= texts(t@));
            s
        },
        None => String::new(),
    };
    let genre = if secondary.as_str().is_empty() {
        owned(primary.as_str())
    } else {
        let p = primary.as_str();
        let s = secondary.as_str();
        proof {
            lemma_concat(p, " (", s, ")", "");
        }
        join(&[p, " (", s, ")"])
    };
    let ids = id.as_str();
    proof {
        lemma_concat("musicbrainz_album_", ids, "", "", "");
        lemma_concat("https://musicbrainz.org/release-group/", ids, "", "", "");
    }
    let date = text_or_exec(&rec.first_release_date, "");
    Some(
        AlbumHit {
            id: join(&["musicbrainz_album_", ids]),
            title,
            artist: text_or_exec(&rec.first_artist_name, "Unknown Artist"),
            year: year_from_date(date.as_str()),
            genre,
            external_url: join(&["https://musicbrainz.org/release-group/", ids]),
            musicbrainz_id: owned(ids),
            score: match rec.score {
                Some(s) => s,
                None => 0,
            },
            primary_type: primary,
            secondary_types: secondary,
        },
    )
}

/// The hit for a recording record, if it has a title.
pub open spec fn recording_hit_of(h: RecordingHit, rec: RecordingRecord) -> bool {
    let id = text_or(rec.id, Seq::empty());
    let length = rec.length_ms.unwrap_or(0);
    &&& rec.title matches Some(t) && h.title@ == t@
    &&& h.id@ == "musicbrainz_recording_"@ + id
    &&& h.artist@ == text_or(rec.first_artist_name, "Unknown Artist"@)
    &&& h.album@ == text_or(rec.first_release_title, "Single"@)
    &&& h.duration == if length > 0 {
        Some((length / 1000) as u64)
    } else {
        None
    }
    &&& h.year == year_of(text_or(rec.first_release_date, Seq::empty()))
    &&& h.genre@ == match rec.tag_names {
        Some(t) => first_names(texts(t@), 3),
        None => "Recording"@,
    }
    &&& h.external_url@ == "https://musicbrainz.org/recording/"@ + id
    &&& h.musicbrainz_id@ == id
    &&& h.score == rec.score.unwrap_or(0)
    &&& h.isrcs@ == match rec.isrcs {
        Some(i) => joined(texts(i@), ", "@),
        None => Seq::empty(),
    }
}

/// The search hit for one recording record; none where it has no title.
pub fn recording_hit(rec: &RecordingRecord) -> (r: Option<RecordingHit>)
    ensures
        rec.title is None ==> r is None,
        rec.title is Some ==> (r matches Some(h) && recording_hit_of(h, *rec)),
{
    let title = match &rec.title {
        Some(t) => owned(t.as_str()),
        None => return None,
    };
    proof {
        reveal_strlit("");
        assert(""@ =~= Seq::<char>::empty());
    }
    let id = text_or_exec(&rec.id, "");
    let length: u64 = match rec.length_ms {
        Some(l) => l,
        None => 0,
    };
    let isrcs = match &rec.isrcs {
        Some(t) => {
            let s = join_texts(t, t.len(), ", ");
            assert(texts(t@).take(t@.len() as int) =~= texts(t@));
            s
        },
        None => String::new(),
    };
    let genre = match &rec.tag_names {
        Some(t) => first_names_exec(t, 3),
        None => owned("Recording"),
    };
    let ids = id.as_str();
    proof {
        lemma_concat("musicbrainz_recording_", ids, "", "", "");
        lemma_concat("https://musicbrainz.org/recording/", ids, "", "", "");
    }
    let date = text_or_exec(&rec.first_release_date, "");
    Some(
        RecordingHit {
            id: join(&["musicbrainz_recording_", ids]),
            title,
            artist: text_or_exec(&rec.first_artist_name, "Unknown Artist"),
            album: text_or_exec(&rec.first_release_title, "Single"),
            duration: if length > 0 {
                Some(length / 1000)
            } else {
                None
            },
            year: year_from_date(date.as_str()),
            genre,
            external_url: join(&["https://musicbrainz.org/recording/", ids]),
            musicbrainz_id: owned(ids),
            score: match rec.score {
                Some(s) => s,
                None => 0,
            },
            isrcs,
        },
    )
}

proof fn lemma_year_of_dates(s: Seq<char>)
    ensures
        (s.len() > 0 && all_digits(s) && digits_value(s) <= u32::MAX) ==> year_of(s) == Some(
            digits_value(s) as u32,
        ),
        (s.len() > 4 && all_digits(s.take(4)) && s[4] == '-') ==> year_of(s) == Some(
            digits_value(s.take(4)) as u32,
        ),
{
    if s.len() > 0 && all_digits(s) && digits_value(s) <= u32::MAX {
        assert(!s.contains('-')) by {
            assert forall|i: int| 0 <= i < s.len() implies s[i] != '-' by {
                assert(is_digit(s[i]));
            }
        }
        year_is_read_before_the_first_dash(s, Seq::empty());
    }
    if s.len() > 4 && all_digits(s.take(4)) && s[4] == '-' {
        let a = s.take(4);
        assert(!a.contains('-')) by {
            assert forall|i: int| 0 <= i < a.len() implies a[i] != '-' by {
                assert(is_digit(a[i]));
            }
        }
        assert(digits_value(a) <= u32::MAX) by {
            let a1 = a.drop_last();
            let a2 = a1.drop_last();
            let a3 = a2.drop_last();
            let a4 = a3.drop_last();
            assert(is_digit(a[0]) && is_digit(a[1]) && is_digit(a[2]) && is_digit(a[3]));
            assert(a4 =~= Seq::<char>::empty());
            assert(a3.last() == a[0] && a2.last() == a[1] && a1.last() == a[2] && a.last() == a[3]);
            assert(digits_value(a4) == 0);
            assert(digits_value(a3) <= 9);
            assert(digits_value(a2) <= 99);
            assert(digits_value(a1) <= 999);
        }
        assert(s =~= a + seq!['-'] + s.skip(5));
        year_is_read_before_the_first_dash(a, s.skip(5));
        assert(parse_unsigned(a, u32::MAX as nat) == Some(digits_value(a))) by {
            year_is_read_before_the_first_dash(a, Seq::empty());
            lemma_split_without_sep(a, '-');
        }
    }
}

/// An artist hit shows the artist record's own fields: its name, its
/// MusicBrainz id (in the hit's id and link too), score, country,
/// disambiguation and type (`Artist` where unknown), and as its year the
/// year at which its life span begins (`"1993"` or `"1993-05-01"` gives
/// 1993; none where the record gives no begin date).
pub proof fn artist_hit_shows_the_artist(h: ArtistHit, rec: ArtistRecord)
    requires
        artist_hit_of(h, rec),
    ensures
        rec.name matches Some(n) && h.name@ == n@,
        rec.id matches Some(i) ==> h.musicbrainz_id@ == i@,
        rec.id is None ==> h.musicbrainz_id@.len() == 0,
        h.id@ == "musicbrainz_artist_"@ + h.musicbrainz_id@,
        h.external_url@ == "https://musicbrainz.org/artist/"@ + h.musicbrainz_id@,
        h.score == match rec.score {
            Some(n) => n,
            None => 0u64,
        },
        rec.country matches Some(c) ==> h.country@ == c@,
        rec.disambiguation matches Some(d) ==> h.disambiguation@ == d@,
        rec.artist_type matches Some(t) ==> h.artist_type@ == t@,
        rec.artist_type is None ==> h.artist_type@ == "Artist"@,
        rec.life_span_begin is None ==> h.year is None,
        rec.life_span_begin matches Some(s) ==> ((s@.len() > 0 && all_digits(s@) && digits_value(s@)
            <= u32::MAX) ==> h.year == Some(digits_value(s@) as u32)),
        rec.life_span_begin matches Some(s) ==> ((s@.len() > 4 && all_digits(s@.take(4)) && s@[4]
            == '-') ==> h.year == Some(digits_value(s@.take(4)) as u32)),
{
    if let Some(s) = rec.life_span_begin {
        lemma_year_of_dates(s@);
    }
}

/// An album hit shows the release group's own fields: its title, its first
/// artist (`Unknown Artist` where none), MusicBrainz id (in the hit's id and
/// link too), score and primary type (`Album` where unknown), and as its year
/// the year of its first release date.
pub proof fn album_hit_shows_the_release_group(h: AlbumHit, rec: AlbumRecord)
    requires
        album_hit_of(h, rec),
    ensures
        rec.title matches Some(t) && h.title@ == t@,
        rec.first_artist_name matches Some(a) ==> h.artist@ == a@,
        rec.first_artist_name is None ==> h.artist@ == "Unknown Artist"@,
        rec.id matches Some(i) ==> h.musicbrainz_id@ == i@,
        rec.id is None ==> h.musicbrainz_id@.len() == 0,
        h.id@ == "musicbrainz_album_"@ + h.musicbrainz_id@,
        h.external_url@ == "https://musicbrainz.org/release-group/"@ + h.musicbrainz_id@,
        h.score == match rec.score {
            Some(n) => n,
            None => 0u64,
        },
        rec.primary_type matches Some(p) ==> h.primary_type@ == p@,
        rec.primary_type is None ==> h.primary_type@ == "Album"@,
        rec.first_release_date is None ==> h.year is None,
        rec.first_release_date matches Some(s) ==> ((s@.len() > 0 && all_digits(s@) && digits_value(
            s@,
        ) <= u32::MAX) ==> h.year == Some(digits_value(s@) as u32)),
        rec.first_release_date matches Some(s) ==> ((s@.len() > 4 && all_digits(s@.take(4)) && s@[4]
            == '-') ==> h.year == Some(digits_value(s@.take(4)) as u32)),
{
    if let Some(s) = rec.first_release_date {
        lemma_year_of_dates(s@);
    }
}

/// A recording hit shows the recording's own fields: its title, first
/// artist (`Unknown Artist` where none), first release (`Single` where
/// none), MusicBrainz id (in the hit's id and link too), score, its length in
/// whole seconds (none where unknown or zero), and as its year the year of
/// its first release date.
pub proof fn recording_hit_shows_the_recording(h: RecordingHit, rec: RecordingRecord)
    requires
        recording_hit_of(h, rec),
    ensures
        rec.title matches Some(t) && h.title@ == t@,
        rec.first_artist_name matches Some(a) ==> h.artist@ == a@,
        rec.first_artist_name is None ==> h.artist@ == "Unknown Artist"@,
        rec.first_release_title matches Some(a) ==> h.album@ == a@,
        rec.first_release_title is None ==> h.album@ == "Single"@,
        rec.id matches Some(i) ==> h.musicbrainz_id@ == i@,
        rec.id is None ==> h.musicbrainz_id@.len() == 0,
        h.id@ == "musicbrainz_recording_"@ + h.musicbrainz_id@,
        h.external_url@ == "https://musicbrainz.org/recording/"@ + h.musicbrainz_id@,
        h.score == match rec.score {
            Some(n) => n,
            None => 0u64,
        },
        rec.length_ms matches Some(l) ==> (l > 0 ==> h.duration == Some(l / 1000)),
        rec.length_ms matches Some(l) ==> (l == 0 ==> h.duration is None),
        rec.length_ms is None ==> h.duration is None,
        rec.first_release_date is None ==> h.year is None,
        rec.first_release_date matches Some(s) ==> ((s@.len() > 0 && all_digits(s@) && digits_value(
            s@,
        ) <= u32::MAX) ==> h.year == Some(digits_value(s@) as u32)),
        rec.first_release_date matches Some(s) ==> ((s@.len() > 4 && all_digits(s@.take(4)) && s@[4]
            == '-') ==> h.year == Some(digits_value(s@.take(4)) as u32)),
{
    if let Some(s) = rec.first_release_date {
        lemma_year_of_dates(s@);
    }
}

/// How many records of a MusicBrainz answer are looked at: the first five.
pub open spec fn records_looked_at(n: nat) -> nat {
    if n < 5 {
        n
    } else {
        5
    }
}

/// The hits of an artist search: from the first five records, those that
/// have a name, in order.
pub fn artist_hits(records: &Vec<ArtistRecord>) -> (r: Vec<ArtistHit>)
    ensures
        r@.len() == records@.take(records_looked_at(records@.len()) as int).filter(
            |a: ArtistRecord| a.name is Some,
        ).len(),
        forall|k: int|
            0 <= k < r@.len() ==> artist_hit_of(
                #[trigger] r@[k],
                records@.take(records_looked_at(records@.len()) as int).filter(
                    |a: ArtistRecord| a.name is Some,
                )[k],
            ),
{
    let ghost keep = |a: ArtistRecord| a.name is Some;
    let mut out: Vec<ArtistHit> = Vec::new();
    let mut i: usize = 0;
    while i < records.len() && i < 5
        invariant
            i <= records@.len(),
            i <= 5,
            keep == (|a: ArtistRecord| a.name is Some),
            out@.len() == records@.take(i as int).filter(keep).len(),
            forall|k: int|
                0 <= k < out@.len() ==> artist_hit_of(
                    #[trigger] out@[k],
                    records@.take(i as int).filter(keep)[k],
                ),
        decreases 5 - i,
    {
        let ghost pre = records@.take(i as int);
        proof {
            assert(records@.take(i + 1) =~= pre.push(records@[i as int]));
            pre.lemma_filter_push(records@[i as int], keep);
        }
        match artist_hit(&records[i]) {
            Some(h) => {
                let ghost before = out@;
                out.push(h);
                proof {
                    assert forall|k: int| 0 <= k < out@.len() implies artist_hit_of(
                        #[trigger] out@[k],
                        records@.take(i + 1).filter(keep)[k],
                    ) by {
                        if k < before.len() {
                            assert(out@[k] == before[k]);
                        }
                    }
                }
            },
            None => {},
        }
        i = i + 1;
    }
    proof {
        assert(i == records_looked_at(records@.len()));
    }
    out
}

/// The hits of an album search: from the first five records, those that
/// have a title, in order.
pub fn album_hits(records: &Vec<AlbumRecord>) -> (r: Vec<AlbumHit>)
    ensures
        r@.len() == records@.take(records_looked_at(records@.len()) as int).filter(
            |a: AlbumRecord| a.title is Some,
        ).len(),
        forall|k: int|
            0 <= k < r@.len() ==> album_hit_of(
                #[trigger] r@[k],
                records@.take(records_looked_at(records@.len()) as int).filter(
                    |a: AlbumRecord| a.title is Some,
                )[k],
            ),
{
    let ghost keep = |a: AlbumRecord| a.title is Some;
    let mut out: Vec<AlbumHit> = Vec::new();
    let mut i: usize = 0;
    while i < records.len() && i < 5
        invariant
            i <= records@.len(),
            i <= 5,
            keep == (|a: AlbumRecord| a.title is Some),
            out@.len() == records@.take(i as int).filter(keep).len(),
            forall|k: int|
                0 <= k < out@.len() ==> album_hit_of(
                    #[trigger] out@[k],
                    records@.take(i as int).filter(keep)[k],
                ),
        decreases 5 - i,
    {
        let ghost pre = records@.take(i as int);
        proof {
            assert(records@.take(i + 1) =~= pre.push(records@[i as int]));
            pre.lemma_filter_push(records@[i as int], keep);
        }
        match album_hit(&records[i]) {
            Some(h) => {
                let ghost before = out@;
                out.push(h);
                proof {
                    assert forall|k: int| 0 <= k < out@.len() implies album_hit_of(
                        #[trigger] out@[k],
                        records@.take(i + 1).filter(keep)[k],
                    ) by {
                        if k < before.len() {
                            assert(out@[k] == before[k]);
                        }
                    }
                }
            },
            None => {},
        }
        i = i + 1;
    }
    proof {
        assert(i == records_looked_at(records@.len()));
    }
    out
}

/// The hits of a recording search: from the first five records, those that
/// have a title, in order.
pub fn recording_hits(records: &Vec<RecordingRecord>) -> (r: Vec<RecordingHit>)
    ensures
        r@.len() == records@.take(records_looked_at(records@.len()) as int).filter(
            |a: RecordingRecord| a.title is Some,
        ).len(),
        forall|k: int|
            0 <= k < r@.len() ==> recording_hit_of(
                #[trigger] r@[k],
                records@.take(records_looked_at(records@.len()) as int).filter(
                    |a: RecordingRecord| a.title is Some,
                )[k],
            ),
{
    let ghost keep = |a: RecordingRecord| a.title is Some;
    let mut out: Vec<RecordingHit> = Vec::new();
    let mut i: usize = 0;
    while i < records.len() && i < 5
        invariant
            i <= records@.len(),
            i <= 5,
            keep == (|a: RecordingRecord| a.title is Some),
            out@.len() == records@.take(i as int).filter(keep).len(),
            forall|k: int|
                0 <= k < out@.len() ==> recording_hit_of(
                    #[trigger] out@[k],
                    records@.take(i as int).filter(keep)[k],
                ),
        decreases 5 - i,
    {
        let ghost pre = records@.take(i as int);
        proof {
            assert(records@.take(i + 1) =~= pre.push(records@[i as int]));
            pre.lemma_filter_push(records@[i as int], keep);
        }
        match recording_hit(&records[i]) {
            Some(h) => {
                let ghost before = out@;
                out.push(h);
                proof {
                    assert forall|k: int| 0 <= k < out@.len() implies recording_hit_of(
                        #[trigger] out@[k],
                        records@.take(i + 1).filter(keep)[k],
                    ) by {
                        if k < before.len() {
                            assert(out@[k] == before[k]);
                        }
                    }
                }
            },
            None => {},
        }
        i = i + 1;
    }
    proof {
        assert(i == records_looked_at(records@.len()));
    }
    out
}

// ---------------------------------------------------------------------------
// Lidarr releases
// ---------------------------------------------------------------------------

/// Whether a release matches a query: it has a title and an artist, and one
/// of them holds the query, letter case aside.
pub open spec fn release_matches(rec: ReleaseRecord, query: Seq<char>) -> bool {
    &&& rec.title is Some
    &&& rec.artist_name is Some
    &&& (contains_seq(lowercase(rec.artist_name->0@), lowercase(query)) || contains_seq(
        lowercase(rec.title->0@),
        lowercase(query),
    ))
}

/// The hit for a matching release.
pub open spec fn release_hit_of(h: ReleaseHit, rec: ReleaseRecord) -> bool {
    let quality = text_or(rec.quality, "Unknown"@);
    let album = text_or(rec.album_title, "Unknown Album"@);
    &&& h.id@ == "lidarr_"@ + text_or(rec.guid, "unknown"@)
    &&& h.title@ == album + " ["@ + quality + "]"@
    &&& h.artist@ == text_or(rec.artist_name, Seq::empty())
    &&& h.album@ == album
    &&& h.quality@ == quality
    &&& h.size_mb == rec.size.unwrap_or(0) / 1024 / 1024
    &&& h.seeders == rec.seeders.unwrap_or(0)
    &&& h.leechers == rec.leechers.unwrap_or(0)
    &&& h.indexer@ == text_or(rec.indexer, "Unknown"@)
    &&& match rec.magnet_url {
        Some(m) => (h.magnet_url matches Some(x) && x@ == m@),
        None => h.magnet_url is None,
    }
}

/// A release hit shows the release's own figures: its seeders and leechers
/// (0 where unknown), its size in whole MiB, its indexer and quality
/// (`Unknown` where unknown), its magnet link, and the album title and
/// quality in its title.
pub proof fn release_hit_shows_the_release(h: ReleaseHit, rec: ReleaseRecord)
    requires
        release_hit_of(h, rec),
    ensures
        h.seeders == match rec.seeders {
            Some(n) => n,
            None => 0u64,
        },
        h.leechers == match rec.leechers {
            Some(n) => n,
            None => 0u64,
        },
        h.size_mb == match rec.size {
            Some(n) => n / 1048576,
            None => 0u64,
        },
        rec.indexer matches Some(i) ==> h.indexer@ == i@,
        rec.indexer is None ==> h.indexer@ == "Unknown"@,
        rec.quality matches Some(q) ==> h.quality@ == q@,
        rec.quality is None ==> h.quality@ == "Unknown"@,
        rec.artist_name matches Some(a) ==> h.artist@ == a@,
        rec.album_title matches Some(t) ==> h.album@ == t@ && h.title@.take(t@.len() as int) == t@,
        rec.guid matches Some(g) ==> h.id@ == "lidarr_"@ + g@,
        rec.magnet_url matches Some(m) ==> (h.magnet_url matches Some(x) && x@ == m@),
        rec.magnet_url is None ==> h.magnet_url is None,
{
    if let Some(t) = rec.album_title {
        let q = text_or(rec.quality, "Unknown"@);
        assert((t@ + " ["@ + q + "]"@).take(t@.len() as int) =~= t@);
    }
}

/// The releases that match a query, in order.
pub open spec fn matching_releases(recs: Seq<ReleaseRecord>, query: Seq<char>) -> Seq<ReleaseRecord> {
    recs.filter(|r: ReleaseRecord| release_matches(r, query))
}

fn release_hit(rec: &ReleaseRecord) -> (h: ReleaseHit)
    ensures
        release_hit_of(h, *rec),
{
    proof {
        reveal_strlit("");
        assert(""@ =~= Seq::<char>::empty());
    }
    let quality = text_or_exec(&rec.quality, "Unknown");
    let album = text_or_exec(&rec.album_title, "Unknown Album");
    let guid = text_or_exec(&rec.guid, "unknown");
    let gs = guid.as_str();
    let al = album.as_str();
    let qs = quality.as_str();
    proof {
        lemma_concat("lidarr_", gs, "", "", "");
        lemma_concat(al, " [", qs, "]", "");
    }
    ReleaseHit {
        id: join(&["lidarr_", gs]),
        title: join(&[al, " [", qs, "]"]),
        artist: text_or_exec(&rec.artist_name, ""),
        album: owned(al),
        quality: owned(qs),
        size_mb: match rec.size {
            Some(s) => s,
            None => 0,
        } / 1024 / 1024,
        seeders: match rec.seeders {
            Some(s) => s,
            None => 0,
        },
        leechers: match rec.leechers {
            Some(s) => s,
            None => 0,
        },
        indexer: text_or_exec(&rec.indexer, "Unknown"),
        magnet_url: match &rec.magnet_url {
            Some(m) => Some(owned(m.as_str())),
            None => None,
        },
    }
}

fn release_matches_exec(rec: &ReleaseRecord, query_lower: &Vec<char>, Ghost(query): Ghost<Seq<char>>) -> (r: bool)
    requires
        query_lower@ == lowercase(query),
    ensures
        r == release_matches(*rec, query),
{
    match (&rec.title, &rec.artist_name) {
        (Some(title), Some(artist)) => {
            let a = to_lowercase(&chars_of(artist.as_str()));
            let t = to_lowercase(&chars_of(title.as_str()));
            contains_chars(&a, query_lower) || contains_chars(&t, query_lower)
        },
        _ => false,
    }
}

/// The releases known to Lidarr that match a query, as hits: the first ten
/// matches, in order.
pub fn release_hits(releases: &Vec<ReleaseRecord>, query: &str) -> (r: Vec<ReleaseHit>)
    ensures
        r@.len() == if matching_releases(releases@, query@).len() < 10 {
            matching_releases(releases@, query@).len()
        } else {
            10
        },
        forall|k: int|
            0 <= k < r@.len() ==> release_hit_of(#[trigger] r@[k], matching_releases(releases@, query@)[k]),
{
    let q = to_lowercase(&chars_of(query));
    let ghost keep = |r: ReleaseRecord| release_matches(r, query@);
    let mut out: Vec<ReleaseHit> = Vec::new();
    let mut i: usize = 0;
    while i < releases.len() && out.len() < 10
        invariant
            i <= releases@.len(),
            q@ == lowercase(query@),
            keep == (|r: ReleaseRecord| release_matches(r, query@)),
            out@.len() == releases@.take(i as int).filter(keep).len(),
            out@.len() <= 10,
            out@.len() == 10 ==> releases@.take(i as int).filter(keep).len() == 10,
            forall|k: int|
                0 <= k < out@.len() ==> release_hit_of(
                    #[trigger] out@[k],
                    releases@.take(i as int).filter(keep)[k],
                ),
        decreases releases@.len() - i,
    {
        let ghost pre = releases@.take(i as int);
        proof {
            assert(releases@.take(i + 1) =~= pre.push(releases@[i as int]));
            pre.lemma_filter_push(releases@[i as int], keep);
        }
        if release_matches_exec(&releases[i], &q, Ghost(query@)) {
            let h = release_hit(&releases[i]);
            let ghost before = out@;
            out.push(h);
            proof {
                assert forall|k: int| 0 <= k < out@.len() implies release_hit_of(
                    #[trigger] out@[k],
                    releases@.take(i + 1).filter(keep)[k],
                ) by {
                    if k < before.len() {
                        assert(out@[k] == before[k]);
                    }
                }
            }
        }
        i = i + 1;
    }
    proof {
        let all = matching_releases(releases@, query@);
        assert(all == releases@.filter(keep));
        let taken = releases@.take(i as int);
        assert(releases@ =~= taken + releases@.skip(i as int));
        Seq::filter_distributes_over_add(taken, releases@.skip(i as int), keep);
        assert(releases@.filter(keep) == taken.filter(keep) + releases@.skip(i as int).filter(keep));
        assert forall|k: int| 0 <= k < out@.len() implies #[trigger] all[k] == taken.filter(keep)[k] by {}
        if out@.len() < 10 {
            assert(i == releases@.len());
            assert(releases@.skip(i as int).len() == 0);
            assert(releases@.skip(i as int).filter(keep) =~= Seq::<ReleaseRecord>::empty());
        }
    }
    out
}

// ---------------------------------------------------------------------------
// Downloadable releases for a MusicBrainz entity
// ---------------------------------------------------------------------------

/// A Lidarr release offered for download for a MusicBrainz entity.
pub struct DownloadableRelease {
    pub id: String,
    pub title: String,
    pub artist: String,
    pub quality: String,
    pub size_mb: u64,
    pub seeders: u64,
    pub indexer: String,
    pub magnet_url: Option<String>,
}

/// Whether a release is offered for an entity: it has a title and an artist,
/// and its artist holds the artist asked for or its title holds the
/// entity's name, letter case aside.
pub open spec fn offered_for(rec: ReleaseRecord, entity_name: Seq<char>, artist_name: Seq<char>) -> bool {
    &&& rec.title is Some
    &&& rec.artist_name is Some
    &&& (contains_seq(lowercase(rec.artist_name->0@), lowercase(artist_name)) || contains_seq(
        lowercase(rec.title->0@),
        lowercase(entity_name),
    ))
}

/// The offer made of a release.
pub open spec fn downloadable_of(d: DownloadableRelease, rec: ReleaseRecord) -> bool {
    &&& d.id@ == text_or(rec.guid, Seq::empty())
    &&& d.title@ == text_or(rec.title, Seq::empty())
    &&& d.artist@ == text_or(rec.artist_name, Seq::empty())
    &&& d.quality@ == text_or(rec.quality, "Unknown"@)
    &&& d.size_mb == rec.size.unwrap_or(0) / 1024 / 1024
    &&& d.seeders == rec.seeders.unwrap_or(0)
    &&& d.indexer@ == text_or(rec.indexer, "Unknown"@)
    &&& match rec.magnet_url {
        Some(m) => (d.magnet_url matches Some(x) && x@ == m@),
        None => d.magnet_url is None,
    }
}

/// An offered release shows the release's own fields: its guid, title and
/// artist, its seeders (0 where unknown), its size in whole MiB, its quality
/// and indexer (`Unknown` where unknown) and its magnet link.
pub proof fn downloadable_shows_the_release(d: DownloadableRelease, rec: ReleaseRecord)
    requires
        downloadable_of(d, rec),
    ensures
        rec.guid matches Some(g) ==> d.id@ == g@,
        rec.title matches Some(t) ==> d.title@ == t@,
        rec.artist_name matches Some(a) ==> d.artist@ == a@,
        d.seeders == match rec.seeders {
            Some(n) => n,
            None => 0u64,
        },
        d.size_mb == match rec.size {
            Some(n) => n / 1048576,
            None => 0u64,
        },
        rec.quality matches Some(q) ==> d.quality@ == q@,
        rec.quality is None ==> d.quality@ == "Unknown"@,
        rec.indexer matches Some(i) ==> d.indexer@ == i@,
        rec.indexer is None ==> d.indexer@ == "Unknown"@,
        rec.magnet_url matches Some(m) ==> (d.magnet_url matches Some(x) && x@ == m@),
        rec.magnet_url is None ==> d.magnet_url is None,
{
}

/// The releases offered for an entity, in order.
pub open spec fn offered_releases(recs: Seq<ReleaseRecord>, entity_name: Seq<char>, artist_name: Seq<char>) -> Seq<
    ReleaseRecord,
> {
    recs.filter(|r: ReleaseRecord| offered_for(r, entity_name, artist_name))
}

fn downloadable(rec: &ReleaseRecord) -> (d: DownloadableRelease)
    ensures
        downloadable_of(d, *rec),
{
    proof {
        reveal_strlit("");
        assert(""@ =~= Seq::<char>::empty());
    }
    DownloadableRelease {
        id: text_or_exec(&rec.guid, ""),
        title: text_or_exec(&rec.title, ""),
        artist: text_or_exec(&rec.artist_name, ""),
        quality: text_or_exec(&rec.quality, "Unknown"),
        size_mb: match rec.size {
            Some(s) => s,
            None => 0,
        } / 1024 / 1024,
        seeders: match rec.seeders {
            Some(s) => s,
            None => 0,
        },
        indexer: text_or_exec(&rec.indexer, "Unknown"),
        magnet_url: match &rec.magnet_url {
            Some(m) => Some(owned(m.as_str())),
            None => None,
        },
    }
}

fn offered_for_exec(
    rec: &ReleaseRecord,
    name_lower: &Vec<char>,
    artist_lower: &Vec<char>,
    Ghost(entity_name): Ghost<Seq<char>>,
    Ghost(artist_name): Ghost<Seq<char>>,
) -> (r: bool)
    requires
        name_lower@ == lowercase(entity_name),
        artist_lower@ == lowercase(artist_name),
    ensures
        r == offered_for(*rec, entity_name, artist_name),
{
    match (&rec.title, &rec.artist_name) {
        (Some(title), Some(artist)) => {
            let a = to_lowercase(&chars_of(artist.as_str()));
            let t = to_lowercase(&chars_of(title.as_str()));
            contains_chars(&a, artist_lower) || contains_chars(&t, name_lower)
        },
        _ => false,
    }
}

/// The releases known to Lidarr that are offered for an entity called
/// `entity_name` by `artist_name`: the first five, in order.
pub fn downloadable_releases(releases: &Vec<ReleaseRecord>, entity_name: &str, artist_name: &str) -> (r: Vec<
    DownloadableRelease,
>)
    ensures
        r@.len() == if offered_releases(releases@, entity_name@, artist_name@).len() < 5 {
            offered_releases(releases@, entity_name@, artist_name@).len()
        } else {
            5
        },
        forall|k: int|
            0 <= k < r@.len() ==> downloadable_of(
                #[trigger] r@[k],
                offered_releases(releases@, entity_name@, artist_name@)[k],
            ),
{
    let name_lower = to_lowercase(&chars_of(entity_name));
    let artist_lower = to_lowercase(&chars_of(artist_name));
    let ghost keep = |r: ReleaseRecord| offered_for(r, entity_name@, artist_name@);
    let mut out: Vec<DownloadableRelease> = Vec::new();
    let mut i: usize = 0;
    while i < releases.len() && out.len() < 5
        invariant
            i <= releases@.len(),
            name_lower@ == lowercase(entity_name@),
            artist_lower@ == lowercase(artist_name@),
            keep == (|r: ReleaseRecord| offered_for(r, entity_name@, artist_name@)),
            out@.len() == releases@.take(i as int).filter(keep).len(),
            out@.len() <= 5,
            forall|k: int|
                0 <= k < out@.len() ==> downloadable_of(
                    #[trigger] out@[k],
                    releases@.take(i as int).filter(keep)[k],
                ),
        decreases releases@.len() - i,
    {
        let ghost pre = releases@.take(i as int);
        proof {
            assert(releases@.take(i + 1) =~= pre.push(releases@[i as int]));
            pre.lemma_filter_push(releases@[i as int], keep);
        }
        if offered_for_exec(&releases[i], &name_lower, &artist_lower, Ghost(entity_name@), Ghost(artist_name@)) {
            let d = downloadable(&releases[i]);
            let ghost before = out@;
            out.push(d);
            proof {
                assert forall|k: int| 0 <= k < out@.len() implies downloadable_of(
                    #[trigger] out@[k],
                    releases@.take(i + 1).filter(keep)[k],
                ) by {
                    if k < before.len() {
                        assert(out@[k] == before[k]);
                    }
                }
            }
        }
        i = i + 1;
    }
    proof {
        let all = offered_releases(releases@, entity_name@, artist_name@);
        assert(all == releases@.filter(keep));
        let taken = releases@.take(i as int);
        assert(releases@ =~= taken + releases@.skip(i as int));
        Seq::filter_distributes_over_add(taken, releases@.skip(i as int), keep);
        assert(releases@.filter(keep) == taken.filter(keep) + releases@.skip(i as int).filter(keep));
        assert forall|k: int| 0 <= k < out@.len() implies #[trigger] all[k] == taken.filter(keep)[k] by {}
        if out@.len() < 5 {
            assert(i == releases@.len());
            assert(releases@.skip(i as int).len() == 0);
            assert(releases@.skip(i as int).filter(keep) =~= Seq::<ReleaseRecord>::empty());
        }
    }
    out
}

// ---------------------------------------------------------------------------
// What a search asks
// ---------------------------------------------------------------------------

/// The MusicBrainz searches for a category: one for `artist`, `album` and
/// `track`, artists then albums for anything else.
pub open spec fn searches_for(category: Seq<char>) -> Seq<SearchKind> {
    if category == "artist"@ {
        seq![SearchKind::Artist]
    } else if category == "album"@ {
        seq![SearchKind::Album]
    } else if category == "track"@ {
        seq![SearchKind::Recording]
    } else {
        seq![SearchKind::Artist, SearchKind::Album]
    }
}

/// The MusicBrainz searches to run for a category.
pub fn external_searches(category: &str) -> (r: Vec<SearchKind>)
    ensures
        r@ == searches_for(category@),
{
    let c = chars_of(category);
    let mut v: Vec<SearchKind> = Vec::new();
    if chars_eq(&c, &chars_of("artist")) {
        v.push(SearchKind::Artist);
    } else if chars_eq(&c, &chars_of("album")) {
        v.push(SearchKind::Album);
    } else if chars_eq(&c, &chars_of("track")) {
        v.push(SearchKind::Recording);
    } else {
        v.push(SearchKind::Artist);
        v.push(SearchKind::Album);
    }
    assert(v@ =~= searches_for(category@));
    v
}

/// Whether a search of this type also asks the outside services.
pub fn runs_external_search(search_type: &str) -> (r: bool)
    ensures
        r == (search_type@ == "global"@ || search_type@ == "external"@),
{
    let t = chars_of(search_type);
    chars_eq(&t, &chars_of("global")) || chars_eq(&t, &chars_of("external"))
}

/// The search text sent for a kind of search.
pub open spec fn search_field(kind: SearchKind) -> Seq<char> {
    match kind {
        SearchKind::Artist => "artist:"@,
        SearchKind::Album => "release:"@,
        SearchKind::Recording => "recording:"@,
    }
}

/// The endpoint and the sub-queries of a kind of search.
pub open spec fn search_endpoint(kind: SearchKind) -> Seq<char> {
    match kind {
        SearchKind::Artist => "artist"@,
        SearchKind::Album => "release-group"@,
        SearchKind::Recording => "recording"@,
    }
}

pub open spec fn search_includes(kind: SearchKind) -> Seq<char> {
    match kind {
        SearchKind::Artist => "aliases+tags+ratings+url-rels+artist-rels"@,
        SearchKind::Album => "aliases+tags+ratings+artist-credits+url-rels"@,
        SearchKind::Recording => "aliases+tags+ratings+artist-credits+isrcs+url-rels+releases"@,
    }
}

/// The MusicBrainz address of a search for `query`: ten results in JSON,
/// the query prefixed by its field and percent-encoded.
pub fn musicbrainz_search_url(kind: SearchKind, query: &str) -> (r: String)
    ensures
        r@ == "https://musicbrainz.org/ws/2/"@ + search_endpoint(kind) + "?query="@ + percent_encoded(
            utf8_bytes(search_field(kind) + query@),
        ) + "&limit=10&fmt=json&inc="@ + search_includes(kind),
{
    let (field, endpoint, includes): (&str, &str, &str) = match kind {
        SearchKind::Artist => ("artist:", "artist", "aliases+tags+ratings+url-rels+artist-rels"),
        SearchKind::Album => ("release:", "release-group", "aliases+tags+ratings+artist-credits+url-rels"),
        SearchKind::Recording => (
            "recording:",
            "recording",
            "aliases+tags+ratings+artist-credits+isrcs+url-rels+releases",
        ),
    };
    proof {
        lemma_concat(field, query, "", "", "");
    }
    let q = join(&[field, query]);
    let enc = url_encode(q.as_str());
    let e = enc.as_str();
    proof {
        lemma_concat("https://musicbrainz.org/ws/2/", endpoint, "?query=", e, "&limit=10&fmt=json&inc=");
    }
    let head = join(&["https://musicbrainz.org/ws/2/", endpoint, "?query=", e, "&limit=10&fmt=json&inc="]);
    let h = head.as_str();
    proof {
        lemma_concat(h, includes, "", "", "");
    }
    join(&[h, includes])
}

/// The address a library track is streamed from.
pub fn stream_url(track_id: &str) -> (r: String)
    ensures
        r@ == "/api/v1/stream/"@ + track_id@,
{
    proof {
        lemma_concat("/api/v1/stream/", track_id, "", "", "");
    }
    join(&["/api/v1/stream/", track_id])
}

/// The distinct sources of a list of hits, each once.
pub fn distinct_sources(sources: &Vec<String>) -> (r: Vec<String>)
    ensures
        forall|i: int, j: int| 0 <= i < j < r@.len() ==> r@[i]@ != r@[j]@,
        forall|i: int| 0 <= i < r@.len() ==> texts(sources@).contains(#[trigger] r@[i]@),
        forall|i: int| 0 <= i < sources@.len() ==> texts(r@).contains(#[trigger] sources@[i]@),
{
    let mut out: Vec<String> = Vec::new();
    let mut i: usize = 0;
    while i < sources.len()
        invariant
            i <= sources@.len(),
            forall|a: int, b: int| 0 <= a < b < out@.len() ==> out@[a]@ != out@[b]@,
            forall|a: int| 0 <= a < out@.len() ==> texts(sources@).contains(#[trigger] out@[a]@),
            forall|a: int| 0 <= a < i ==> texts(out@).contains(#[trigger] sources@[a]@),
        decreases sources@.len() - i,
    {
        let s = chars_of(sources[i].as_str());
        let mut seen = false;
        let mut k: usize = 0;
        while k < out.len()
            invariant
                k <= out@.len(),
                s@ == sources@[i as int]@,
                seen ==> texts(out@).contains(s@),
                !seen ==> forall|a: int| 0 <= a < k ==> out@[a]@ != s@,
            decreases out@.len() - k,
        {
            let o = chars_of(out[k].as_str());
            if chars_eq(&o, &s) {
                assert(texts(out@)[k as int] == s@);
                seen = true;
            }
            k = k + 1;
        }
        if !seen {
            let ghost before = out@;
            crate::text::push_string(&mut out, sources[i].as_str());
            proof {
                assert(texts(sources@)[i as int] == sources@[i as int]@);
                assert forall|a: int| 0 <= a < out@.len() implies texts(sources@).contains(
                    #[trigger] out@[a]@,
                ) by {
                    if a < before.len() {
                        assert(out@[a] == before[a]);
                    }
                }
                assert forall|a: int, b: int| 0 <= a < b < out@.len() implies out@[a]@ != out@[b]@ by {
                    if b < before.len() {
                        assert(out@[a] == before[a]);
                        assert(out@[b] == before[b]);
                    } else {
                        assert(out@[a] == before[a]);
                    }
                }
                assert forall|a: int| 0 <= a <= i implies texts(out@).contains(#[trigger] sources@[a]@) by {
                    if a < i {
                        let w = choose|w: int| 0 <= w < texts(before).len() && texts(before)[w] == sources@[a]@;
                        assert(out@[w] == before[w]);
                        assert(texts(out@)[w] == sources@[a]@);
                    } else {
                        assert(texts(out@)[before.len() as int] == sources@[i as int]@);
                    }
                }
            }
        }
        i = i + 1;
    }
    out
}

} // verus!
