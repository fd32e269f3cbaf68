//! Tiered storage: its settings, file-name rules for audio files and partial
//! downloads, offload decisions and destinations.
use vstd::prelude::*;
use crate::environment::{env_value, Environment};
use crate::text::{
    chars_eq, chars_of, ends_with, lowercase, owned, parse_u64, parse_unsigned, push_all,
    split_chars, split_on, starts_with, starts_with_chars, ends_with_chars, string_of, to_lowercase,
    views_of,
};

verus! {

/// Settings of tiered storage: where downloads land (hot), the cold and
/// processing areas, the final library, and how offloading behaves.
#[derive(Debug, Clone)]
pub struct StorageConfig {
    pub hot_downloads_path: String,
    pub cold_downloads_path: String,
    pub processing_path: String,
    pub final_library_path: String,
    pub enable_tiered: bool,
    pub auto_offload: bool,
    pub offload_delay_seconds: u64,
    pub verify_integrity: bool,
}

/// The outcome of a storage operation.
#[derive(Debug)]
pub struct StorageOperationResult {
    pub success: bool,
    pub operation: String,
    pub source_path: String,
    pub destination_path: Option<String>,
    pub duration_ms: u64,
    pub bytes_transferred: u64,
    pub error: Option<String>,
}

/// The storage service and its settings.
pub struct StorageManager {
    config: StorageConfig,
}

/// The default settings: the four areas at the root, tiering and automatic
/// offload on, five minutes before offload, no integrity check.
pub open spec fn default_storage(c: StorageConfig) -> bool {
    &&& c.hot_downloads_path@ == "/hot_downloads"@
    &&& c.cold_downloads_path@ == "/cold_downloads"@
    &&& c.processing_path@ == "/processing"@
    &&& c.final_library_path@ == "/final_library"@
    &&& c.enable_tiered
    &&& c.auto_offload
    &&& c.offload_delay_seconds == 300
    &&& !c.verify_integrity
}

impl Default for StorageConfig {
    fn default() -> (r: Self)
        ensures
            default_storage(r),
    {
        StorageConfig {
            hot_downloads_path: owned("/hot_downloads"),
            cold_downloads_path: owned("/cold_downloads"),
            processing_path: owned("/processing"),
            final_library_path: owned("/final_library"),
            enable_tiered: true,
            auto_offload: true,
            offload_delay_seconds: 300,
            verify_integrity: false,
        }
    }
}

impl StorageManager {
    /// A storage manager with the given settings.
    pub fn new(config: StorageConfig) -> (r: Self)
        ensures
            r.config() == config,
    {
        StorageManager { config }
    }

    /// Its settings.
    pub closed spec fn config(&self) -> StorageConfig {
        self.config
    }

    /// Its settings.
    pub fn settings(&self) -> (r: &StorageConfig)
        ensures
            *r == self.config(),
    {
        &self.config
    }

    /// Whether the background monitor runs: only with tiering and automatic
    /// offload both on.
    pub fn monitor_enabled(&self) -> (r: bool)
        ensures
            r == (self.config().enable_tiered && self.config().auto_offload),
    {
        self.config.enable_tiered && self.config.auto_offload
    }
}

/// std `bool::from_str`: exactly `true` or `false`.
pub open spec fn parse_bool(s: Seq<char>) -> Option<bool> {
    if s == "true"@ {
        Some(true)
    } else if s == "false"@ {
        Some(false)
    } else {
        None
    }
}

fn parse_bool_text(s: &str) -> (r: Option<bool>)
    ensures
        r == parse_bool(s@),
{
    let c = chars_of(s);
    if chars_eq(&c, &chars_of("true")) {
        Some(true)
    } else if chars_eq(&c, &chars_of("false")) {
        Some(false)
    } else {
        None
    }
}

/// A path setting: the variable's value, or the default.
pub open spec fn path_setting(vars: Seq<(String, String)>, name: Seq<char>, default: Seq<char>) -> Seq<
    char,
> {
    match env_value(vars, name) {
        Some(v) => v,
        None => default,
    }
}

/// A flag setting: the variable's value read as `true`/`false`, the default
/// where it is missing or reads as neither.
pub open spec fn flag_setting(vars: Seq<(String, String)>, name: Seq<char>, default: bool) -> bool {
    match env_value(vars, name) {
        Some(v) => match parse_bool(v) {
            Some(b) => b,
            None => default,
        },
        None => default,
    }
}

fn path_from(env: &Environment, name: &str, default: &str) -> (r: String)
    ensures
        r@ == path_setting(env.vars@, name@, default@),
{
    match env.var(name) {
        Some(v) => v,
        None => owned(default),
    }
}

fn flag_from(env: &Environment, name: &str, default: bool) -> (r: bool)
    ensures
        r == flag_setting(env.vars@, name@, default),
{
    match env.var(name) {
        Some(v) => match parse_bool_text(v.as_str()) {
            Some(b) => b,
            None => default,
        },
        None => default,
    }
}

/// A storage manager configured from the environment
/// (`STEPHEYBOT__PATHS__*` and `STEPHEYBOT__STORAGE__*`), each setting
/// falling back to its default.
pub fn create_storage_manager(env: &Environment) -> (r: StorageManager)
    ensures
        r.config().hot_downloads_path@ == path_setting(
            env.vars@,
            "STEPHEYBOT__PATHS__DOWNLOAD_PATH"@,
            "/hot_downloads"@,
        ),
        r.config().cold_downloads_path@ == path_setting(
            env.vars@,
            "STEPHEYBOT__PATHS__COLD_DOWNLOAD_PATH"@,
            "/cold_downloads"@,
        ),
        r.config().processing_path@ == path_setting(
            env.vars@,
            "STEPHEYBOT__PATHS__PROCESSING_PATH"@,
            "/processing"@,
        ),
        r.config().final_library_path@ == path_setting(
            env.vars@,
            "STEPHEYBOT__PATHS__FINAL_LIBRARY_PATH"@,
            "/final_library"@,
        ),
        r.config().enable_tiered == flag_setting(env.vars@, "STEPHEYBOT__STORAGE__ENABLE_TIERED"@, true),
        r.config().auto_offload == flag_setting(env.vars@, "STEPHEYBOT__STORAGE__AUTO_OFFLOAD"@, true),
        r.config().offload_delay_seconds == match env_value(
            env.vars@,
            "STEPHEYBOT__STORAGE__OFFLOAD_DELAY"@,
        ) {
            Some(v) => match parse_unsigned(v, u64::MAX as nat) {
                Some(n) => n,
                None => 300,
            },
            None => 300,
        },
        r.config().verify_integrity == flag_setting(
            env.vars@,
            "STEPHEYBOT__STORAGE__VERIFY_INTEGRITY"@,
            false,
        ),
{
    let delay = match env.var("STEPHEYBOT__STORAGE__OFFLOAD_DELAY") {
        Some(v) => {
            let c = chars_of(v.as_str());
            match parse_u64(&c) {
                Some(n) => n,
                None => 300,
            }
        },
        None => 300,
    };
    let config = StorageConfig {
        hot_downloads_path: path_from(env, "STEPHEYBOT__PATHS__DOWNLOAD_PATH", "/hot_downloads"),
        cold_downloads_path: path_from(
            env,
            "STEPHEYBOT__PATHS__COLD_DOWNLOAD_PATH",
            "/cold_downloads",
        ),
        processing_path: path_from(env, "STEPHEYBOT__PATHS__PROCESSING_PATH", "/processing"),
        final_library_path: path_from(
            env,
            "STEPHEYBOT__PATHS__FINAL_LIBRARY_PATH",
            "/final_library",
        ),
        enable_tiered: flag_from(env, "STEPHEYBOT__STORAGE__ENABLE_TIERED", true),
        auto_offload: flag_from(env, "STEPHEYBOT__STORAGE__AUTO_OFFLOAD", true),
        offload_delay_seconds: delay,
        verify_integrity: flag_from(env, "STEPHEYBOT__STORAGE__VERIFY_INTEGRITY", false),
    };
    StorageManager::new(config)
}

// ---------------------------------------------------------------------------
// File names
// ---------------------------------------------------------------------------

/// The components of a Unix path that can name a file: the pieces between
/// `/`, without empty ones and without `.`.
pub open spec fn named_components(p: Seq<char>) -> Seq<Seq<char>> {
    split_on(p, '/').filter(|c: Seq<char>| c.len() > 0 && c != seq!['.'])
}

/// std `Path::file_name`: the last component, unless there is none or it is `..`.
pub open spec fn file_name(p: Seq<char>) -> Option<Seq<char>> {
    let c = named_components(p);
    if c.len() == 0 || c.last() == seq!['.', '.'] {
        None
    } else {
        Some(c.last())
    }
}

/// The position of the last `.` in `s`, if any.
pub open spec fn last_dot(s: Seq<char>) -> Option<int>
    decreases s.len(),
{
    if s.len() == 0 {
        None
    } else if s.last() == '.' {
        Some(s.len() - 1)
    } else {
        last_dot(s.drop_last())
    }
}

/// std `Path::extension`: what follows the last `.` of the file name, where
/// that dot is not its first character.
pub open spec fn file_extension(p: Seq<char>) -> Option<Seq<char>> {
    match file_name(p) {
        Some(n) => match last_dot(n) {
            Some(i) => if i == 0 {
                None
            } else {
                Some(n.subrange(i + 1, n.len() as int))
            },
            None => None,
        },
        None => None,
    }
}

/// The extensions of music files.
pub open spec fn music_extensions() -> Seq<Seq<char>> {
    seq![
        "mp3"@,
        "flac"@,
        "wav"@,
        "ogg"@,
        "m4a"@,
        "aac"@,
        "wma"@,
        "ape"@,
        "opus"@,
        "aiff"@,
        "au"@,
    ]
}

/// The extensions of audio files that storage offloads.
pub open spec fn audio_extensions() -> Seq<Seq<char>> {
    seq!["mp3"@, "flac"@, "wav"@, "ogg"@, "m4a"@, "aac"@]
}

fn last_dot_exec(s: &[char]) -> (r: Option<usize>)
    ensures
        match last_dot(s@) {
            Some(i) => r == Some(i as usize),
            None => r is None,
        },
        r matches Some(i) ==> i < s@.len() && last_dot(s@) == Some(i as int),
{
    let mut n = s.len();
    assert(s@.subrange(0, n as int) =~= s@);
    while n > 0 && s[n - 1] != '.'
        invariant
            n <= s@.len(),
            last_dot(s@) == last_dot(s@.subrange(0, n as int)),
        decreases n,
    {
        proof {
            assert(s@.subrange(0, n as int).drop_last() =~= s@.subrange(0, n - 1));
        }
        n = n - 1;
    }
    if n == 0 {
        proof {
            assert(s@.subrange(0, 0) =~= Seq::<char>::empty());
        }
        None
    } else {
        Some(n - 1)
    }
}

fn is_named(c: &Vec<char>) -> (r: bool)
    ensures
        r == (c@.len() > 0 && c@ != seq!['.']),
{
    if c.len() == 0 {
        return false;
    }
    if c.len() == 1 && c[0] == '.' {
        assert(c@ =~= seq!['.']);
        return false;
    }
    if c.len() == 1 {
        assert(c@[0] != seq!['.'][0]);
    }
    true
}

/// The extension of a path (std `Path::extension`).
pub fn path_extension(path: &str) -> (r: Option<String>)
    ensures
        match file_extension(path@) {
            Some(e) => (r matches Some(s) && s@ == e),
            None => r is None,
        },
{
    let p = chars_of(path);
    let parts = split_chars(&p, '/');
    let ghost keep = |c: Seq<char>| c.len() > 0 && c != seq!['.'];
    let mut last: Option<usize> = None;
    let mut i: usize = 0;
    while i < parts.len()
        invariant
            i <= parts@.len(),
            views_of(parts@) == split_on(p@, '/'),
            keep == (|c: Seq<char>| c.len() > 0 && c != seq!['.']),
            match last {
                Some(k) => k < i && views_of(parts@).subrange(0, i as int).filter(keep).len() > 0
                    && views_of(parts@).subrange(0, i as int).filter(keep).last() == parts@[k as int]@,
                None => views_of(parts@).subrange(0, i as int).filter(keep).len() == 0,
            },
        decreases parts@.len() - i,
    {
        let ghost pre = views_of(parts@).subrange(0, i as int);
        proof {
            assert(views_of(parts@).subrange(0, i + 1) =~= pre.push(parts@[i as int]@));
            pre.lemma_filter_push(parts@[i as int]@, keep);
        }
        if is_named(&parts[i]) {
            last = Some(i);
        }
        i = i + 1;
    }
    proof {
        assert(views_of(parts@).subrange(0, parts@.len() as int) =~= views_of(parts@));
        assert(named_components(p@) == views_of(parts@).filter(keep));
    }
    match last {
        None => {
            assert(named_components(p@).len() == 0);
            None
        },
        Some(k) => {
            let name = &parts[k];
            if name.len() == 2 && name[0] == '.' && name[1] == '.' {
                assert(name@ =~= seq!['.', '.']);
                return None;
            }
            proof {
                if name@.len() == 2 {
                    assert(name@ != seq!['.', '.']) by {
                        if name@[0] != '.' {
                            assert(name@[0] != seq!['.', '.'][0]);
                        } else {
                            assert(name@[1] != seq!['.', '.'][1]);
                        }
                    }
                }
            }
            match last_dot_exec(name) {
                Some(d) => if d == 0 {
                    None
                } else {
                    let mut e: Vec<char> = Vec::new();
                    let mut j = d + 1;
                    while j < name.len()
                        invariant
                            d + 1 <= j <= name@.len(),
                            e@ == name@.subrange(d + 1, j as int),
                        decreases name@.len() - j,
                    {
                        e.push(name[j]);
                        j = j + 1;
                        assert(e@ =~= name@.subrange(d + 1, j as int));
                    }
                    assert(file_name(p@) == Some(name@));
                    Some(string_of(&e))
                },
                None => None,
            }
        },
    }
}

/// The texts of a list of string slices.
pub open spec fn str_views(v: Seq<&str>) -> Seq<Seq<char>> {
    v.map_values(|o: &str| o@)
}

fn is_one_of(s: &Vec<char>, options: &[&str]) -> (r: bool)
    ensures
        r == str_views(options@).contains(s@),
{
    let mut i: usize = 0;
    while i < options.len()
        invariant
            i <= options@.len(),
            forall|j: int| 0 <= j < i ==> options@[j]@ != s@,
        decreases options@.len() - i,
    {
        let o = chars_of(options[i]);
        if chars_eq(&o, s) {
            assert(str_views(options@)[i as int] == s@);
            return true;
        }
        i = i + 1;
    }
    assert forall|j: int| 0 <= j < options@.len() implies #[trigger] str_views(options@)[j] != s@ by {
        assert(options@[j]@ != s@);
    }
    false
}

/// Whether a file name has a music extension (any letter case).
pub fn is_music_file_extension(filename: &str) -> (r: bool)
    ensures
        r == match file_extension(filename@) {
            Some(e) => music_extensions().contains(lowercase(e)),
            None => false,
        },
{
    match path_extension(filename) {
        Some(e) => {
            let low = to_lowercase(&chars_of(e.as_str()));
            let options = ["mp3", "flac", "wav", "ogg", "m4a", "aac", "wma", "ape", "opus", "aiff", "au"];
            let r = is_one_of(&low, &options);
            proof {
                reveal_strlit("mp3");
                assert(str_views(options@) =~= music_extensions());
            }
            r
        },
        None => false,
    }
}

/// Whether a file in the download area is an audio file that storage
/// offloads, by its extension (any letter case).
pub fn is_audio_file(path: &str) -> (r: bool)
    ensures
        r == match file_extension(path@) {
            Some(e) => audio_extensions().contains(lowercase(e)),
            None => false,
        },
{
    match path_extension(path) {
        Some(e) => {
            let low = to_lowercase(&chars_of(e.as_str()));
            let options = ["mp3", "flac", "wav", "ogg", "m4a", "aac"];
            let r = is_one_of(&low, &options);
            proof {
                assert(str_views(options@) =~= audio_extensions());
            }
            r
        },
        None => false,
    }
}

/// Whether a file name marks a hidden file (it starts with `.`).
pub fn is_hidden_name(name: &str) -> (r: bool)
    ensures
        r == starts_with(name@, seq!['.']),
{
    let n = chars_of(name);
    let dot = vec!['.'];
    assert(dot@ =~= seq!['.']);
    starts_with_chars(&n, &dot)
}

/// Whether `entry` is a partial download of `file_name`: its name starts with
/// the file's name and ends in `.part` or `.tmp`.
pub fn is_partial_download_of(entry: &str, file_name: &str) -> (r: bool)
    ensures
        r == (starts_with(entry@, file_name@) && (ends_with(entry@, ".part"@) || ends_with(
            entry@,
            ".tmp"@,
        ))),
{
    let e = chars_of(entry);
    let f = chars_of(file_name);
    starts_with_chars(&e, &f) && (ends_with_chars(&e, &chars_of(".part")) || ends_with_chars(
        &e,
        &chars_of(".tmp"),
    ))
}

/// Whether a file is old enough to be offloaded.
pub fn is_ready_for_offload(age_seconds: u64, delay_seconds: u64) -> (r: bool)
    ensures
        r == (age_seconds >= delay_seconds),
{
    age_seconds >= delay_seconds
}

/// std `PathBuf::join` of a relative name on Unix: a `/` is put between
/// unless the base is empty or already ends in one.
pub open spec fn joined_path(base: Seq<char>, name: Seq<char>) -> Seq<char> {
    if base.len() == 0 || base.last() == '/' {
        base + name
    } else {
        base + seq!['/'] + name
    }
}

/// Where a file offloaded from hot to cold storage goes: its name under the
/// cold downloads directory.
pub fn offload_destination(config: &StorageConfig, file_name: &str) -> (r: String)
    ensures
        r@ == joined_path(config.cold_downloads_path@, file_name@),
{
    let mut v = chars_of(config.cold_downloads_path.as_str());
    let n = v.len();
    if !(n == 0 || v[n - 1] == '/') {
        v.push('/');
    }
    let f = chars_of(file_name);
    push_all(&mut v, &f);
    string_of(&v)
}

} // verus!
