//! Transmission: endpoint addresses, the session-id handshake of its RPC
//! protocol, request arguments and the reading of its replies.
use vstd::prelude::*;
use crate::text::{chars_of, chars_eq, owned, push_str_chars, string_of, strip_trailing, trim_end_char};

verus! {

/// What the library keeps of a Transmission connection: where it is, how to
/// log in, and the session id the server handed out last.
pub struct TransmissionClient {
    pub base_url: String,
    pub username: String,
    pub password: String,
    pub session_id: Option<String>,
}

/// What to do after the status line of an RPC answer arrived.
pub enum RpcStep {
    /// The server asked for a new session id; send the request again. The
    /// number of such retries so far is given.
    Retry { retries: u32 },
    /// Give up with this failure.
    Fail(RpcFailure),
    /// The status is a success: read the body.
    ReadBody,
}

/// Why an RPC call failed.
pub enum RpcFailure {
    /// The server asked for a new session id more than twice.
    TooManySessionRetries,
    /// The answer had this non-success HTTP status.
    Http(u16),
    /// The RPC `result` field was not `success`, but this.
    Rpc(String),
}

/// A value in the `arguments` object of an RPC request.
pub enum RpcValue {
    Text(String),
    Flag(bool),
    Ids(Vec<i64>),
    Names(Vec<String>),
}

/// The HTTP status that Transmission answers when the session id is missing
/// or stale.
pub const SESSION_CONFLICT: u16 = 409;

impl TransmissionClient {
    /// A client for the server at `base_url` (trailing slashes dropped), with
    /// no session id yet.
    pub fn new(base_url: String, username: String, password: String) -> (r: Self)
        ensures
            r.base_url@ == strip_trailing(base_url@, '/'),
            r.username@ == username@,
            r.password@ == password@,
            r.session_id is None,
    {
        TransmissionClient {
            base_url: trim_end_char(base_url.as_str(), '/'),
            username,
            password,
            session_id: None,
        }
    }

    /// The RPC endpoint.
    pub fn rpc_url(&self) -> (r: String)
        ensures
            r@ == self.base_url@ + "/transmission/rpc"@,
    {
        let mut v: Vec<char> = chars_of(self.base_url.as_str());
        push_str_chars(&mut v, "/transmission/rpc");
        string_of(&v)
    }

    /// The web interface, fetched to test that the server answers at all.
    pub fn web_url(&self) -> (r: String)
        ensures
            r@ == self.base_url@ + "/transmission/web/"@,
    {
        let mut v: Vec<char> = chars_of(self.base_url.as_str());
        push_str_chars(&mut v, "/transmission/web/");
        string_of(&v)
    }

    /// Reacts to the status of an RPC answer. A 409 that carries a session id
    /// stores that id and asks for a retry, unless `retries` retries were
    /// already made and this would be the third; any other non-2xx status
    /// fails; a 2xx status lets the body be read.
    pub fn on_rpc_status(&mut self, status: u16, session_header: Option<&str>, retries: u32) -> (r:
        RpcStep)
        ensures
            (status == SESSION_CONFLICT && session_header is Some) ==> {
                &&& (final(self).session_id matches Some(id) && id@ == session_header->0@)
                &&& retries >= 2 ==> (r matches RpcStep::Fail(RpcFailure::TooManySessionRetries))
                &&& retries < 2 ==> (r matches RpcStep::Retry { retries: n } && n == retries + 1)
            },
            !(status == SESSION_CONFLICT && session_header is Some) ==> {
                &&& final(self).session_id == old(self).session_id
                &&& (200 <= status <= 299) ==> r is ReadBody
                &&& !(200 <= status <= 299) ==> (r matches RpcStep::Fail(RpcFailure::Http(s)) && s
                    == status)
            },
            final(self).base_url == old(self).base_url,
            final(self).username == old(self).username,
            final(self).password == old(self).password,
    {
        if status == SESSION_CONFLICT {
            if let Some(id) = session_header {
                self.session_id = Some(owned(id));
                if retries >= 2 {
                    return RpcStep::Fail(RpcFailure::TooManySessionRetries);
                }
                return RpcStep::Retry { retries: retries + 1 };
            }
        }
        if 200 <= status && status <= 299 {
            RpcStep::ReadBody
        } else {
            RpcStep::Fail(RpcFailure::Http(status))
        }
    }
}

/// Checks the `result` field of an RPC answer: `success`, or the failure.
pub fn check_rpc_result(result: &str) -> (r: Result<(), RpcFailure>)
    ensures
        result@ == "success"@ ==> r is Ok,
        result@ != "success"@ ==> (r matches Err(RpcFailure::Rpc(m)) && m@ == result@),
{
    let a = chars_of(result);
    let b = chars_of("success");
    if chars_eq(&a, &b) {
        Ok(())
    } else {
        Err(RpcFailure::Rpc(owned(result)))
    }
}

/// The name Transmission gives a torrent status code.
pub open spec fn status_name(status: i32) -> Seq<char> {
    if status == 0 {
        "stopped"@
    } else if status == 1 {
        "check_pending"@
    } else if status == 2 {
        "checking"@
    } else if status == 3 {
        "download_pending"@
    } else if status == 4 {
        "downloading"@
    } else if status == 5 {
        "seed_pending"@
    } else if status == 6 {
        "seeding"@
    } else {
        "unknown"@
    }
}

/// Human-readable status of a torrent.
pub fn torrent_status_string(status: i32) -> (r: &'static str)
    ensures
        r@ == status_name(status),
{
    match status {
        0 => "stopped",
        1 => "check_pending",
        2 => "checking",
        3 => "download_pending",
        4 => "downloading",
        5 => "seed_pending",
        6 => "seeding",
        _ => "unknown",
    }
}

/// A torrent with this status code is downloading.
pub fn torrent_is_downloading(status: i32) -> (r: bool)
    ensures
        r == (status == 4),
{
    status == 4
}

/// A torrent with this status code is seeding.
pub fn torrent_is_seeding(status: i32) -> (r: bool)
    ensures
        r == (status == 6),
{
    status == 6
}

/// The progress of a finished download, in thousandths.
pub const PROGRESS_DONE: u32 = 1000;

/// A torrent as Transmission lists it. Its progress and upload ratio are
/// kept in thousandths (`1000` is a whole), read from Transmission's
/// fractions.
#[derive(Debug, Clone)]
pub struct TorrentInfo {
    pub id: i64,
    pub name: String,
    pub size: u64,
    pub progress_permille: u32,
    pub download_speed: u64,
    pub upload_speed: u64,
    pub status: i32,
    pub hash: String,
    pub download_dir: String,
    pub error: String,
    pub eta: i64,
    pub ratio_permille: u32,
}

impl TorrentInfo {
    /// The name of the torrent's status.
    pub fn status_string(&self) -> (r: &'static str)
        ensures
            r@ == status_name(self.status),
    {
        torrent_status_string(self.status)
    }

    /// Whether the torrent is downloading.
    pub fn is_downloading(&self) -> (r: bool)
        ensures
            r == (self.status == 4),
    {
        torrent_is_downloading(self.status)
    }

    /// Whether the torrent is complete: its progress reached a whole.
    pub fn is_completed(&self) -> (r: bool)
        ensures
            r == (self.progress_permille >= PROGRESS_DONE),
    {
        self.progress_permille >= PROGRESS_DONE
    }

    /// Whether the torrent is seeding.
    pub fn is_seeding(&self) -> (r: bool)
        ensures
            r == (self.status == 6),
    {
        torrent_is_seeding(self.status)
    }
}

/// The hash an add request reports: that of the added torrent if the reply
/// names one, else that of the duplicate; `unknown` where the field is not a
/// string. `None` where the reply names neither.
pub open spec fn reply_hash(added: Option<Option<Seq<char>>>, duplicate: Option<Option<Seq<char>>>) -> Option<
    Seq<char>,
> {
    match added {
        Some(h) => Some(
            match h {
                Some(s) => s,
                None => "unknown"@,
            },
        ),
        None => match duplicate {
            Some(h) => Some(
                match h {
                    Some(s) => s,
                    None => "unknown"@,
                },
            ),
            None => None,
        },
    }
}

/// The texts of an optional `hashString` field.
pub open spec fn hash_field_view(f: Option<Option<&str>>) -> Option<Option<Seq<char>>> {
    match f {
        Some(Some(s)) => Some(Some(s@)),
        Some(None) => Some(None),
        None => None,
    }
}

fn hash_or_unknown(h: Option<&str>) -> (r: String)
    ensures
        r@ == match h {
            Some(s) => s@,
            None => "unknown"@,
        },
{
    match h {
        Some(s) => owned(s),
        None => owned("unknown"),
    }
}

/// The torrent hash of an add reply. Each argument is the `hashString` field
/// of `torrent-added` / `torrent-duplicate`: `None` where there is no such
/// field, `Some(None)` where it is not a string.
pub fn torrent_hash_from_reply(added: Option<Option<&str>>, duplicate: Option<Option<&str>>) -> (r:
    Option<String>)
    ensures
        match reply_hash(hash_field_view(added), hash_field_view(duplicate)) {
            Some(h) => (r matches Some(s) && s@ == h),
            None => r is None,
        },
{
    match added {
        Some(h) => Some(hash_or_unknown(h)),
        None => match duplicate {
            Some(h) => Some(hash_or_unknown(h)),
            None => None,
        },
    }
}

/// The arguments of `torrent-add`: the link, then the download directory and
/// the paused flag where given.
pub fn add_magnet_arguments(magnet_url: &str, download_dir: Option<&str>, paused: Option<bool>) -> (r:
    Vec<(String, RpcValue)>)
    ensures
        r@.len() == 1 + (if download_dir is Some { 1int } else { 0 }) + (if paused is Some { 1int } else { 0 }),
        r@[0].0@ == "filename"@,
        (r@[0].1 matches RpcValue::Text(t) && t@ == magnet_url@),
        download_dir matches Some(d) ==> (r@[1].0@ == "download-dir"@ && (r@[1].1 matches RpcValue::Text(t) && t@ == d@)),
        paused matches Some(p) ==> (r@[r@.len() - 1].0@ == "paused"@ && (r@[r@.len() - 1].1 matches RpcValue::Flag(f) && f == p)),
{
    let mut v: Vec<(String, RpcValue)> = Vec::new();
    v.push((owned("filename"), RpcValue::Text(owned(magnet_url))));
    if let Some(d) = download_dir {
        v.push((owned("download-dir"), RpcValue::Text(owned(d))));
    }
    if let Some(p) = paused {
        v.push((owned("paused"), RpcValue::Flag(p)));
    }
    v
}

/// The arguments that name one torrent by its id (stop, start).
pub fn torrent_id_arguments(id: i64) -> (r: Vec<(String, RpcValue)>)
    ensures
        r@.len() == 1,
        r@[0].0@ == "ids"@,
        (r@[0].1 matches RpcValue::Ids(ids) && ids@ == seq![id]),
{
    let mut v: Vec<(String, RpcValue)> = Vec::new();
    let mut ids: Vec<i64> = Vec::new();
    ids.push(id);
    v.push((owned("ids"), RpcValue::Ids(ids)));
    v
}

/// The arguments of `torrent-remove`.
pub fn remove_arguments(id: i64, delete_files: bool) -> (r: Vec<(String, RpcValue)>)
    ensures
        r@.len() == 2,
        r@[0].0@ == "ids"@,
        (r@[0].1 matches RpcValue::Ids(ids) && ids@ == seq![id]),
        r@[1].0@ == "delete-local-data"@,
        (r@[1].1 matches RpcValue::Flag(f) && f == delete_files),
{
    let mut v = torrent_id_arguments(id);
    v.push((owned("delete-local-data"), RpcValue::Flag(delete_files)));
    v
}

/// The torrent fields that `torrent-get` asks for.
pub open spec fn torrent_fields() -> Seq<Seq<char>> {
    seq![
        "id"@,
        "name"@,
        "totalSize"@,
        "percentDone"@,
        "rateDownload"@,
        "rateUpload"@,
        "status"@,
        "hashString"@,
        "downloadDir"@,
        "errorString"@,
        "eta"@,
        "uploadRatio"@,
    ]
}

fn push_name(v: &mut Vec<String>, s: &str)
    ensures
        final(v)@.map_values(|x: String| x@) == old(v)@.map_values(|x: String| x@).push(s@),
{
    let ghost before = v@;
    v.push(owned(s));
    assert(v@.map_values(|x: String| x@) =~= before.map_values(|x: String| x@).push(s@));
}

/// The arguments of `torrent-get`: the list of fields to return.
pub fn torrent_get_arguments() -> (r: Vec<(String, RpcValue)>)
    ensures
        r@.len() == 1,
        r@[0].0@ == "fields"@,
        (r@[0].1 matches RpcValue::Names(n) && n@.map_values(|s: String| s@) == torrent_fields()),
{
    let mut n: Vec<String> = Vec::new();
    push_name(&mut n, "id");
    push_name(&mut n, "name");
    push_name(&mut n, "totalSize");
    push_name(&mut n, "percentDone");
    push_name(&mut n, "rateDownload");
    push_name(&mut n, "rateUpload");
    push_name(&mut n, "status");
    push_name(&mut n, "hashString");
    push_name(&mut n, "downloadDir");
    push_name(&mut n, "errorString");
    push_name(&mut n, "eta");
    push_name(&mut n, "uploadRatio");
    assert(n@.map_values(|s: String| s@) =~= torrent_fields());
    let mut v: Vec<(String, RpcValue)> = Vec::new();
    v.push((owned("fields"), RpcValue::Names(n)));
    v
}

/// The first torrent, by position, whose hash is `hash`.
pub fn find_torrent(hashes: &Vec<String>, hash: &str) -> (r: Option<usize>)
    ensures
        match r {
            Some(i) => i < hashes@.len() && hashes@[i as int]@ == hash@ && forall|j: int|
                0 <= j < i ==> #[trigger] hashes@[j]@ != hash@,
            None => forall|j: int| 0 <= j < hashes@.len() ==> #[trigger] hashes@[j]@ != hash@,
        },
{
    let h = chars_of(hash);
    let mut i: usize = 0;
    while i < hashes.len()
        invariant
            i <= hashes@.len(),
            h@ == hash@,
            forall|j: int| 0 <= j < i ==> #[trigger] hashes@[j]@ != hash@,
        decreases hashes@.len() - i,
    {
        let c = chars_of(hashes[i].as_str());
        if chars_eq(&c, &h) {
            return Some(i);
        }
        i = i + 1;
    }
    None
}

} // verus!
