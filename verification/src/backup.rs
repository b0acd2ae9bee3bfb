use crate::error::AppError;
use crate::text::{lowercase, lowercase_of, text_or_nothing, text_view};
use base64::Engine;
use vstd::prelude::*;

verus! {

/// What is known of the newest remote backup.
#[derive(Clone, Debug)]
pub struct BackupMetadata {
    pub last_modified: String,
    pub size_bytes: u64,
    pub version_id: String,
    pub is_latest: bool,
}

/// The parts of a URL that the backup settings are read from.
#[derive(Debug)]
pub struct UrlParts {
    pub scheme: String,
    pub host: Option<String>,
    pub path: String,
    pub query: Vec<(String, String)>,
}

/// Whether the text is an absolute URL.
pub uninterp spec fn url_is_valid(text: Seq<char>) -> bool;

/// The scheme of the URL.
pub uninterp spec fn url_scheme_of(text: Seq<char>) -> Seq<char>;

/// The host of the URL as text, if it has one.
pub uninterp spec fn url_host_of(text: Seq<char>) -> Option<Seq<char>>;

/// The path of the URL.
pub uninterp spec fn url_path_of(text: Seq<char>) -> Seq<char>;

/// The pairs of name and value in the query of the URL, decoded, in their
/// order.
pub uninterp spec fn url_query_of(text: Seq<char>) -> Seq<(Seq<char>, Seq<char>)>;

/// The bytes that a text in standard base64 with padding stands for, or
/// `None` if it is no such text.
pub uninterp spec fn base64_decoded(text: Seq<char>) -> Option<Seq<u8>>;

/// The views of pairs of texts.
pub open spec fn pairs_view(pairs: Seq<(String, String)>) -> Seq<(Seq<char>, Seq<char>)> {
    Seq::new(pairs.len(), |i: int| (pairs[i].0@, pairs[i].1@))
}

/// Calls `Url::parse` and, on the parsed URL, `scheme`, `host_str`, `path`
/// and `query_pairs`, and hands their results out as texts. The result is
/// `None` exactly if the text does not parse.
#[verifier::external_body]
fn split_url(text: &str) -> (parts: Option<UrlParts>)
    ensures
        parts is Some <==> url_is_valid(text@),
        parts matches Some(p) ==> {
            &&& p.scheme@ == url_scheme_of(text@)
            &&& text_view(p.host) == url_host_of(text@)
            &&& p.path@ == url_path_of(text@)
            &&& pairs_view(p.query@) == url_query_of(text@)
        },
{
    match url::Url::parse(text) {
        Ok(parsed) => Some(
            UrlParts {
                scheme: parsed.scheme().to_string(),
                host: parsed.host_str().map(|h| h.to_string()),
                path: parsed.path().to_string(),
                query: parsed.query_pairs().map(|(k, v)| (k.into_owned(), v.into_owned())).collect(),
            },
        ),
        Err(_) => None,
    }
}

/// Calls `Engine::decode` of base64's `general_purpose::STANDARD`, which
/// decodes the standard alphabet with padding.
#[verifier::external_body]
fn base64_decode(text: &str) -> (bytes: Option<Vec<u8>>)
    ensures
        bytes is Some <==> base64_decoded(text@) is Some,
        bytes matches Some(b) ==> base64_decoded(text@) == Some(b@),
{
    match base64::engine::general_purpose::STANDARD.decode(text) {
        Ok(bytes) => Some(bytes),
        Err(_) => None,
    }
}

/// The value of the first of the first `n` pairs whose name is `token`.
pub open spec fn token_upto(query: Seq<(Seq<char>, Seq<char>)>, n: int) -> Option<Seq<char>>
    decreases n,
{
    if n <= 0 {
        None
    } else {
        match token_upto(query, n - 1) {
            Some(value) => Some(value),
            None => if query[n - 1].0 == "token"@ {
                Some(query[n - 1].1)
            } else {
                None
            },
        }
    }
}

/// The text without the slashes at its start.
pub open spec fn without_leading_slashes(text: Seq<char>) -> Seq<char>
    decreases text.len(),
{
    if text.len() > 0 && text[0] == '/' {
        without_leading_slashes(text.subrange(1, text.len() as int))
    } else {
        text
    }
}

/// The message with which a backup URL is refused, or `None` if it is
/// accepted: it must be an absolute URL, carry a `token` in its query, and
/// have a host.
pub open spec fn backup_url_refusal(text: Seq<char>) -> Option<Seq<char>> {
    if !url_is_valid(text) {
        Some("Invalid backup URL format"@)
    } else if token_upto(url_query_of(text), url_query_of(text).len() as int) is None {
        Some("Backup URL must contain a 'token' query parameter"@)
    } else if url_host_of(text) is None {
        Some("URL missing host"@)
    } else {
        None
    }
}

/// The address of the backup service that a backup URL names: scheme, host
/// and path, without the query.
pub open spec fn backup_base_of(text: Seq<char>) -> Seq<char> {
    url_scheme_of(text) + "://"@ + url_host_of(text)->0 + "/"@ + without_leading_slashes(
        url_path_of(text),
    )
}

/// The token that a backup URL carries.
pub open spec fn backup_token_of(text: Seq<char>) -> Seq<char> {
    token_upto(url_query_of(text), url_query_of(text).len() as int)->0
}

/// Removes the slashes at the start of a text.
pub fn strip_leading_slashes(text: &str) -> (res: String)
    ensures
        res@ == without_leading_slashes(text@),
{
    let n = text.unicode_len();
    let mut k: usize = 0;
    assert(text@.subrange(0, n as int) =~= text@);
    while k < n && text.get_char(k) == '/'
        invariant
            n == text@.len(),
            k <= n,
            without_leading_slashes(text@) == without_leading_slashes(
                text@.subrange(k as int, n as int),
            ),
        decreases n - k,
    {
        assert(text@.subrange(k as int, n as int).subrange(1, n - k) =~= text@.subrange(
            k as int + 1,
            n as int,
        ));
        k = k + 1;
    }
    String::from_str(text.substring_char(k, n))
}

/// Finds the value of the first pair whose name is `token`.
pub fn find_token(query: &Vec<(String, String)>) -> (token: Option<String>)
    ensures
        text_view(token) == token_upto(pairs_view(query@), query@.len() as int),
{
    let mut k: usize = 0;
    while k < query.len()
        invariant
            k <= query@.len(),
            token_upto(pairs_view(query@), k as int) is None,
        decreases query@.len() - k,
    {
        if query[k].0 == String::from_str("token") {
            let value = query[k].1.clone();
            proof {
                assert(token_upto(pairs_view(query@), k as int + 1) == Some(value@));
                lemma_token_stays(pairs_view(query@), k as int + 1, query@.len() as int);
            }
            return Some(value);
        }
        k = k + 1;
    }
    None
}

/// Once a token is found among the first `n` pairs, it is the one found
/// among any more.
pub proof fn lemma_token_stays(query: Seq<(Seq<char>, Seq<char>)>, n: int, m: int)
    requires
        0 <= n <= m,
        token_upto(query, n) is Some,
    ensures
        token_upto(query, m) == token_upto(query, n),
    decreases m - n,
{
    if n < m {
        lemma_token_stays(query, n, m - 1);
    }
}

/// The message with which the parts of a URL are refused as a backup URL, or
/// `None` if they are accepted. `None` for the parts stands for a text that
/// is no absolute URL.
pub open spec fn parts_refusal(parts: Option<UrlParts>) -> Option<Seq<char>> {
    match parts {
        None => Some("Invalid backup URL format"@),
        Some(p) => if token_upto(pairs_view(p.query@), p.query@.len() as int) is None {
            Some("Backup URL must contain a 'token' query parameter"@)
        } else if p.host is None {
            Some("URL missing host"@)
        } else {
            None
        },
    }
}

/// The address of the backup service that the parts of a URL name.
pub open spec fn parts_base(parts: UrlParts) -> Seq<char> {
    parts.scheme@ + "://"@ + text_or_nothing(text_view(parts.host)) + "/"@
        + without_leading_slashes(parts.path@)
}

/// Reads the address of the backup service and the token from the parts of a
/// URL: the token is the value of the first `token` pair of the query, and
/// the address is scheme, host and path, the path without its leading
/// slashes.
pub fn backup_target(parts: &Option<UrlParts>) -> (res: Result<(String, String), AppError>)
    ensures
        res is Ok <==> parts_refusal(*parts) is None,
        res matches Err(e) ==> parts_refusal(*parts) is Some && e.is_config(
            parts_refusal(*parts)->0,
        ),
        res matches Ok(pair) ==> parts is Some && pair.0@ == parts_base(parts->0) && Some(pair.1@)
            == token_upto(pairs_view(parts->0.query@), parts->0.query@.len() as int),
{
    let parts = match parts {
        Some(parts) => parts,
        None => {
            return Err(AppError::Config(String::from_str("Invalid backup URL format")));
        },
    };
    let token = match find_token(&parts.query) {
        Some(token) => token,
        None => {
            return Err(
                AppError::Config(
                    String::from_str("Backup URL must contain a 'token' query parameter"),
                ),
            );
        },
    };
    let host = match &parts.host {
        Some(host) => host,
        None => {
            return Err(AppError::Config(String::from_str("URL missing host")));
        },
    };
    let mut base = parts.scheme.clone();
    base.append("://");
    base.append(host.as_str());
    base.append("/");
    base.append(strip_leading_slashes(parts.path.as_str()).as_str());
    Ok((base, token))
}

/// Reads the address of the backup service and the token from a backup URL.
pub fn parse_backup_url(full_url: &str) -> (res: Result<(String, String), AppError>)
    ensures
        res is Ok <==> backup_url_refusal(full_url@) is None,
        res matches Err(e) ==> backup_url_refusal(full_url@) is Some && e.is_config(
            backup_url_refusal(full_url@)->0,
        ),
        res matches Ok(pair) ==> pair.0@ == backup_base_of(full_url@) && pair.1@
            == backup_token_of(full_url@),
{
    let parts = split_url(full_url);
    assert(pairs_view(parts->0.query@).len() == parts->0.query@.len());
    backup_target(&parts)
}

/// Whether a backup is due at `now`: backups are enabled, a period is set,
/// and the last backup plus the period lies before `now`. Where that sum
/// cannot be represented, the first instant stands for it.
pub open spec fn backup_due(
    enabled: bool,
    last_backup: i64,
    period_hours: Option<u64>,
    now: i64,
) -> bool {
    enabled && period_hours is Some && {
        let due_at = last_backup + period_hours->0 * 3600;
        if period_hours->0 > i64::MAX as u64 / 3600 || due_at > i64::MAX {
            0 < now
        } else {
            due_at < now
        }
    }
}

/// Decides whether a backup is due at `now`. Instants are in seconds.
pub fn is_backup_needed(enabled: bool, last_backup: i64, period_hours: Option<u64>, now: i64) -> (due:
    bool)
    ensures
        due == backup_due(enabled, last_backup, period_hours, now),
{
    if !enabled {
        return false;
    }
    let hours = match period_hours {
        Some(hours) => hours,
        None => {
            return false;
        },
    };
    if hours > (i64::MAX as u64) / 3600 {
        return 0 < now;
    }
    let period: i64 = (hours * 3600) as i64;
    match last_backup.checked_add(period) {
        Some(due_at) => due_at < now,
        None => 0 < now,
    }
}

/// The address that a backup is sent to and fetched from.
pub fn backup_endpoint(base: &str) -> (res: String)
    ensures
        res@ == base@ + "/backup"@,
{
    let mut res = String::from_str(base);
    res.append("/backup");
    res
}

/// The address at which the newest backup is described.
pub fn metadata_endpoint(base: &str) -> (res: String)
    ensures
        res@ == base@ + "/backup/metadata"@,
{
    let mut res = String::from_str(base);
    res.append("/backup/metadata");
    res
}

/// Whether a version is asked for by name: a text that is neither empty nor
/// the word `null`.
pub open spec fn names_version(version: Option<Seq<char>>) -> bool {
    version is Some && version->0.len() > 0 && version->0 != "null"@
}

/// The address that a restore fetches from: the backup address, with the
/// version where one is asked for by name.
pub fn restore_endpoint(base: &str, version_id: &Option<String>) -> (res: String)
    ensures
        res@ == if names_version(text_view(*version_id)) {
            base@ + "/backup"@ + "?versionId="@ + version_id->0@
        } else {
            base@ + "/backup"@
        },
{
    let mut res = backup_endpoint(base);
    match version_id {
        Some(version) => {
            if version.as_str().unicode_len() > 0 && !(*version == String::from_str("null")) {
                res.append("?versionId=");
                res.append(version.as_str());
            }
        },
        None => {},
    }
    res
}

/// Tells whether the answer of the store's integrity check reports a sound
/// store: the word `ok` in any letter case.
pub fn integrity_ok(answer: &str) -> (ok: bool)
    ensures
        ok == (lowercase_of(answer@) == "ok"@),
{
    is_sound_answer(&lowercase(answer))
}

/// Tells whether an answer in lower case reports a sound store: it is the
/// word `ok`.
pub fn is_sound_answer(lowered: &String) -> (ok: bool)
    ensures
        ok == (lowered@ == "ok"@),
{
    *lowered == String::from_str("ok")
}

/// Decodes the body of a downloaded backup, which is in base64. A body that
/// is not is a restore failure.
pub fn decode_backup(body: &str) -> (res: Result<Vec<u8>, AppError>)
    ensures
        res is Ok <==> base64_decoded(body@) is Some,
        res matches Ok(bytes) ==> base64_decoded(body@) == Some(bytes@),
        res matches Err(e) ==> e.is_restore_failed("Backup body is not valid base64"@),
{
    match base64_decode(body) {
        Some(bytes) => Ok(bytes),
        None => Err(AppError::RestoreFailed(String::from_str("Backup body is not valid base64"))),
    }
}

} // verus!
