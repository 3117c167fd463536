//! What the Bilibili HTTP client decides around its requests: which
//! response codes mean what, which cookie fields a login keeps, and how the
//! upstream records become the application's models. The requests
//! themselves are made by the host application.

use vstd::prelude::*;
use vstd::string::StringExecFns;
use crate::models::{live_status_named, AccountSummary, LiveStatus, RoomInfo};
use crate::text::{
    chars_of, contains_char, string_of, has_prefix, is_text, join, join_strings, starts_with, string_views, trim,
    trimmed,
};

verus! {

pub const QR_GENERATE_URL: &'static str = "https://passport.bilibili.com/x/passport-login/web/qrcode/generate";
pub const QR_POLL_URL: &'static str = "https://passport.bilibili.com/x/passport-login/web/qrcode/poll";
pub const NAV_URL: &'static str = "https://api.bilibili.com/x/web-interface/nav";
pub const ROOM_INFO_URL: &'static str = "https://api.live.bilibili.com/room/v1/Room/get_info";

/// How long a login QR code stays valid, in seconds.
pub const QR_LIFETIME_SECONDS: u64 = 180;

/// Why a request to Bilibili did not give a usable result.
#[derive(Debug)]
pub enum BilibiliError {
    /// The request could not be made or its body not read.
    Request,
    HttpStatus(u16),
    Api { code: i64, message: String },
    InvalidResponse,
    InvalidLoginUrl,
    QrCode,
}

/// A pending QR login: the key to poll with and when it lapses.
#[derive(Debug, Clone)]
pub struct QrSession {
    pub qrcode_key: String,
    pub expires_at: u64,
}

#[derive(Debug, PartialEq, Eq)]
pub enum QrPollResult {
    Pending,
    Scanned,
    Expired,
    Success { cookie: String },
}

/// The envelope every Bilibili API answer comes in.
#[derive(Debug)]
pub struct ApiEnvelope<T> {
    pub code: i64,
    pub message: String,
    pub data: Option<T>,
}

#[derive(Debug)]
pub struct QrGenerateData {
    pub url: String,
    pub qrcode_key: String,
}

#[derive(Debug)]
pub struct QrPollData {
    pub code: i64,
    pub message: String,
    pub url: Option<String>,
}

#[derive(Debug)]
pub struct NavData {
    pub is_login: bool,
    pub mid: u64,
    pub uname: String,
    pub face: String,
}

#[derive(Debug)]
pub struct RoomData {
    pub room_id: u64,
    pub uid: u64,
    pub uname: String,
    pub title: String,
    pub live_status: u8,
    pub online: u64,
    pub room_cover: String,
    pub user_cover: String,
    pub keyframe: String,
}

impl<T> ApiEnvelope<T> {
    /// The payload of a successful answer.
    pub fn into_data(self) -> (r: Result<T, BilibiliError>)
        ensures
            self.code != 0 ==> (r matches Err(BilibiliError::Api { code, message }) && code
                == self.code && message@ == self.message@),
            self.code == 0 && self.data is None ==> r matches Err(BilibiliError::InvalidResponse),
            self.code == 0 && self.data is Some ==> r == Ok::<T, BilibiliError>(self.data->0),
    {
        if self.code != 0 {
            return Err(BilibiliError::Api { code: self.code, message: self.message });
        }
        match self.data {
            Some(data) => Ok(data),
            None => Err(BilibiliError::InvalidResponse),
        }
    }
}

/// An HTTP status outside 200..=299 is an error (`StatusCode::is_success`).
pub fn check_status(status: u16) -> (r: Result<(), BilibiliError>)
    ensures
        200 <= status < 300 ==> r is Ok,
        !(200 <= status < 300) ==> (r matches Err(BilibiliError::HttpStatus(s)) && s == status),
{
    if 200 <= status && status < 300 {
        Ok(())
    } else {
        Err(BilibiliError::HttpStatus(status))
    }
}

/// The login state a non-zero QR poll code reports.
pub open spec fn poll_state_of(code: i64) -> Option<QrPollResult> {
    if code == 86038 {
        Some(QrPollResult::Expired)
    } else if code == 86090 {
        Some(QrPollResult::Scanned)
    } else if code == 86101 {
        Some(QrPollResult::Pending)
    } else {
        None
    }
}

pub fn qr_poll_state(code: i64) -> (r: Option<QrPollResult>)
    ensures
        r == poll_state_of(code),
{
    match code {
        86038 => Some(QrPollResult::Expired),
        86090 => Some(QrPollResult::Scanned),
        86101 => Some(QrPollResult::Pending),
        _ => None,
    }
}

/// `value` where it holds more than whitespace.
pub fn non_empty(value: String) -> (r: Option<String>)
    ensures
        trimmed(value@).len() > 0 ==> r == Some(value),
        trimmed(value@).len() == 0 ==> r is None,
{
    let t = trim(value.as_str());
    if t.as_str().is_empty() {
        None
    } else {
        Some(value)
    }
}

/// The first of `values` that holds more than whitespace.
pub open spec fn first_filled(values: Seq<String>) -> Option<String>
    decreases values.len(),
{
    if values.len() == 0 {
        None
    } else if trimmed(values[0]@).len() > 0 {
        Some(values[0])
    } else {
        first_filled(values.drop_first())
    }
}

proof fn lemma_first_filled_skip(values: Seq<String>, i: int)
    requires
        0 <= i <= values.len(),
        forall|k: int| 0 <= k < i ==> trimmed((#[trigger] values[k])@).len() == 0,
    ensures
        first_filled(values) == first_filled(values.subrange(i, values.len() as int)),
    decreases i,
{
    if i > 0 {
        lemma_first_filled_skip(values.drop_first(), i - 1);
        assert(values.drop_first().subrange(i - 1, values.drop_first().len() as int)
            =~= values.subrange(i, values.len() as int));
    } else {
        assert(values.subrange(0, values.len() as int) =~= values);
    }
}

pub fn first_non_empty(values: Vec<String>) -> (r: Option<String>)
    ensures
        r == first_filled(values@),
{
    let mut vals = values;
    let ghost initial = vals@;
    let n = vals.len();
    let mut i: usize = 0;
    while i < n
        invariant
            vals@ == initial,
            values@ == initial,
            n == initial.len(),
            i <= n,
            forall|k: int| 0 <= k < i ==> trimmed((#[trigger] initial[k])@).len() == 0,
        decreases n - i,
    {
        let t = trim(vals[i].as_str());
        if !t.as_str().is_empty() {
            proof {
                lemma_first_filled_skip(initial, i as int);
                assert(initial.subrange(i as int, n as int)[0] == initial[i as int]);
                assert(trimmed(initial[i as int]@).len() > 0);
                assert(first_filled(initial.subrange(i as int, n as int)) == Some(initial[i as int]));
            }
            let found = vals.swap_remove(i);
            assert(found == initial[i as int]);
            return Some(found);
        }
        i = i + 1;
    }
    proof {
        lemma_first_filled_skip(initial, n as int);
    }
    None
}

// ------------------------------------------------------------------ cookies

/// The cookie fields a login URL may carry into the stored credential.
pub open spec fn login_field(key: Seq<char>) -> bool {
    key == "SESSDATA"@ || key == "bili_jct"@ || key == "DedeUserID"@ || key
        == "DedeUserID__ckMd5"@ || key == "sid"@ || key == "Expires"@
}

/// The cookie fields a `Set-Cookie` header may carry into the credential.
pub open spec fn header_field(key: Seq<char>) -> bool {
    key == "SESSDATA"@ || key == "bili_jct"@ || key == "DedeUserID"@ || key
        == "DedeUserID__ckMd5"@ || key == "sid"@
}

/// `key=value`.
pub open spec fn cookie_text(key: Seq<char>, value: Seq<char>) -> Seq<char> {
    key + "="@ + value
}

pub open spec fn login_pair_kept(key: Seq<char>, value: Seq<char>) -> bool {
    login_field(key) && value.len() > 0 && !value.contains(';') && !value.contains('\r')
        && !value.contains('\n')
}

/// The `key=value` texts of the query pairs a login URL may keep, in order.
pub open spec fn login_cookie_parts(pairs: Seq<(String, String)>) -> Seq<Seq<char>>
    decreases pairs.len(),
{
    if pairs.len() == 0 {
        Seq::empty()
    } else {
        let rest = login_cookie_parts(pairs.drop_last());
        let (k, v) = pairs.last();
        if login_pair_kept(k@, v@) {
            rest.push(cookie_text(k@, v@))
        } else {
            rest
        }
    }
}

/// The cookie string made of `parts`, where one of them is a session.
pub open spec fn cookie_of(parts: Seq<Seq<char>>) -> Option<Seq<char>> {
    if exists|i: int| 0 <= i < parts.len() && starts_with(#[trigger] parts[i], "SESSDATA="@) {
        Some(join(parts, "; "@))
    } else {
        None
    }
}

fn cookie_field(key: &String, value: &String) -> (r: String)
    ensures
        r@ == cookie_text(key@, value@),
{
    let mut out = key.clone();
    out.append("=");
    out.append(value.as_str());
    out
}

fn is_login_field(key: &String) -> (r: bool)
    ensures
        r == login_field(key@),
{
    is_text(key, "SESSDATA") || is_text(key, "bili_jct") || is_text(key, "DedeUserID")
        || is_text(key, "DedeUserID__ckMd5") || is_text(key, "sid") || is_text(key, "Expires")
}

fn is_header_field(key: &String) -> (r: bool)
    ensures
        r == header_field(key@),
{
    is_text(key, "SESSDATA") || is_text(key, "bili_jct") || is_text(key, "DedeUserID")
        || is_text(key, "DedeUserID__ckMd5") || is_text(key, "sid")
}

/// Joins the kept cookie parts where one of them is a session.
fn session_cookie(parts: &Vec<String>) -> (r: Option<String>)
    ensures
        match cookie_of(string_views(parts@)) {
            Some(c) => r matches Some(s) && s@ == c,
            None => r is None,
        },
{
    let mut found = false;
    let mut i: usize = 0;
    while i < parts.len()
        invariant
            i <= parts@.len(),
            found == exists|k: int| 0 <= k < i && starts_with(#[trigger] string_views(parts@)[k], "SESSDATA="@),
        decreases parts@.len() - i,
    {
        if has_prefix(parts[i].as_str(), "SESSDATA=") {
            found = true;
        }
        assert(string_views(parts@)[i as int] == parts@[i as int]@);
        i = i + 1;
    }
    if found {
        Some(join_strings(parts, "; "))
    } else {
        None
    }
}

/// The credential cookie carried by a login URL's query pairs: the allowed
/// fields with a non-empty value free of `;`, CR and LF, joined by `"; "`,
/// provided one of them is the session.
pub fn cookie_from_query_pairs(pairs: &Vec<(String, String)>) -> (r: Result<String, BilibiliError>)
    ensures
        match cookie_of(login_cookie_parts(pairs@)) {
            Some(c) => r matches Ok(s) && s@ == c,
            None => r matches Err(BilibiliError::InvalidLoginUrl),
        },
{
    let mut parts: Vec<String> = Vec::new();
    let mut i: usize = 0;
    while i < pairs.len()
        invariant
            i <= pairs@.len(),
            string_views(parts@) == login_cookie_parts(pairs@.take(i as int)),
        decreases pairs@.len() - i,
    {
        let key = &pairs[i].0;
        let value = &pairs[i].1;
        let keep = is_login_field(key) && !value.as_str().is_empty() && !contains_char(
            value.as_str(),
            ';',
        ) && !contains_char(value.as_str(), '\r') && !contains_char(value.as_str(), '\n');
        let ghost before = parts@;
        if keep {
            parts.push(cookie_field(key, value));
            assert(string_views(parts@) =~= string_views(before).push(parts@.last()@));
        }
        assert(pairs@.take(i + 1).drop_last() =~= pairs@.take(i as int));
        i = i + 1;
    }
    assert(pairs@.take(pairs@.len() as int) =~= pairs@);
    match session_cookie(&parts) {
        Some(c) => Ok(c),
        None => Err(BilibiliError::InvalidLoginUrl),
    }
}

/// The decoded query pairs of `raw` parsed as a URL, or `None` where it is
/// not one.
pub uninterp spec fn url_query_pairs(raw: Seq<char>) -> Option<Seq<(String, String)>>;

/// Parses `raw` with `url::Url::parse` and lists `Url::query_pairs` as
/// owned strings. Trusted: the pairs are what the `url` crate decodes from
/// this text, in its order, and `None` where it rejects the text.
#[verifier::external_body]
fn query_pairs_of_url(raw: &str) -> (r: Option<Vec<(String, String)>>)
    ensures
        match url_query_pairs(raw@) {
            Some(p) => r matches Some(v) && v@ == p,
            None => r is None,
        },
{
    url::Url::parse(raw).ok().map(
        |url| url.query_pairs().map(|(k, v)| (k.into_owned(), v.into_owned())).collect(),
    )
}

/// The credential cookie a successful QR login reports in its redirect URL.
pub fn cookie_from_login_url(raw_url: Option<&str>) -> (r: Result<String, BilibiliError>)
    ensures
        match raw_url {
            None => r matches Err(BilibiliError::InvalidLoginUrl),
            Some(raw) => match url_query_pairs(raw@) {
                None => r matches Err(BilibiliError::InvalidLoginUrl),
                Some(pairs) => match cookie_of(login_cookie_parts(pairs)) {
                    Some(c) => r matches Ok(s) && s@ == c,
                    None => r matches Err(BilibiliError::InvalidLoginUrl),
                },
            },
        },
{
    let raw = match raw_url {
        Some(raw) => raw,
        None => return Err(BilibiliError::InvalidLoginUrl),
    };
    match query_pairs_of_url(raw) {
        Some(pairs) => cookie_from_query_pairs(&pairs),
        None => Err(BilibiliError::InvalidLoginUrl),
    }
}


/// A header byte that `HeaderValue::to_str` accepts: visible ASCII or tab.
pub open spec fn visible_ascii(b: u8) -> bool {
    (32 <= b && b < 127) || b == 9
}

/// The text of a header value made only of visible ASCII.
pub open spec fn header_text(raw: Seq<u8>) -> Option<Seq<char>> {
    if forall|k: int| 0 <= k < raw.len() ==> visible_ascii(#[trigger] raw[k]) {
        Some(raw.map_values(|b: u8| b as char))
    } else {
        None
    }
}

/// The index of the first `c` in `s`, or `s.len()` where there is none.
pub open spec fn first_index(s: Seq<char>, c: char) -> int
    decreases s.len(),
{
    if s.len() == 0 {
        0
    } else if s[0] == c {
        0
    } else {
        1 + first_index(s.drop_first(), c)
    }
}

proof fn lemma_first_index(s: Seq<char>, c: char, i: int)
    requires
        0 <= i <= s.len(),
        forall|k: int| 0 <= k < i ==> s[k] != c,
        i == s.len() || s[i] == c,
    ensures
        first_index(s, c) == i,
    decreases i,
{
    if i > 0 {
        lemma_first_index(s.drop_first(), c, i - 1);
    }
}

/// The `key=value` cookie a `Set-Cookie` header value carries: the text
/// before its first `;`, split at its first `=`, kept when the field is
/// allowed and the value is non-empty and free of CR and LF.
pub open spec fn header_cookie_part(raw: Seq<u8>) -> Option<Seq<char>> {
    match header_text(raw) {
        None => None,
        Some(s) => {
            let first = s.take(first_index(s, ';'));
            let e = first_index(first, '=');
            if e >= first.len() {
                None
            } else {
                let k = first.take(e);
                let v = first.skip(e + 1);
                if header_field(k) && v.len() > 0 && !v.contains('\r') && !v.contains('\n') {
                    Some(cookie_text(k, v))
                } else {
                    None
                }
            }
        },
    }
}

/// The cookies of all `Set-Cookie` header values, in order.
pub open spec fn header_cookie_parts(values: Seq<Vec<u8>>) -> Seq<Seq<char>>
    decreases values.len(),
{
    if values.len() == 0 {
        Seq::empty()
    } else {
        let rest = header_cookie_parts(values.drop_last());
        match header_cookie_part(values.last()@) {
            Some(c) => rest.push(c),
            None => rest,
        }
    }
}

fn header_cookie(raw: &Vec<u8>) -> (r: Option<String>)
    ensures
        match header_cookie_part(raw@) {
            Some(c) => r matches Some(s) && s@ == c,
            None => r is None,
        },
{
    let n = raw.len();
    let mut chars: Vec<char> = Vec::new();
    let mut i: usize = 0;
    while i < n
        invariant
            n == raw@.len(),
            i <= n,
            chars@ == raw@.take(i as int).map_values(|b: u8| b as char),
            forall|k: int| 0 <= k < i ==> visible_ascii(#[trigger] raw@[k]),
        decreases n - i,
    {
        let b = raw[i];
        if !((32 <= b && b < 127) || b == 9) {
            assert(!visible_ascii(raw@[i as int]));
            return None;
        }
        chars.push(b as char);
        assert(chars@ =~= raw@.take(i + 1).map_values(|b: u8| b as char));
        i = i + 1;
    }
    assert(raw@.take(n as int) =~= raw@);
    let ghost s = chars@;
    assert(header_text(raw@) == Some(s));
    let mut semi: usize = 0;
    while semi < n && chars[semi] != ';'
        invariant
            chars@ == s,
            n == s.len(),
            semi <= n,
            forall|k: int| 0 <= k < semi ==> s[k] != ';',
        decreases n - semi,
    {
        semi = semi + 1;
    }
    proof {
        lemma_first_index(s, ';', semi as int);
    }
    let ghost first = s.take(semi as int);
    let mut eq: usize = 0;
    while eq < semi && chars[eq] != '='
        invariant
            chars@ == s,
            n == s.len(),
            semi <= n,
            eq <= semi,
            first == s.take(semi as int),
            forall|k: int| 0 <= k < eq ==> first[k] != '=',
        decreases semi - eq,
    {
        eq = eq + 1;
    }
    proof {
        lemma_first_index(first, '=', eq as int);
    }
    if eq >= semi {
        return None;
    }
    let key = string_of(&chars.as_slice()[0..eq]);
    let value = string_of(&chars.as_slice()[eq + 1..semi]);
    assert(key@ =~= first.take(eq as int));
    assert(value@ =~= first.skip(eq + 1));
    if is_header_field(&key) && !value.as_str().is_empty() && !contains_char(value.as_str(), '\r')
        && !contains_char(value.as_str(), '\n') {
        Some(cookie_field(&key, &value))
    } else {
        None
    }
}

/// The credential cookie carried by a poll response's `Set-Cookie` header
/// values: the allowed fields joined by `"; "`, provided one of them is the
/// session.
pub fn cookie_from_set_cookie_headers(values: &Vec<Vec<u8>>) -> (r: Option<String>)
    ensures
        match cookie_of(header_cookie_parts(values@)) {
            Some(c) => r matches Some(s) && s@ == c,
            None => r is None,
        },
{
    let mut parts: Vec<String> = Vec::new();
    let mut i: usize = 0;
    while i < values.len()
        invariant
            i <= values@.len(),
            string_views(parts@) == header_cookie_parts(values@.take(i as int)),
        decreases values@.len() - i,
    {
        let ghost before = parts@;
        match header_cookie(&values[i]) {
            Some(c) => {
                parts.push(c);
                assert(string_views(parts@) =~= string_views(before).push(parts@.last()@));
            },
            None => {},
        }
        assert(values@.take(i + 1).drop_last() =~= values@.take(i as int));
        i = i + 1;
    }
    assert(values@.take(values@.len() as int) =~= values@);
    session_cookie(&parts)
}


// ------------------------------------------------------------------ records

/// The signed-in account a `nav` answer describes, if the cookie is signed in.
pub fn account_from_nav(data: NavData) -> (r: Option<AccountSummary>)
    ensures
        !data.is_login ==> r is None,
        data.is_login ==> (r matches Some(a) && a.mid == data.mid && a.username == data.uname
            && (trimmed(data.face@).len() > 0 ==> a.avatar_url == Some(data.face))
            && (trimmed(data.face@).len() == 0 ==> a.avatar_url is None)),
{
    if !data.is_login {
        return None;
    }
    Some(AccountSummary { mid: data.mid, username: data.uname, avatar_url: non_empty(data.face) })
}

/// The label of a room's broadcast state code.
pub open spec fn live_status_label(code: u8) -> Seq<char> {
    if code == 1 {
        "live"@
    } else if code == 2 {
        "round"@
    } else {
        "offline"@
    }
}

/// Law: Bilibili's broadcast state codes: 1 is a live broadcast, 2 a
/// rotation of recordings, anything else offline; each label is shown as
/// the state it names.
pub proof fn lemma_live_status_codes(code: u8)
    ensures
        code == 1 ==> live_status_label(code) == "live"@ && live_status_named(
            live_status_label(code),
        ) == LiveStatus::Live,
        code == 2 ==> live_status_label(code) == "round"@ && live_status_named(
            live_status_label(code),
        ) == LiveStatus::Round,
        code != 1 && code != 2 ==> live_status_label(code) == "offline"@ && live_status_named(
            live_status_label(code),
        ) == LiveStatus::Offline,
{
    reveal_strlit("live");
    reveal_strlit("round");
    reveal_strlit("offline");
    assert("live"@ != "round"@ && "live"@ != "offline"@ && "round"@ != "offline"@) by {
        assert("live"@.len() != "round"@.len());
        assert("live"@.len() != "offline"@.len());
        assert("round"@.len() != "offline"@.len());
    }
}

/// The room record a `get_info` answer describes, fetched at `fetched_at`.
pub fn room_info_from(data: RoomData, fetched_at: u64) -> (r: RoomInfo)
    ensures
        r.room_id == data.room_id,
        r.owner_id == data.uid,
        trimmed(data.uname@).len() > 0 ==> r.owner_name == Some(data.uname),
        trimmed(data.uname@).len() == 0 ==> r.owner_name is None,
        r.owner_avatar_url is None,
        r.title == data.title,
        r.live_status@ == live_status_label(data.live_status),
        data.live_status == 1 ==> r.live_status@ == "live"@,
        data.live_status == 2 ==> r.live_status@ == "round"@,
        data.live_status != 1 && data.live_status != 2 ==> r.live_status@ == "offline"@,
        live_status_named(r.live_status@) == (if data.live_status == 1 {
            LiveStatus::Live
        } else if data.live_status == 2 {
            LiveStatus::Round
        } else {
            LiveStatus::Offline
        }),
        r.viewer_count == data.online,
        r.follower_count is None,
        r.cover_url == first_filled(seq![data.room_cover, data.user_cover, data.keyframe]),
        r.fetched_at == fetched_at,
{
    proof {
        lemma_live_status_codes(data.live_status);
    }
    let live_status = match data.live_status {
        1 => String::from_str("live"),
        2 => String::from_str("round"),
        _ => String::from_str("offline"),
    };
    let mut covers: Vec<String> = Vec::new();
    covers.push(data.room_cover);
    covers.push(data.user_cover);
    covers.push(data.keyframe);
    assert(covers@ =~= seq![data.room_cover, data.user_cover, data.keyframe]);
    RoomInfo {
        room_id: data.room_id,
        owner_id: data.uid,
        owner_name: non_empty(data.uname),
        owner_avatar_url: None,
        title: data.title,
        live_status,
        viewer_count: data.online,
        follower_count: None,
        cover_url: first_non_empty(covers),
        fetched_at,
    }
}

/// What a QR poll answer means: code 0 is a login, whose cookie comes from
/// the `Set-Cookie` headers or else from the redirect URL; other codes are
/// login states, or an API error.
pub fn qr_poll_result(data: QrPollData, response_cookie: Option<String>) -> (r: Result<
    QrPollResult,
    BilibiliError,
>)
    ensures
        data.code == 0 && response_cookie is Some ==> r == Ok::<QrPollResult, BilibiliError>(
            QrPollResult::Success { cookie: response_cookie->0 },
        ),
        data.code == 0 && response_cookie is None ==> match data.url {
            Some(u) => match url_query_pairs(u@) {
                Some(pairs) => match cookie_of(login_cookie_parts(pairs)) {
                    Some(c) => r matches Ok(QrPollResult::Success { cookie }) && cookie@ == c,
                    None => r matches Err(BilibiliError::InvalidLoginUrl),
                },
                None => r matches Err(BilibiliError::InvalidLoginUrl),
            },
            None => r matches Err(BilibiliError::InvalidLoginUrl),
        },
        data.code != 0 && poll_state_of(data.code) is Some ==> r == Ok::<
            QrPollResult,
            BilibiliError,
        >(poll_state_of(data.code)->0),
        data.code != 0 && poll_state_of(data.code) is None ==> (r matches Err(
            BilibiliError::Api { code, message },
        ) && code == data.code && message == data.message),
{
    if data.code == 0 {
        let cookie = match response_cookie {
            Some(c) => c,
            None => {
                let login = match &data.url {
                    Some(u) => cookie_from_login_url(Some(u.as_str())),
                    None => cookie_from_login_url(None),
                };
                match login {
                    Ok(c) => c,
                    Err(_) => return Err(BilibiliError::InvalidLoginUrl),
                }
            },
        };
        return Ok(QrPollResult::Success { cookie });
    }
    match qr_poll_state(data.code) {
        Some(state) => Ok(state),
        None => Err(BilibiliError::Api { code: data.code, message: data.message }),
    }
}

/// The SVG rendering of a QR code for `payload`, at least `min_size`
/// pixels wide and tall, or `None` where the text cannot be encoded.
pub uninterp spec fn qr_svg(payload: Seq<char>, min_size: u32) -> Option<Seq<char>>;

/// The smallest side, in pixels, of the QR code shown for a login.
pub const QR_MIN_SIZE: u32 = 256;

/// Encodes `payload` with `qrcode::QrCode::new` and renders it with
/// `render::<qrcode::render::svg::Color>().min_dimensions(min_size, min_size).build()`.
/// Trusted: the SVG text is what `qrcode` renders for this payload and
/// size, and `None` where it cannot encode the payload. A size far above
/// what a screen shows would overflow the renderer's arithmetic, so it is
/// bounded.
#[verifier::external_body]
fn render_qr_svg(payload: &str, min_size: u32) -> (r: Option<String>)
    requires
        min_size <= 65536,
    ensures
        match qr_svg(payload@, min_size) {
            Some(svg) => r matches Some(s) && s@ == svg,
            None => r is None,
        },
{
    qrcode::QrCode::new(payload.as_bytes()).ok().map(
        |qr| qr.render::<qrcode::render::svg::Color>().min_dimensions(min_size, min_size).build(),
    )
}

/// The pending login a QR `generate` answer opens at `now`, with the QR code
/// to show for it.
pub fn qr_session_from(data: QrGenerateData, now: u64) -> (r: Result<
    (QrSession, String),
    BilibiliError,
>)
    ensures
        match qr_svg(data.url@, QR_MIN_SIZE) {
            Some(svg) => r matches Ok((session, shown)) && shown@ == svg && session.qrcode_key
                == data.qrcode_key && session.expires_at == (if now + QR_LIFETIME_SECONDS
                > u64::MAX {
                u64::MAX as int
            } else {
                now + QR_LIFETIME_SECONDS
            }),
            None => r matches Err(BilibiliError::QrCode),
        },
{
    let svg = match render_qr_svg(data.url.as_str(), QR_MIN_SIZE) {
        Some(svg) => svg,
        None => return Err(BilibiliError::QrCode),
    };
    let expires_at = now.saturating_add(QR_LIFETIME_SECONDS);
    Ok((QrSession { qrcode_key: data.qrcode_key, expires_at }, svg))
}

/// Seconds since the Unix epoch by the system clock (0 where the clock is
/// before the epoch); nothing is claimed of the reading.
#[verifier::external_body]
pub fn now_seconds() -> u64 {
    std::time::SystemTime::now().duration_since(std::time::UNIX_EPOCH).map_or(0, |d| d.as_secs())
}

} // verus!
