//! Requests to the cloud speech service (Alibaba Cloud ISI): signing the token request,
//! building the synthesis and recognition requests, and reading the replies.
//!
//! The HTTP exchanges themselves are the application shell's business.
use vstd::prelude::*;
use vstd::utf8::encode_utf8;
use base64::Engine;
use hmac::Mac;

use crate::json::{member_value, members_view, model_as_str, JsonModel, JsonValue};
use crate::config::sub_get;
use crate::text::{
    contains, digit_char, pairs_view, push_decimal, push_str, spec_contains, spec_decimal,
    spec_starts_with, starts_with, to_owned_string,
};

verus! {

/// The service that issues access tokens.
pub const NLS_META_URL: &'static str = "https://nls-meta.cn-shanghai.aliyuncs.com";

/// The speech gateway.
pub const NLS_GATEWAY: &'static str = "https://nls-gateway-cn-shanghai.aliyuncs.com";

// ---------------------------------------------------------------------------
// Percent-encoding
// ---------------------------------------------------------------------------

/// Bytes that percent-encoding leaves as they are: letters, digits and `-_.~`.
pub open spec fn is_unreserved(b: u8) -> bool {
    (65 <= b <= 90) || (97 <= b <= 122) || (48 <= b <= 57) || b == 45 || b == 95 || b == 46
        || b == 126
}

/// The upper-case hexadecimal digit for `d < 16`.
pub open spec fn hex_upper(d: nat) -> char {
    if d < 10 {
        ((48 + d) as u8) as char
    } else {
        ((55 + d) as u8) as char
    }
}

/// The encoding of one byte: itself when unreserved, else `%XX`.
pub open spec fn encode_byte(b: u8) -> Seq<char> {
    if is_unreserved(b) {
        seq![b as char]
    } else {
        seq!['%', hex_upper((b / 16) as nat), hex_upper((b % 16) as nat)]
    }
}

/// The percent-encoding of a byte sequence.
pub open spec fn percent_encode_bytes(bs: Seq<u8>) -> Seq<char>
    decreases bs.len(),
{
    if bs.len() == 0 {
        Seq::empty()
    } else {
        percent_encode_bytes(bs.drop_last()) + encode_byte(bs.last())
    }
}

/// The percent-encoding of a text's UTF-8 bytes, as the POP API specifies it.
pub open spec fn spec_percent_encode(s: Seq<char>) -> Seq<char> {
    percent_encode_bytes(encode_utf8(s))
}

fn hex_digit(d: u8) -> (c: char)
    requires
        d < 16,
    ensures
        c == hex_upper(d as nat),
{
    if d < 10 {
        (48 + d) as char
    } else {
        (55 + d) as char
    }
}

/// URL percent-encodes `s` per the Alibaba Cloud POP API: the UTF-8 bytes of `s`, each
/// unreserved byte as itself and every other byte as `%XX` (upper-case hex).
pub fn percent_encode(s: &str) -> (r: String)
    ensures
        r@ == spec_percent_encode(s@),
{
    let bytes = s.as_bytes();
    let mut result = String::new();
    let mut i: usize = 0;
    while i < bytes.len()
        invariant
            i <= bytes@.len(),
            bytes@ == encode_utf8(s@),
            result@ == percent_encode_bytes(bytes@.take(i as int)),
        decreases bytes.len() - i,
    {
        let b = bytes[i];
        assert(bytes@.take(i + 1).drop_last() =~= bytes@.take(i as int));
        let ghost before = result@;
        if (b >= 65 && b <= 90) || (b >= 97 && b <= 122) || (b >= 48 && b <= 57) || b == 45 || b
            == 95 || b == 46 || b == 126 {
            crate::text::push_char(&mut result, b as char);
            assert(result@ =~= before + encode_byte(b));
        } else {
            crate::text::push_char(&mut result, '%');
            crate::text::push_char(&mut result, hex_digit(b / 16));
            crate::text::push_char(&mut result, hex_digit(b % 16));
            assert(result@ =~= before + encode_byte(b));
        }
        i += 1;
    }
    assert(bytes@.take(bytes@.len() as int) =~= bytes@);
    result
}

// ---------------------------------------------------------------------------
// Voices
// ---------------------------------------------------------------------------

/// The voice that stands in for voices the service does not offer.
pub open spec fn fallback_voice() -> Seq<char> {
    "zhixiaoxia"@
}

/// CosyVoice voices ("long…", "cosyvoice…") are not offered by the ISI service; they are
/// replaced by "zhixiaoxia". Any other voice stays.
pub open spec fn spec_sanitize_voice(voice: Seq<char>) -> Seq<char> {
    if spec_starts_with(voice, "long"@) || spec_starts_with(voice, "cosyvoice"@) {
        fallback_voice()
    } else {
        voice
    }
}

/// Maps CosyVoice voices to the default ISI voice "zhixiaoxia"; other voices stay.
pub fn sanitize_voice(voice: &str) -> (r: &str)
    ensures
        r@ == spec_sanitize_voice(voice@),
{
    if starts_with(voice, "long") || starts_with(voice, "cosyvoice") {
        "zhixiaoxia"
    } else {
        voice
    }
}

// ---------------------------------------------------------------------------
// Base64 and HMAC-SHA1
// ---------------------------------------------------------------------------

/// The character of the standard Base64 alphabet for `v < 64`.
pub open spec fn b64_char(v: nat) -> char {
    if v < 26 {
        ((65 + v) as u32) as char
    } else if v < 52 {
        ((71 + v) as u32) as char
    } else if v < 62 {
        ((v - 4) as u32) as char
    } else if v == 62 {
        '+'
    } else {
        '/'
    }
}

/// Standard Base64 with padding (RFC 4648, section 4).
pub open spec fn spec_base64(b: Seq<u8>) -> Seq<char>
    decreases b.len(),
{
    if b.len() == 0 {
        Seq::empty()
    } else if b.len() == 1 {
        seq![b64_char((b[0] / 4) as nat), b64_char(((b[0] % 4) * 16) as nat), '=', '=']
    } else if b.len() == 2 {
        seq![
            b64_char((b[0] / 4) as nat),
            b64_char(((b[0] % 4) * 16 + b[1] / 16) as nat),
            b64_char(((b[1] % 16) * 4) as nat),
            '=',
        ]
    } else {
        seq![
            b64_char((b[0] / 4) as nat),
            b64_char(((b[0] % 4) * 16 + b[1] / 16) as nat),
            b64_char(((b[1] % 16) * 4 + b[2] / 64) as nat),
            b64_char((b[2] % 64) as nat),
        ] + spec_base64(b.skip(3))
    }
}

/// The length of the padded Base64 text for `n` bytes.
pub open spec fn base64_len(n: nat) -> nat {
    ((n + 2) / 3) * 4
}

/// Calls `base64::engine::general_purpose::STANDARD.encode`: standard Base64 with padding.
/// The crate panics when the encoded length does not fit in a `usize`.
#[verifier::external_body]
fn base64_encode(bytes: &[u8]) -> (r: String)
    requires
        base64_len(bytes@.len()) <= usize::MAX,
    ensures
        r@ == spec_base64(bytes@),
{
    base64::engine::general_purpose::STANDARD.encode(bytes)
}

/// Names the HMAC-SHA1 of `message` under `key`.
pub uninterp spec fn spec_hmac_sha1(key: Seq<u8>, message: Seq<u8>) -> Seq<u8>;

/// Computes HMAC-SHA1 with the `hmac` and `sha1` crates: `Hmac::<Sha1>::new_from_slice`,
/// `update`, `finalize`. The result is the 20-byte MAC, named `spec_hmac_sha1`; keys of
/// any length are accepted (`new_from_slice` hashes long keys and pads short ones, and
/// never fails for HMAC).
#[verifier::external_body]
fn hmac_sha1(key: &[u8], message: &[u8]) -> (r: Option<Vec<u8>>)
    ensures
        r is Some,
        r.unwrap()@ == spec_hmac_sha1(key@, message@),
        r.unwrap()@.len() == 20,
{
    let mut mac = <hmac::Hmac<sha1::Sha1> as Mac>::new_from_slice(key).ok()?;
    mac.update(message);
    Some(mac.finalize().into_bytes().to_vec())
}

// ---------------------------------------------------------------------------
// Token request
// ---------------------------------------------------------------------------

/// The parameter names of the token request, in the sorted order in which they are signed.
pub open spec fn token_param_keys() -> Seq<Seq<char>> {
    seq![
        "AccessKeyId"@,
        "Action"@,
        "Format"@,
        "RegionId"@,
        "SignatureMethod"@,
        "SignatureNonce"@,
        "SignatureVersion"@,
        "Timestamp"@,
        "Version"@,
    ]
}

/// The parameter values of the token request, matching `token_param_keys`.
pub open spec fn token_param_values(
    access_key_id: Seq<char>,
    nonce: Seq<char>,
    timestamp: Seq<char>,
) -> Seq<Seq<char>> {
    seq![
        access_key_id,
        "CreateToken"@,
        "JSON"@,
        "cn-shanghai"@,
        "HMAC-SHA1"@,
        nonce,
        "1.0"@,
        timestamp,
        "2019-02-28"@,
    ]
}

/// `k=v` pairs joined by `&`, keys and values percent-encoded.
pub open spec fn canonical_query(ps: Seq<(Seq<char>, Seq<char>)>) -> Seq<char>
    decreases ps.len(),
{
    if ps.len() == 0 {
        Seq::empty()
    } else {
        let item = spec_percent_encode(ps.last().0) + "="@ + spec_percent_encode(ps.last().1);
        if ps.len() == 1 {
            item
        } else {
            canonical_query(ps.drop_last()) + "&"@ + item
        }
    }
}

/// The RPC-style string to sign: `GET&%2F&` and the encoded canonical query.
pub open spec fn string_to_sign(query: Seq<char>) -> Seq<char> {
    "GET&"@ + spec_percent_encode("/"@) + "&"@ + spec_percent_encode(query)
}

/// The parameters of a token request, in sorted order.
pub open spec fn spec_token_params(
    access_key_id: Seq<char>,
    timestamp: Seq<char>,
    nonce: Seq<char>,
) -> Seq<(Seq<char>, Seq<char>)> {
    let keys = token_param_keys();
    let values = token_param_values(access_key_id, nonce, timestamp);
    Seq::new(9, |i: int| (keys[i], values[i]))
}

/// The key of the request signature: the secret and `&`.
pub open spec fn signing_key(access_key_secret: Seq<char>) -> Seq<char> {
    access_key_secret + "&"@
}

/// The query parameters of a signed token request: the request parameters in sorted
/// order, then `Signature`, the Base64 HMAC-SHA1 of the string to sign.
pub open spec fn spec_token_query(
    access_key_id: Seq<char>,
    access_key_secret: Seq<char>,
    timestamp: Seq<char>,
    nonce: Seq<char>,
) -> Seq<(Seq<char>, Seq<char>)> {
    let ps = spec_token_params(access_key_id, timestamp, nonce);
    ps.push(
        (
            "Signature"@,
            spec_base64(
                spec_hmac_sha1(
                    encode_utf8(signing_key(access_key_secret)),
                    encode_utf8(string_to_sign(canonical_query(ps))),
                ),
            ),
        ),
    )
}

/// The nine parameters of a `CreateToken` call, in the sorted order in which they are
/// signed.
pub fn token_params(access_key_id: &str, timestamp: &str, nonce: &str) -> (r: Vec<(String, String)>)
    ensures
        pairs_view(r@) == spec_token_params(access_key_id@, timestamp@, nonce@),
{
    let mut params: Vec<(String, String)> = Vec::new();
    params.push((to_owned_string("AccessKeyId"), to_owned_string(access_key_id)));
    params.push((to_owned_string("Action"), to_owned_string("CreateToken")));
    params.push((to_owned_string("Format"), to_owned_string("JSON")));
    params.push((to_owned_string("RegionId"), to_owned_string("cn-shanghai")));
    params.push((to_owned_string("SignatureMethod"), to_owned_string("HMAC-SHA1")));
    params.push((to_owned_string("SignatureNonce"), to_owned_string(nonce)));
    params.push((to_owned_string("SignatureVersion"), to_owned_string("1.0")));
    params.push((to_owned_string("Timestamp"), to_owned_string(timestamp)));
    params.push((to_owned_string("Version"), to_owned_string("2019-02-28")));
    assert(pairs_view(params@) =~= spec_token_params(access_key_id@, timestamp@, nonce@));
    params
}

/// The string to sign for the parameters: `GET&%2F&` and the percent-encoded canonical
/// query (`k=v` pairs, percent-encoded, joined by `&`).
pub fn token_string_to_sign(params: &Vec<(String, String)>) -> (r: String)
    ensures
        r@ == string_to_sign(canonical_query(pairs_view(params@))),
{
    let ghost ps = pairs_view(params@);
    let mut query = String::new();
    let mut i: usize = 0;
    while i < params.len()
        invariant
            i <= params@.len(),
            ps == pairs_view(params@),
            query@ == canonical_query(ps.take(i as int)),
        decreases params.len() - i,
    {
        assert(ps.take(i + 1).drop_last() =~= ps.take(i as int));
        assert(ps.take(i + 1).last() == ps[i as int]);
        if i > 0 {
            push_str(&mut query, "&");
        }
        let k = percent_encode(params[i].0.as_str());
        let v = percent_encode(params[i].1.as_str());
        push_str(&mut query, k.as_str());
        push_str(&mut query, "=");
        push_str(&mut query, v.as_str());
        proof {
            if i == 0 {
                assert(canonical_query(ps.take(0)) =~= Seq::<char>::empty());
            }
            assert(query@ =~= canonical_query(ps.take(i + 1)));
        }
        i += 1;
    }
    assert(ps.take(params@.len() as int) =~= ps);

    let mut to_sign = String::new();
    push_str(&mut to_sign, "GET&");
    let slash = percent_encode("/");
    push_str(&mut to_sign, slash.as_str());
    push_str(&mut to_sign, "&");
    let encoded_query = percent_encode(query.as_str());
    push_str(&mut to_sign, encoded_query.as_str());
    assert(to_sign@ =~= string_to_sign(query@));
    to_sign
}

/// The parameters followed by `Signature`, the Base64 of the MAC.
pub fn sign_params(params: Vec<(String, String)>, mac: &[u8]) -> (r: Vec<(String, String)>)
    requires
        base64_len(mac@.len()) <= usize::MAX,
    ensures
        pairs_view(r@) == pairs_view(params@).push(("Signature"@, spec_base64(mac@))),
{
    let mut params = params;
    let ghost before = pairs_view(params@);
    let signature = base64_encode(mac);
    params.push((to_owned_string("Signature"), signature));
    assert(pairs_view(params@) =~= before.push(("Signature"@, spec_base64(mac@))));
    params
}

/// The token request's parameters, signed, for the given time stamp and nonce: the nine
/// parameters of a `CreateToken` call in sorted order, then `Signature`, the Base64
/// HMAC-SHA1 of the string to sign under the key `secret&` (an HMAC key of any length is
/// accepted, so signing cannot fail).
pub fn signed_token_query(
    access_key_id: &str,
    access_key_secret: &str,
    timestamp: &str,
    nonce: &str,
) -> (r: Vec<(String, String)>)
    ensures
        pairs_view(r@) == spec_token_query(
            access_key_id@,
            access_key_secret@,
            timestamp@,
            nonce@,
        ),
{
    let params = token_params(access_key_id, timestamp, nonce);
    let to_sign = token_string_to_sign(&params);
    let mut key = to_owned_string(access_key_secret);
    push_str(&mut key, "&");
    let mac = hmac_sha1(key.as_str().as_bytes(), to_sign.as_str().as_bytes()).unwrap();
    sign_params(params, mac.as_slice())
}

/// The shape of a UTC time stamp `YYYY-MM-DDTHH:MM:SSZ`: twenty characters, digits but for
/// the separators '-', 'T', ':' and the closing 'Z'.
pub open spec fn is_utc_time_stamp(t: Seq<char>) -> bool {
    &&& t.len() == 20
    &&& forall|i: int|
        0 <= i < 20 ==> if i == 4 || i == 7 {
            #[trigger] t[i] == '-'
        } else if i == 10 {
            t[i] == 'T'
        } else if i == 13 || i == 16 {
            t[i] == ':'
        } else if i == 19 {
            t[i] == 'Z'
        } else {
            '0' <= t[i] <= '9'
        }
}

/// The first instant of the year 10000 (UTC), in nanoseconds since the epoch.
pub open spec fn year_10000_nanos() -> nat {
    253402300800000000000
}

/// A leap year of the Gregorian calendar.
pub open spec fn is_leap_year(y: int) -> bool {
    (y % 4 == 0 && y % 100 != 0) || y % 400 == 0
}

/// The number of days of the year `y`.
pub open spec fn days_in_year(y: int) -> nat {
    if is_leap_year(y) {
        366
    } else {
        365
    }
}

/// The number of days of month `m` (1 to 12) of the year `y`.
pub open spec fn days_in_month(y: int, m: int) -> nat {
    if m == 2 {
        if is_leap_year(y) {
            29
        } else {
            28
        }
    } else if m == 4 || m == 6 || m == 9 || m == 11 {
        30
    } else {
        31
    }
}

/// The year, and the day within it (from 0), of the day `d` days after 1 January of `y`.
pub open spec fn year_and_day(y: int, d: nat) -> (int, nat)
    decreases d,
{
    if d < days_in_year(y) {
        (y, d)
    } else {
        year_and_day(y + 1, (d - days_in_year(y)) as nat)
    }
}

/// The month, and the day within it (from 0), of the day `d` days after the first of
/// month `m` of the year `y`.
pub open spec fn month_and_day(y: int, m: int, d: nat) -> (int, nat)
    decreases 12 - m,
{
    if m >= 12 || d < days_in_month(y, m) {
        (m, d)
    } else {
        month_and_day(y, m + 1, (d - days_in_month(y, m)) as nat)
    }
}

/// `n` (below 100) in two decimal digits.
pub open spec fn two_digits(n: nat) -> Seq<char> {
    seq![digit_char(n / 10), digit_char(n % 10)]
}

/// `n` (below 10000) in four decimal digits.
pub open spec fn four_digits(n: nat) -> Seq<char> {
    two_digits(n / 100) + two_digits(n % 100)
}

/// The UTC date and time of the instant `nanos` nanoseconds after the epoch (1970-01-01
/// 00:00:00 UTC), written `YYYY-MM-DDTHH:MM:SSZ` (the fraction of a second dropped).
pub open spec fn spec_utc_time_stamp(nanos: nat) -> Seq<char> {
    let secs = nanos / 1_000_000_000;
    let (y, yd) = year_and_day(1970, secs / 86400);
    let (m, md) = month_and_day(y, 1, yd);
    let s = secs % 86400;
    four_digits(y as nat) + seq!['-'] + two_digits(m as nat) + seq!['-'] + two_digits(md + 1)
        + seq!['T'] + two_digits(s / 3600) + seq![':'] + two_digits((s % 3600) / 60) + seq![':']
        + two_digits(s % 60) + seq!['Z']
}

/// Reads the clock once. `SystemTime::now().duration_since(UNIX_EPOCH)` gives the time
/// since the epoch (or that call's error message, for a clock before 1970);
/// `chrono::DateTime::<Utc>::from_timestamp` turns it into the time stamp, formatted as
/// `%Y-%m-%dT%H:%M:%SZ` (or there is an error for a date chrono cannot hold). Gives the
/// time stamp and the nanoseconds since the epoch, both from the one reading. Which time
/// comes back depends on the clock; what is claimed is how the two agree: the time stamp
/// is the UTC date and time of that instant (`from_timestamp` takes the whole seconds and
/// the nanoseconds below them), and for a time after 1970 and before the year 10000
/// chrono writes the year with four digits and every other field with two.
/// Nothing in it panics.
#[verifier::external_body]
fn read_clock() -> (r: Result<(String, u128), String>)
    ensures
        r is Ok && r.unwrap().1 < year_10000_nanos() ==> is_utc_time_stamp(r.unwrap().0@),
        r is Ok && r.unwrap().1 < year_10000_nanos() ==> r.unwrap().0@ == spec_utc_time_stamp(
            r.unwrap().1 as nat,
        ),
{
    let d = std::time::SystemTime::now()
        .duration_since(std::time::UNIX_EPOCH)
        .map_err(|e| e.to_string())?;
    let secs = i64::try_from(d.as_secs()).map_err(|e| e.to_string())?;
    let t = chrono::DateTime::<chrono::Utc>::from_timestamp(secs, d.subsec_nanos())
        .ok_or_else(|| "time stamp out of range".to_string())?;
    Ok((t.format("%Y-%m-%dT%H:%M:%SZ").to_string(), d.as_nanos()))
}

/// The prefix of a signature nonce.
pub open spec fn nonce_prefix() -> Seq<char> {
    "claudio-"@
}

/// The prefix of the error for an unusable system clock.
pub open spec fn clock_error_prefix() -> Seq<char> {
    "系统时间错误: "@
}

/// The signed token request for what the clock gave: with the time stamp and the nonce
/// `claudio-` and the nanoseconds since the epoch; for a clock error, "系统时间错误: " and
/// its message.
pub fn token_query_at(
    access_key_id: &str,
    access_key_secret: &str,
    timestamp: &str,
    nanos: Result<u128, String>,
) -> (r: Result<Vec<(String, String)>, String>)
    ensures
        match nanos {
            Ok(n) => r matches Ok(v) && pairs_view(v@) == spec_token_query(
                access_key_id@,
                access_key_secret@,
                timestamp@,
                nonce_prefix() + spec_decimal(n as nat),
            ),
            Err(e) => r matches Err(m) && m@ == clock_error_prefix() + e@,
        },
{
    let n = match nanos {
        Ok(n) => n,
        Err(e) => {
            let mut msg = to_owned_string("系统时间错误: ");
            push_str(&mut msg, e.as_str());
            return Err(msg);
        },
    };
    let mut nonce = to_owned_string("claudio-");
    push_decimal(&mut nonce, n);
    Ok(signed_token_query(access_key_id, access_key_secret, timestamp, nonce.as_str()))
}

/// The signed token request for now: one reading of the clock gives both the time stamp,
/// the UTC time of that instant, and the nanoseconds of the nonce (see `token_query_at`).
pub fn token_query_now(access_key_id: &str, access_key_secret: &str) -> (r: Result<
    Vec<(String, String)>,
    String,
>)
    ensures
        match r {
            Ok(v) => exists|timestamp: Seq<char>, nanos: nat|
                pairs_view(v@) == spec_token_query(
                    access_key_id@,
                    access_key_secret@,
                    timestamp,
                    nonce_prefix() + spec_decimal(nanos),
                ) && (nanos < year_10000_nanos() ==> is_utc_time_stamp(timestamp)) && (nanos
                    < year_10000_nanos() ==> timestamp == spec_utc_time_stamp(nanos)),
            Err(e) => exists|msg: Seq<char>| e@ == clock_error_prefix() + msg,
        },
{
    match read_clock() {
        Ok((timestamp, nanos)) => {
            let r = token_query_at(access_key_id, access_key_secret, timestamp.as_str(), Ok(nanos));
            assert(r matches Ok(v) && pairs_view(v@) == spec_token_query(
                access_key_id@,
                access_key_secret@,
                timestamp@,
                nonce_prefix() + spec_decimal(nanos as nat),
            ) && (nanos < year_10000_nanos() ==> is_utc_time_stamp(timestamp@)) && (nanos
                < year_10000_nanos() ==> timestamp@ == spec_utc_time_stamp(nanos as nat)));
            r
        },
        Err(e) => {
            let ghost msg = e@;
            let r = token_query_at(access_key_id, access_key_secret, "", Err(e));
            assert(r matches Err(m) && m@ == clock_error_prefix() + msg);
            r
        },
    }
}

/// The token in a `CreateToken` reply: `Token.Id`, or else `Data.Token`.
pub open spec fn spec_extract_token(body: JsonModel) -> Option<Seq<char>> {
    match model_as_str(sub_get(body.get("Token"@), "Id"@)) {
        Some(t) => Some(t),
        None => model_as_str(sub_get(body.get("Data"@), "Token"@)),
    }
}

/// The view of an optional string.
pub open spec fn opt_str_view(o: Option<String>) -> Option<Seq<char>> {
    match o {
        Some(s) => Some(s@),
        None => None,
    }
}

/// The view of an optional JSON value.
pub open spec fn opt_json_view(o: Option<&JsonValue>) -> Option<JsonModel> {
    match o {
        Some(v) => Some(v@),
        None => None,
    }
}

/// The string at `key` of an optional value.
fn str_at(v: Option<&JsonValue>, key: &str) -> (r: Option<String>)
    ensures
        opt_str_view(r) == model_as_str(sub_get(opt_json_view(v), key@)),
{
    match v {
        Some(x) => match x.get(key) {
            Some(y) => match y.as_str() {
                Some(s) => Some(s.clone()),
                None => None,
            },
            None => None,
        },
        None => None,
    }
}

/// The token in a `CreateToken` reply: `Token.Id`, or else `Data.Token`.
pub fn extract_token(body: &JsonValue) -> (r: Option<String>)
    ensures
        opt_str_view(r) == spec_extract_token(body@),
{
    match str_at(body.get("Token"), "Id") {
        Some(t) => Some(t),
        None => str_at(body.get("Data"), "Token"),
    }
}

/// What a token reply comes to: for a failed status, "获取 Token 失败 (status): " and the
/// raw reply; for a reply that is not JSON, "JSON 解析失败: ", the parser's message,
/// " | 原始响应: " and the raw reply; else the token, or "Token 响应格式异常: " and the
/// reply's JSON text when it holds none.
pub open spec fn spec_token_from_reply(
    status_success: bool,
    status: Seq<char>,
    raw: Seq<char>,
    parsed: Result<JsonModel, Seq<char>>,
    body_text: Seq<char>,
) -> Result<Seq<char>, Seq<char>> {
    if !status_success {
        Err("获取 Token 失败 ("@ + status + "): "@ + raw)
    } else {
        match parsed {
            Err(e) => Err("JSON 解析失败: "@ + e + " | 原始响应: "@ + raw),
            Ok(body) => match spec_extract_token(body) {
                Some(t) => Ok(t),
                None => Err("Token 响应格式异常: "@ + body_text),
            },
        }
    }
}

/// The view of a parsed reply (the value, or the parser's message).
pub open spec fn parsed_view(p: Result<JsonValue, String>) -> Result<JsonModel, Seq<char>> {
    match p {
        Ok(v) => Ok(v@),
        Err(e) => Err(e@),
    }
}

/// The view of a textual result.
pub open spec fn result_view(r: Result<String, String>) -> Result<Seq<char>, Seq<char>> {
    match r {
        Ok(s) => Ok(s@),
        Err(e) => Err(e@),
    }
}

/// Reads the token service's reply: `status` is the HTTP status as text, `raw` the reply
/// body, `parsed` that body parsed as JSON (or the parser's message) and `body_text` the
/// parsed value written back as JSON text.
pub fn token_from_reply(
    status_success: bool,
    status: &str,
    raw: &str,
    parsed: Result<JsonValue, String>,
    body_text: &str,
) -> (r: Result<String, String>)
    ensures
        result_view(r) == spec_token_from_reply(
            status_success,
            status@,
            raw@,
            parsed_view(parsed),
            body_text@,
        ),
{
    if !status_success {
        let mut e = to_owned_string("获取 Token 失败 (");
        push_str(&mut e, status);
        push_str(&mut e, "): ");
        push_str(&mut e, raw);
        return Err(e);
    }
    match parsed {
        Err(msg) => {
            let mut e = to_owned_string("JSON 解析失败: ");
            push_str(&mut e, msg.as_str());
            push_str(&mut e, " | 原始响应: ");
            push_str(&mut e, raw);
            Err(e)
        },
        Ok(body) => match extract_token(&body) {
            Some(t) => Ok(t),
            None => {
                let mut e = to_owned_string("Token 响应格式异常: ");
                push_str(&mut e, body_text);
                Err(e)
            },
        },
    }
}

/// The error for missing speech credentials.
pub open spec fn missing_credentials_message() -> Seq<char> {
    "请先设置 ISI AccessKey 和 AppKey"@
}

/// Speech requests need an app key: an empty one is refused.
pub fn check_app_key(app_key: &str) -> (r: Result<(), String>)
    ensures
        r is Err <==> app_key@.len() == 0,
        r matches Err(e) ==> e@ == missing_credentials_message(),
{
    if app_key.is_empty() {
        return Err(to_owned_string("请先设置 ISI AccessKey 和 AppKey"));
    }
    Ok(())
}

/// The synthesis endpoint.
pub fn tts_url() -> (r: String)
    ensures
        r@ == NLS_GATEWAY@ + "/stream/v1/tts"@,
{
    let mut u = to_owned_string(NLS_GATEWAY);
    push_str(&mut u, "/stream/v1/tts");
    u
}

/// The body of a synthesis request.
pub open spec fn spec_tts_body(
    app_key: Seq<char>,
    token: Seq<char>,
    text: Seq<char>,
    voice: Seq<char>,
) -> JsonModel {
    JsonModel::Object(
        seq![
            ("appkey"@, JsonModel::Str(app_key)),
            ("token"@, JsonModel::Str(token)),
            ("text"@, JsonModel::Str(text)),
            ("format"@, JsonModel::Str("wav"@)),
            ("sample_rate"@, JsonModel::Number("16000"@)),
            ("voice"@, JsonModel::Str(spec_sanitize_voice(voice))),
            ("speech_rate"@, JsonModel::Number("100"@)),
        ],
    )
}

/// The body of a synthesis request: WAV at 16 kHz, normal speed, with a voice the service
/// offers.
pub fn tts_request_body(app_key: &str, token: &str, text: &str, voice: &str) -> (r: JsonValue)
    ensures
        r@ == spec_tts_body(app_key@, token@, text@, voice@),
{
    let mut m: Vec<(String, JsonValue)> = Vec::new();
    m.push((to_owned_string("appkey"), JsonValue::string(app_key)));
    m.push((to_owned_string("token"), JsonValue::string(token)));
    m.push((to_owned_string("text"), JsonValue::string(text)));
    m.push((to_owned_string("format"), JsonValue::string("wav")));
    m.push((to_owned_string("sample_rate"), JsonValue::Number(to_owned_string("16000"))));
    m.push((to_owned_string("voice"), JsonValue::string(sanitize_voice(voice))));
    m.push((to_owned_string("speech_rate"), JsonValue::Number(to_owned_string("100"))));
    let r = JsonValue::Object(m);
    assert(members_view(m@) =~= seq![
        ("appkey"@, JsonModel::Str(app_key@)),
        ("token"@, JsonModel::Str(token@)),
        ("text"@, JsonModel::Str(text@)),
        ("format"@, JsonModel::Str("wav"@)),
        ("sample_rate"@, JsonModel::Number("16000"@)),
        ("voice"@, JsonModel::Str(spec_sanitize_voice(voice@))),
        ("speech_rate"@, JsonModel::Number("100"@)),
    ]);
    r
}

/// The synthesized audio as Base64, when the reply succeeded and carries audio;
/// `None` when it is an error.
pub fn tts_audio(status_success: bool, content_type: &str, bytes: &[u8]) -> (r: Option<String>)
    requires
        base64_len(bytes@.len()) <= usize::MAX,
    ensures
        r is Some <==> status_success && spec_contains(content_type@, "audio/"@),
        r matches Some(s) ==> s@ == spec_base64(bytes@),
{
    let is_audio = contains(content_type, "audio/");
    if !status_success || !is_audio {
        return None;
    }
    Some(base64_encode(bytes))
}

/// The detail of a failed synthesis: the reply's JSON `message` when there is one, else
/// the reply's text.
pub fn tts_error_detail(err_text: &str, parsed: Option<&JsonValue>) -> (r: String)
    ensures
        r@ == match model_as_str(sub_get(opt_json_view(parsed), "message"@)) {
            Some(m) => m,
            None => err_text@,
        },
{
    match str_at(parsed, "message") {
        Some(m) => m,
        None => to_owned_string(err_text),
    }
}

/// The error of a failed synthesis: "TTS API 错误 (status): " and its detail.
pub fn tts_error_message(status: &str, err_text: &str, parsed: Option<&JsonValue>) -> (r: String)
    ensures
        r@ == "TTS API 错误 ("@ + status@ + "): "@ + match model_as_str(
            sub_get(opt_json_view(parsed), "message"@),
        ) {
            Some(m) => m,
            None => err_text@,
        },
{
    let detail = tts_error_detail(err_text, parsed);
    let mut r = to_owned_string("TTS API 错误 (");
    push_str(&mut r, status);
    push_str(&mut r, "): ");
    push_str(&mut r, detail.as_str());
    r
}

/// The recognition endpoint for an app key.
pub fn asr_url(app_key: &str) -> (r: String)
    ensures
        r@ == NLS_GATEWAY@ + "/stream/v1/asr?appkey="@ + app_key@ + "&format=wav"@,
{
    let mut u = to_owned_string(NLS_GATEWAY);
    push_str(&mut u, "/stream/v1/asr?appkey=");
    push_str(&mut u, app_key);
    push_str(&mut u, "&format=wav");
    u
}

/// The message of a failed recognition: the reply's `error_message`, or else its
/// `message`, when that member is a string; otherwise "未知错误".
pub open spec fn spec_asr_error_message(body: JsonModel) -> Seq<char> {
    let m = match body.get("error_message"@) {
        Some(x) => Some(x),
        None => body.get("message"@),
    };
    match model_as_str(m) {
        Some(s) => s,
        None => "未知错误"@,
    }
}

/// The message of a failed recognition.
pub fn asr_error_message(body: &JsonValue) -> (r: String)
    ensures
        r@ == spec_asr_error_message(body@),
{
    let m = match body.get("error_message") {
        Some(x) => Some(x),
        None => body.get("message"),
    };
    match m {
        Some(x) => match x.as_str() {
            Some(s) => s.clone(),
            None => to_owned_string("未知错误"),
        },
        None => to_owned_string("未知错误"),
    }
}

/// A non-empty string, or nothing.
pub open spec fn non_empty(s: Option<Seq<char>>) -> Option<Seq<char>> {
    match s {
        Some(t) => if t.len() > 0 {
            Some(t)
        } else {
            None
        },
        None => None,
    }
}

/// The recognized text of a reply: its non-empty `result`, or else the non-empty
/// `payload.result`.
pub open spec fn spec_asr_result_text(body: JsonModel) -> Option<Seq<char>> {
    match non_empty(model_as_str(body.get("result"@))) {
        Some(t) => Some(t),
        None => non_empty(model_as_str(sub_get(body.get("payload"@), "result"@))),
    }
}

/// The recognized text of a reply (flat `result` or nested `payload.result`).
pub fn asr_result_text(body: &JsonValue) -> (r: Option<String>)
    ensures
        opt_str_view(r) == spec_asr_result_text(body@),
{
    let direct = match body.get("result") {
        Some(x) => match x.as_str() {
            Some(s) => if !s.as_str().is_empty() {
                Some(s.clone())
            } else {
                None
            },
            None => None,
        },
        None => None,
    };
    match direct {
        Some(t) => Some(t),
        None => match str_at(body.get("payload"), "result") {
            Some(t) => if !t.as_str().is_empty() {
                Some(t)
            } else {
                None
            },
            None => None,
        },
    }
}

/// What a recognition reply comes to: for a failed status, "ASR API 错误: " and the
/// reply's error message; else the recognized text, or "ASR 响应为空或未找到识别结果: " and
/// the reply's JSON text when there is none.
pub open spec fn spec_asr_outcome(
    status_success: bool,
    body: JsonModel,
    body_text: Seq<char>,
) -> Result<Seq<char>, Seq<char>> {
    if !status_success {
        Err("ASR API 错误: "@ + spec_asr_error_message(body))
    } else {
        match spec_asr_result_text(body) {
            Some(t) => Ok(t),
            None => Err("ASR 响应为空或未找到识别结果: "@ + body_text),
        }
    }
}

/// Reads the recognition service's reply: `body` is the parsed reply and `body_text` it
/// written back as JSON text.
pub fn asr_outcome(status_success: bool, body: &JsonValue, body_text: &str) -> (r: Result<
    String,
    String,
>)
    ensures
        result_view(r) == spec_asr_outcome(status_success, body@, body_text@),
{
    if !status_success {
        let m = asr_error_message(body);
        let mut e = to_owned_string("ASR API 错误: ");
        push_str(&mut e, m.as_str());
        return Err(e);
    }
    match asr_result_text(body) {
        Some(t) => Ok(t),
        None => {
            let mut e = to_owned_string("ASR 响应为空或未找到识别结果: ");
            push_str(&mut e, body_text);
            Err(e)
        },
    }
}

/// Law: the synthesis request carries the configured app key as "appkey", the token from
/// the token service as "token", the text to speak as "text" and a voice the service
/// offers as "voice", and asks for WAV at 16 kHz at normal speed.
pub proof fn law_tts_body_members(
    app_key: Seq<char>,
    token: Seq<char>,
    text: Seq<char>,
    voice: Seq<char>,
)
    ensures
        ({
            let b = spec_tts_body(app_key, token, text, voice);
            &&& b.get("appkey"@) == Some(JsonModel::Str(app_key))
            &&& b.get("token"@) == Some(JsonModel::Str(token))
            &&& b.get("text"@) == Some(JsonModel::Str(text))
            &&& b.get("voice"@) == Some(JsonModel::Str(spec_sanitize_voice(voice)))
            &&& b.get("format"@) == Some(JsonModel::Str("wav"@))
            &&& b.get("sample_rate"@) == Some(JsonModel::Number("16000"@))
            &&& b.get("speech_rate"@) == Some(JsonModel::Number("100"@))
        }),
{
    reveal_strlit("appkey");
    reveal_strlit("token");
    reveal_strlit("text");
    reveal_strlit("format");
    reveal_strlit("sample_rate");
    reveal_strlit("voice");
    reveal_strlit("speech_rate");
    let b = spec_tts_body(app_key, token, text, voice);
    let fs = seq![
        ("appkey"@, JsonModel::Str(app_key)),
        ("token"@, JsonModel::Str(token)),
        ("text"@, JsonModel::Str(text)),
        ("format"@, JsonModel::Str("wav"@)),
        ("sample_rate"@, JsonModel::Number("16000"@)),
        ("voice"@, JsonModel::Str(spec_sanitize_voice(voice))),
        ("speech_rate"@, JsonModel::Number("100"@)),
    ];
    assert(b == JsonModel::Object(fs));
    let k = seq!["appkey"@, "token"@, "text"@, "format"@, "sample_rate"@, "voice"@, "speech_rate"@];
    assert forall|i: int, j: int| 0 <= i < 7 && 0 <= j < 7 && i != j implies k[i] != k[j] by {
        assert(k[i][0] != k[j][0] || k[i].len() != k[j].len() || k[i][1] != k[j][1]);
    }
    assert(fs.drop_first().drop_first().drop_first().drop_first().drop_first().drop_first()
        .drop_first().len() == 0);
    reveal_with_fuel(member_value, 8);
}

/// Law: a token request signed for a clock reading carries that reading twice: its
/// `Timestamp` parameter is the UTC time of the instant and its `SignatureNonce` is
/// `claudio-` and the nanoseconds since the epoch; `AccessKeyId` is the key id, and the
/// request ends with `Signature`, the Base64 HMAC-SHA1 of the string to sign for the
/// nine parameters before it under the key `secret&`.
pub proof fn law_token_request_from_one_reading(
    access_key_id: Seq<char>,
    access_key_secret: Seq<char>,
    nanos: nat,
)
    ensures
        ({
            let q = spec_token_query(
                access_key_id,
                access_key_secret,
                spec_utc_time_stamp(nanos),
                nonce_prefix() + spec_decimal(nanos),
            );
            &&& q.len() == 10
            &&& q[0] == ("AccessKeyId"@, access_key_id)
            &&& q[5] == ("SignatureNonce"@, "claudio-"@ + spec_decimal(nanos))
            &&& q[7] == ("Timestamp"@, spec_utc_time_stamp(nanos))
            &&& q[9] == (
                "Signature"@,
                spec_base64(
                    spec_hmac_sha1(
                        encode_utf8(access_key_secret + "&"@),
                        encode_utf8(string_to_sign(canonical_query(q.take(9)))),
                    ),
                ),
            )
        }),
{
    let ps = spec_token_params(
        access_key_id,
        spec_utc_time_stamp(nanos),
        nonce_prefix() + spec_decimal(nanos),
    );
    let q = spec_token_query(
        access_key_id,
        access_key_secret,
        spec_utc_time_stamp(nanos),
        nonce_prefix() + spec_decimal(nanos),
    );
    assert(q.take(9) =~= ps);
}

/// Law: two clock readings within the same UTC day give time stamps with the same date
/// (`YYYY-MM-DD`), and two readings whole days apart give the same time of day
/// (`HH:MM:SS`).
pub proof fn law_utc_time_stamp_days(n1: nat, n2: nat)
    ensures
        n1 / 86_400_000_000_000 == n2 / 86_400_000_000_000 ==> spec_utc_time_stamp(n1).subrange(
            0,
            10,
        ) == spec_utc_time_stamp(n2).subrange(0, 10),
        (n1 / 1_000_000_000) % 86400 == (n2 / 1_000_000_000) % 86400 ==> spec_utc_time_stamp(
            n1,
        ).subrange(11, 19) == spec_utc_time_stamp(n2).subrange(11, 19),
{
    let s1 = n1 / 1_000_000_000;
    let s2 = n2 / 1_000_000_000;
    assert(s1 / 86400 == n1 / 86_400_000_000_000) by {
        vstd::arithmetic::div_mod::lemma_div_denominator(n1 as int, 1_000_000_000, 86400);
    }
    assert(s2 / 86400 == n2 / 86_400_000_000_000) by {
        vstd::arithmetic::div_mod::lemma_div_denominator(n2 as int, 1_000_000_000, 86400);
    }
    let t1 = spec_utc_time_stamp(n1);
    let t2 = spec_utc_time_stamp(n2);
    let (y1, d1) = year_and_day(1970, s1 / 86400);
    let (m1, e1) = month_and_day(y1, 1, d1);
    let r1 = s1 % 86400;
    let (y2, d2) = year_and_day(1970, s2 / 86400);
    let (m2, e2) = month_and_day(y2, 1, d2);
    let r2 = s2 % 86400;
    let date1 = four_digits(y1 as nat) + seq!['-'] + two_digits(m1 as nat) + seq!['-']
        + two_digits(e1 + 1);
    let date2 = four_digits(y2 as nat) + seq!['-'] + two_digits(m2 as nat) + seq!['-']
        + two_digits(e2 + 1);
    let time1 = two_digits(r1 / 3600) + seq![':'] + two_digits((r1 % 3600) / 60) + seq![':']
        + two_digits(r1 % 60);
    let time2 = two_digits(r2 / 3600) + seq![':'] + two_digits((r2 % 3600) / 60) + seq![':']
        + two_digits(r2 % 60);
    assert(t1 =~= date1 + seq!['T'] + time1 + seq!['Z']);
    assert(t2 =~= date2 + seq!['T'] + time2 + seq!['Z']);
    assert(date1.len() == 10 && time1.len() == 8);
    assert(t1.subrange(0, 10) =~= date1);
    assert(t2.subrange(0, 10) =~= date2);
    assert(t1.subrange(11, 19) =~= time1);
    assert(t2.subrange(11, 19) =~= time2);
}

/// Law: making a voice safe twice is making it safe once (the fallback voice is safe).
pub proof fn law_sanitize_voice_idempotent(voice: Seq<char>)
    ensures
        spec_sanitize_voice(spec_sanitize_voice(voice)) == spec_sanitize_voice(voice),
{
    reveal_strlit("zhixiaoxia");
    reveal_strlit("long");
    reveal_strlit("cosyvoice");
    let f = fallback_voice();
    assert(f[0] == 'z');
    assert(!spec_starts_with(f, "long"@)) by {
        assert(f.subrange(0, 4)[0] != "long"@[0]);
    }
    assert(!spec_starts_with(f, "cosyvoice"@)) by {
        assert(f.subrange(0, 9)[0] != "cosyvoice"@[0]);
    }
}

/// Law: standard Base64 with padding has four characters for every started group of
/// three bytes.
pub proof fn law_base64_length(b: Seq<u8>)
    ensures
        spec_base64(b).len() == base64_len(b.len()),
    decreases b.len(),
{
    if b.len() >= 3 {
        law_base64_length(b.skip(3));
    }
}

} // verus!
