//! The request bodies and URLs the client sends, built and proved exactly.
//!
//! The service takes JSON request bodies with a `method` field. The only
//! parts that vary are strings (a username, a password, a device id), so each
//! body is specified character for character, with user-supplied strings
//! embedded through a verified JSON string escape.

use vstd::prelude::*;
use vstd::string::{StrSliceExecFns, StringExecFns};

verus! {

/// The hexadecimal digit for a value below 16, lower case.
pub open spec fn hex_digit(n: u32) -> char {
    if n == 0 {
        '0'
    } else if n == 1 {
        '1'
    } else if n == 2 {
        '2'
    } else if n == 3 {
        '3'
    } else if n == 4 {
        '4'
    } else if n == 5 {
        '5'
    } else if n == 6 {
        '6'
    } else if n == 7 {
        '7'
    } else if n == 8 {
        '8'
    } else if n == 9 {
        '9'
    } else if n == 10 {
        'a'
    } else if n == 11 {
        'b'
    } else if n == 12 {
        'c'
    } else if n == 13 {
        'd'
    } else if n == 14 {
        'e'
    } else {
        'f'
    }
}

fn hex_digit_exec(n: u32) -> (c: char)
    requires
        n < 16,
    ensures
        c == hex_digit(n),
{
    if n == 0 {
        '0'
    } else if n == 1 {
        '1'
    } else if n == 2 {
        '2'
    } else if n == 3 {
        '3'
    } else if n == 4 {
        '4'
    } else if n == 5 {
        '5'
    } else if n == 6 {
        '6'
    } else if n == 7 {
        '7'
    } else if n == 8 {
        '8'
    } else if n == 9 {
        '9'
    } else if n == 10 {
        'a'
    } else if n == 11 {
        'b'
    } else if n == 12 {
        'c'
    } else if n == 13 {
        'd'
    } else if n == 14 {
        'e'
    } else {
        'f'
    }
}

/// How one character appears inside a JSON string literal: the quote and the
/// backslash get a backslash escape, control characters become `\u00XX`, and
/// everything else stands as itself.
pub open spec fn esc_char(c: char) -> Seq<char> {
    if c == '"' {
        seq!['\\', '"']
    } else if c == '\\' {
        seq!['\\', '\\']
    } else if (c as u32) < 32 {
        seq!['\\', 'u', '0', '0', hex_digit((c as u32) / 16), hex_digit((c as u32) % 16)]
    } else {
        seq![c]
    }
}

/// A whole string escaped for embedding inside a JSON string literal.
pub open spec fn json_escaped(s: Seq<char>) -> Seq<char>
    decreases s.len(),
{
    if s.len() == 0 {
        Seq::<char>::empty()
    } else {
        json_escaped(s.drop_last()) + esc_char(s.last())
    }
}

/// Relies on String::push: appends exactly the given character.
#[verifier::external_body]
fn push_char(s: &mut String, c: char)
    ensures
        final(s)@ == old(s)@.push(c),
{
    s.push(c)
}

/// Escape a string for embedding inside a JSON string literal.
pub fn json_escape(s: &str) -> (r: String)
    ensures
        r@ == json_escaped(s@),
{
    let n = s.unicode_len();
    let mut out = String::new();
    let mut i: usize = 0;
    while i < n
        invariant
            n == s@.len(),
            i <= n,
            out@ == json_escaped(s@.take(i as int)),
        decreases n - i,
    {
        let c = s.get_char(i);
        if c == '"' {
            out.append("\\\"");
            proof {
                reveal_strlit("\\\"");
            }
        } else if c == '\\' {
            out.append("\\\\");
            proof {
                reveal_strlit("\\\\");
            }
        } else if (c as u32) < 32 {
            out.append("\\u00");
            let code = c as u32;
            let high = hex_digit_exec(code / 16);
            let low = hex_digit_exec(code % 16);
            push_char(&mut out, high);
            push_char(&mut out, low);
            proof {
                reveal_strlit("\\u00");
            }
        } else {
            push_char(&mut out, c);
        }
        proof {
            assert(s@.take((i + 1) as int).drop_last() =~= s@.take(i as int));
            assert(out@ =~= json_escaped(s@.take((i + 1) as int)));
        }
        i = i + 1;
    }
    proof {
        assert(s@.take(n as int) =~= s@);
    }
    out
}

/// The text of the login request for the given credentials: the `login`
/// method with the app identity, the cloud username and password, and an
/// empty terminal identifier.
pub open spec fn login_request_text(username: Seq<char>, password: Seq<char>) -> Seq<char> {
    "{\"method\":\"login\",\"params\":{\"appType\":\"\",\"cloudUserName\":\""@ + json_escaped(
        username,
    ) + "\",\"cloudPassword\":\""@ + json_escaped(password) + "\",\"terminalUUID\":\"\"}}"@
}

/// Build the login request body for the given credentials.
pub fn login_request_body(username: &str, password: &str) -> (r: String)
    ensures
        r@ == login_request_text(username@, password@),
{
    let u = json_escape(username);
    let p = json_escape(password);
    String::from_str("{\"method\":\"login\",\"params\":{\"appType\":\"\",\"cloudUserName\":\"")
        .concat(u.as_str()).concat("\",\"cloudPassword\":\"").concat(p.as_str()).concat(
        "\",\"terminalUUID\":\"\"}}",
    )
}

/// The text of the device-list request.
pub open spec fn device_list_request_text() -> Seq<char> {
    "{\"method\":\"getDeviceList\"}"@
}

/// Build the request that asks for the account's registered devices.
pub fn device_list_request_body() -> (r: String)
    ensures
        r@ == device_list_request_text(),
{
    String::from_str("{\"method\":\"getDeviceList\"}")
}

/// The text of the telemetry request for one device: a `passthrough`
/// envelope whose embedded request asks the device for its system info and
/// its real-time meter readings.
pub open spec fn data_request_text(device_id: Seq<char>) -> Seq<char> {
    "{\"method\":\"passthrough\",\"params\":{\"deviceId\":\""@ + json_escaped(device_id)
        + "\",\"requestData\":\"{\\\"system\\\":{\\\"get_sysinfo\\\":null},\\\"emeter\\\":{\\\"get_realtime\\\":null}}\"}}"@
}

/// Build the telemetry request body for one device id.
pub fn data_request_body(device_id: &str) -> (r: String)
    ensures
        r@ == data_request_text(device_id@),
{
    let d = json_escape(device_id);
    String::from_str("{\"method\":\"passthrough\",\"params\":{\"deviceId\":\"").concat(
        d.as_str(),
    ).concat(
        "\",\"requestData\":\"{\\\"system\\\":{\\\"get_sysinfo\\\":null},\\\"emeter\\\":{\\\"get_realtime\\\":null}}\"}}",
    )
}

/// The authentication endpoint.
pub open spec fn login_url_text() -> Seq<char> {
    "https://wap.tplinkcloud.com/"@
}

/// The URL that login requests are posted to.
pub fn login_url() -> (r: String)
    ensures
        r@ == login_url_text(),
{
    String::from_str("https://wap.tplinkcloud.com/")
}

/// The URL that an authenticated request is posted to: the endpoint with the
/// session token as its query parameter.
pub open spec fn api_url_text(token: Seq<char>) -> Seq<char> {
    "https://wap.tplinkcloud.com//?token="@ + token
}

/// Build the URL for an authenticated request carrying the given token.
pub fn api_url(token: &str) -> (r: String)
    ensures
        r@ == api_url_text(token@),
{
    String::from_str("https://wap.tplinkcloud.com//?token=").concat(token)
}

} // verus!
