//! Screen capture payloads, model detection, browser URLs and the
//! connection test's verdicts.

use vstd::prelude::*;
use vstd::utf8::{encode_scalar, encode_utf8};
use base64::Engine;
use crate::text::{lemma_decimal_digits, lemma_rfind_at, lemma_trim_decimal, law_parse_decimal,
    is_digit, contains, contains_chars, decimal, lines, push_chars, parse_unsigned, parse_unsigned_chars,
    push_str, rsplit_once, rfind_chars, slice_of, split_nth, split_nth_chars, starts_with,
    starts_with_chars, str_eq, to_chars, from_chars, to_lowercase, trim, trim_chars,
    unicode_lowercase, occurs_at};
use crate::uitars::{first_line_starting, find_line_starting};
use crate::prompt::{http_error, http_error_text, opt_view};

verus! {

// ── Model detection ──────────────────────────────────────────────────────────

/// A lower-cased model name names a UI-TARS model.
pub open spec fn names_uitars(lowered: Seq<char>) -> bool {
    contains(lowered, "ui-tars"@) || contains(lowered, "uitars"@)
}

/// Whether an already lower-cased model name names a UI-TARS model.
pub fn lowered_names_uitars(lowered: &str) -> (b: bool)
    ensures
        b == names_uitars(lowered@),
        contains(lowered@, "ui-tars"@) ==> b,
        contains(lowered@, "uitars"@) ==> b,
        b ==> contains(lowered@, "ui-tars"@) || contains(lowered@, "uitars"@),
{
    let cs = to_chars(lowered);
    contains_chars(cs.as_slice(), to_chars("ui-tars").as_slice()) || contains_chars(
        cs.as_slice(),
        to_chars("uitars").as_slice(),
    )
}

/// Whether `model` is a UI-TARS model (which speaks `Thought:`/`Action:`).
pub fn is_uitars_model(model: &str) -> (b: bool)
    ensures
        b == names_uitars(unicode_lowercase(model@)),
        contains(unicode_lowercase(model@), "ui-tars"@) ==> b,
        contains(unicode_lowercase(model@), "uitars"@) ==> b,
        b ==> contains(unicode_lowercase(model@), "ui-tars"@) || contains(
            unicode_lowercase(model@),
            "uitars"@,
        ),
{
    let m = to_lowercase(model);
    lowered_names_uitars(m.as_str())
}

/// A lower-cased model name names a reasoning model, which thinks at length
/// before it answers.
pub open spec fn names_reasoning(lowered: Seq<char>) -> bool {
    ||| contains(lowered, "qwen3"@)
    ||| contains(lowered, "deepseek-r"@)
    ||| contains(lowered, "o1"@)
    ||| contains(lowered, "o3"@)
    ||| contains(lowered, "o4"@)
    ||| contains(lowered, "r1"@)
    ||| contains(lowered, "r2"@)
    ||| contains(lowered, "qwq"@)
}

/// Whether an already lower-cased model name names a reasoning model.
pub fn lowered_names_reasoning(lowered: &str) -> (b: bool)
    ensures
        b == names_reasoning(lowered@),
        contains(lowered@, "qwen3"@) ==> b,
        contains(lowered@, "deepseek-r"@) ==> b,
        contains(lowered@, "o1"@) ==> b,
        contains(lowered@, "o3"@) ==> b,
        contains(lowered@, "o4"@) ==> b,
        contains(lowered@, "r1"@) ==> b,
        contains(lowered@, "r2"@) ==> b,
        contains(lowered@, "qwq"@) ==> b,
        b ==> contains(lowered@, "qwen3"@) || contains(lowered@, "deepseek-r"@) || contains(lowered@, "o1"@) || contains(lowered@, "o3"@) || contains(lowered@, "o4"@) || contains(lowered@, "r1"@) || contains(lowered@, "r2"@) || contains(lowered@, "qwq"@),
{
    let cs = to_chars(lowered);
    let c = cs.as_slice();
    contains_chars(c, to_chars("qwen3").as_slice()) || contains_chars(
        c,
        to_chars("deepseek-r").as_slice(),
    ) || contains_chars(c, to_chars("o1").as_slice()) || contains_chars(
        c,
        to_chars("o3").as_slice(),
    ) || contains_chars(c, to_chars("o4").as_slice()) || contains_chars(
        c,
        to_chars("r1").as_slice(),
    ) || contains_chars(c, to_chars("r2").as_slice()) || contains_chars(
        c,
        to_chars("qwq").as_slice(),
    )
}

/// Whether `model` is a reasoning model (which needs a large token budget).
pub fn is_reasoning_model(model: &str) -> (b: bool)
    ensures
        b == names_reasoning(unicode_lowercase(model@)),
        contains(unicode_lowercase(model@), "qwen3"@) ==> b,
        contains(unicode_lowercase(model@), "deepseek-r"@) ==> b,
        contains(unicode_lowercase(model@), "o1"@) ==> b,
        contains(unicode_lowercase(model@), "o3"@) ==> b,
        contains(unicode_lowercase(model@), "o4"@) ==> b,
        contains(unicode_lowercase(model@), "r1"@) ==> b,
        contains(unicode_lowercase(model@), "r2"@) ==> b,
        contains(unicode_lowercase(model@), "qwq"@) ==> b,
        b ==> contains(unicode_lowercase(model@), "qwen3"@) || contains(unicode_lowercase(model@), "deepseek-r"@) || contains(unicode_lowercase(model@), "o1"@) || contains(unicode_lowercase(model@), "o3"@) || contains(unicode_lowercase(model@), "o4"@) || contains(unicode_lowercase(model@), "r1"@) || contains(unicode_lowercase(model@), "r2"@) || contains(unicode_lowercase(model@), "qwq"@),
{
    let m = to_lowercase(model);
    lowered_names_reasoning(m.as_str())
}

/// Every name the documentation lists marks a reasoning model: a lower-cased
/// model name containing `qwen3`, `deepseek-r`, `o1`, `o3`, `o4`, `r1`, `r2`
/// or `qwq` is one, and no other name is.
pub proof fn law_listed_names_are_reasoning(l: Seq<char>)
    ensures
        contains(l, "qwen3"@) ==> names_reasoning(l),
        contains(l, "deepseek-r"@) ==> names_reasoning(l),
        contains(l, "o1"@) ==> names_reasoning(l),
        contains(l, "o3"@) ==> names_reasoning(l),
        contains(l, "o4"@) ==> names_reasoning(l),
        contains(l, "r1"@) ==> names_reasoning(l),
        contains(l, "r2"@) ==> names_reasoning(l),
        contains(l, "qwq"@) ==> names_reasoning(l),
        names_reasoning(l) ==> contains(l, "qwen3"@) || contains(l, "deepseek-r"@) || contains(l, "o1"@) || contains(l, "o3"@) || contains(l, "o4"@) || contains(l, "r1"@) || contains(l, "r2"@) || contains(l, "qwq"@),
{
}

/// A lower-cased name containing `ui-tars` or `uitars` names a UI-TARS model,
/// and no other name does.
pub proof fn law_uitars_names(l: Seq<char>)
    ensures
        contains(l, "ui-tars"@) ==> names_uitars(l),
        contains(l, "uitars"@) ==> names_uitars(l),
        names_uitars(l) ==> contains(l, "ui-tars"@) || contains(l, "uitars"@),
{
}

// ── Screenshot payload ───────────────────────────────────────────────────────

/// The symbol of a 6-bit value in the standard Base64 alphabet.
pub open spec fn b64_symbol(v: int) -> char {
    if v < 26 {
        (65 + v) as char
    } else if v < 52 {
        (97 + v - 26) as char
    } else if v < 62 {
        (48 + v - 52) as char
    } else if v == 62 {
        '+'
    } else {
        '/'
    }
}

/// Standard Base64 with `=` padding (RFC 4648, section 4).
pub open spec fn base64_standard(b: Seq<u8>) -> Seq<char>
    decreases b.len(),
{
    if b.len() == 0 {
        seq![]
    } else if b.len() == 1 {
        seq![b64_symbol(b[0] as int / 4), b64_symbol((b[0] as int % 4) * 16), '=', '=']
    } else if b.len() == 2 {
        seq![
            b64_symbol(b[0] as int / 4),
            b64_symbol((b[0] as int % 4) * 16 + b[1] as int / 16),
            b64_symbol((b[1] as int % 16) * 4),
            '=',
        ]
    } else {
        seq![
            b64_symbol(b[0] as int / 4),
            b64_symbol((b[0] as int % 4) * 16 + b[1] as int / 16),
            b64_symbol((b[1] as int % 16) * 4 + b[2] as int / 64),
            b64_symbol(b[2] as int % 64),
        ] + base64_standard(b.skip(3))
    }
}

/// `Engine::encode` of `base64::engine::general_purpose::STANDARD`: the
/// contract states the standard alphabet with padding; the call panics only
/// when the encoded length overflows `usize`, which `requires` leaves out.
#[verifier::external_body]
fn encode_base64(bytes: &[u8]) -> (s: String)
    requires
        (bytes@.len() + 2) / 3 * 4 <= usize::MAX,
    ensures
        s@ == base64_standard(bytes@),
{
    base64::engine::general_purpose::STANDARD.encode(bytes)
}

/// The value of the first line of `output` that starts (after white space)
/// with `key`: the text after its first `:`, trimmed, read as a `u32`.
pub open spec fn sips_dim(output: Seq<char>, key: Seq<char>) -> Option<nat> {
    match first_line_starting(lines(output), key) {
        Some(l) => match split_nth(l, seq![':'], 1) {
            Some(v) => parse_unsigned(trim(v), u32::MAX as nat),
            None => None,
        },
        None => None,
    }
}

/// Reads a pixel dimension from `sips -g` output.
pub fn parse_sips_dim(output: &str, key: &str) -> (r: Option<u32>)
    ensures
        match r {
            Some(v) => sips_dim(output@, key@) == Some(v as nat),
            None => sips_dim(output@, key@) is None,
        },
{
    let cs = to_chars(output);
    let ks = to_chars(key);
    let colon = [':'];
    assert(colon@ =~= seq![':']);
    let line = match find_line_starting(cs.as_slice(), ks.as_slice()) {
        Some(l) => l,
        None => return None,
    };
    let v = match split_nth_chars(line.as_slice(), colon.as_slice(), 1) {
        Some(v) => v,
        None => return None,
    };
    let t = trim_chars(v.as_slice());
    match parse_unsigned_chars(t.as_slice(), u32::MAX as u64) {
        Some(n) => Some(n as u32),
        None => None,
    }
}

/// The payload sent for a screenshot: the PNG in Base64 and its pixel size as
/// `sips` reports it, the logical size where `sips` says nothing.
pub fn screenshot_payload(png: &[u8], sips_info: &str, logical_w: u32, logical_h: u32) -> (r: (
    String,
    u32,
    u32,
))
    requires
        (png@.len() + 2) / 3 * 4 <= usize::MAX,
    ensures
        r.0@ == base64_standard(png@),
        r.1 == (match sips_dim(sips_info@, "pixelWidth"@) {
            Some(w) => w,
            None => logical_w as nat,
        }),
        r.2 == (match sips_dim(sips_info@, "pixelHeight"@) {
            Some(h) => h,
            None => logical_h as nat,
        }),
{
    let w = match parse_sips_dim(sips_info, "pixelWidth") {
        Some(w) => w,
        None => logical_w,
    };
    let h = match parse_sips_dim(sips_info, "pixelHeight") {
        Some(h) => h,
        None => logical_h,
    };
    (encode_base64(png), w, h)
}

// ── Browser URL ──────────────────────────────────────────────────────────────

/// AppleScript asking Brave for the active tab's URL.
pub const BRAVE_SCRIPT: &'static str = "tell application \"Brave Browser\" to return URL of active tab of front window";
/// AppleScript asking Chrome for the active tab's URL.
pub const CHROME_SCRIPT: &'static str = "tell application \"Google Chrome\" to return URL of active tab of front window";
/// AppleScript asking Safari for the current tab's URL.
pub const SAFARI_SCRIPT: &'static str = "tell application \"Safari\" to return URL of current tab of front window";
/// AppleScript asking Arc for the active tab's URL.
pub const ARC_SCRIPT: &'static str = "tell application \"Arc\" to return URL of active tab of front window";

/// The script that reads the URL from a browser, by application name.
pub open spec fn url_script(app: Seq<char>) -> Option<Seq<char>> {
    if app == "Brave Browser"@ {
        Some(BRAVE_SCRIPT@)
    } else if app == "Google Chrome"@ || app == "Chromium"@ || app == "Chrome"@ {
        Some(CHROME_SCRIPT@)
    } else if app == "Safari"@ || app == "Safari Technology Preview"@ {
        Some(SAFARI_SCRIPT@)
    } else if app == "Arc"@ {
        Some(ARC_SCRIPT@)
    } else {
        None
    }
}

/// Computes `url_script`.
pub fn browser_url_script(app: &str) -> (r: Option<&'static str>)
    ensures
        match r {
            Some(s) => url_script(app@) == Some(s@),
            None => url_script(app@) is None,
        },
{
    if str_eq(app, "Brave Browser") {
        Some(BRAVE_SCRIPT)
    } else if str_eq(app, "Google Chrome") || str_eq(app, "Chromium") || str_eq(app, "Chrome") {
        Some(CHROME_SCRIPT)
    } else if str_eq(app, "Safari") || str_eq(app, "Safari Technology Preview") {
        Some(SAFARI_SCRIPT)
    } else if str_eq(app, "Arc") {
        Some(ARC_SCRIPT)
    } else {
        None
    }
}

/// The URL in the script's output: the trimmed text, unless it is empty or
/// an error message.
pub open spec fn url_from_output(out: Seq<char>) -> Option<Seq<char>> {
    let url = trim(out);
    if url.len() == 0 || starts_with(url, "Error"@) {
        None
    } else {
        Some(url)
    }
}

/// Computes `url_from_output`.
pub fn browser_url_from_output(out: &str) -> (r: Option<String>)
    ensures
        match r {
            Some(u) => url_from_output(out@) == Some(u@),
            None => url_from_output(out@) is None,
        },
{
    let cs = to_chars(out);
    let url = trim_chars(cs.as_slice());
    if url.len() == 0 || starts_with_chars(url.as_slice(), to_chars("Error").as_slice()) {
        None
    } else {
        Some(from_chars(url.as_slice()))
    }
}

// ── Connection test ──────────────────────────────────────────────────────────

/// The status line of curl's output (written last by `-w "\n%{http_code}"`):
/// the text after the last newline, or the whole output trimmed.
pub open spec fn status_text(raw: Seq<char>) -> Seq<char> {
    match rsplit_once(raw, seq!['\n']) {
        Some((_, s)) => s,
        None => trim(raw),
    }
}

/// The HTTP status of curl's output; 0 when it cannot be read.
pub open spec fn status_code(raw: Seq<char>) -> nat {
    match parse_unsigned(trim(status_text(raw)), u16::MAX as nat) {
        Some(c) => c,
        None => 0,
    }
}

/// How many bytes of curl's error output are shown.
pub const DETAIL_BYTES: usize = 80;

/// The number of bytes a character takes in UTF-8.
pub open spec fn utf8_width(c: char) -> nat {
    encode_scalar(c as u32).len()
}

/// How many leading characters of `d` fit, in UTF-8, into `budget` bytes.
pub open spec fn chars_within(d: Seq<char>, budget: int) -> nat
    decreases d.len(),
{
    if d.len() == 0 {
        0
    } else if utf8_width(d[0]) <= budget {
        1 + chars_within(d.drop_first(), budget - utf8_width(d[0]))
    } else {
        0
    }
}

/// The shown part of an error text: its longest prefix of whole characters
/// whose UTF-8 encoding takes at most `DETAIL_BYTES` bytes.
pub open spec fn detail_head(detail: Seq<char>) -> Seq<char> {
    detail.take(chars_within(detail, DETAIL_BYTES as int) as int)
}

/// Computes `utf8_width`.
fn char_width(c: char) -> (n: usize)
    ensures
        n == utf8_width(c),
{
    proof {
        vstd::utf8::char_is_scalar(c);
    }
    let u = c as u32;
    if u <= 0x7F {
        1
    } else if u <= 0x7FF {
        2
    } else if u <= 0xFFFF {
        3
    } else {
        4
    }
}

/// Computes `detail_head`.
fn detail_head_chars(d: &[char]) -> (r: Vec<char>)
    ensures
        r@ == detail_head(d@),
{
    let mut i: usize = 0;
    let mut used: usize = 0;
    let mut full = false;
    assert(d@.skip(0) =~= d@);
    while i < d.len() && !full
        invariant
            i <= d@.len(),
            used <= DETAIL_BYTES,
            i + chars_within(d@.skip(i as int), DETAIL_BYTES - used) == chars_within(
                d@,
                DETAIL_BYTES as int,
            ),
            full ==> chars_within(d@.skip(i as int), DETAIL_BYTES - used) == 0,
        decreases d@.len() - i, if full { 0int } else { 1int },
    {
        let w = char_width(d[i]);
        assert(d@.skip(i as int)[0] == d@[i as int]);
        assert(d@.skip(i as int).drop_first() =~= d@.skip(i + 1));
        if w > DETAIL_BYTES - used {
            full = true;
        } else {
            used = used + w;
            i = i + 1;
        }
    }
    proof {
        if !full {
            assert(d@.skip(i as int).len() == 0);
        }
    }
    slice_of(d, 0, i)
}

/// The shown part of an error text fits into `DETAIL_BYTES` bytes of UTF-8,
/// and no longer prefix of whole characters would.
pub proof fn law_detail_fits(detail: Seq<char>)
    ensures
        detail_head(detail).len() <= detail.len(),
        encode_utf8(detail_head(detail)).len() <= DETAIL_BYTES,
        detail_head(detail).len() < detail.len() ==> encode_utf8(
            detail.take(detail_head(detail).len() + 1 as int),
        ).len() > DETAIL_BYTES,
{
    lemma_chars_within(detail, DETAIL_BYTES as int);
}

/// `chars_within` counts the longest prefix that fits.
proof fn lemma_chars_within(d: Seq<char>, budget: int)
    requires
        budget >= 0,
    ensures
        chars_within(d, budget) <= d.len(),
        encode_utf8(d.take(chars_within(d, budget) as int)).len() <= budget,
        chars_within(d, budget) < d.len() ==> encode_utf8(
            d.take(chars_within(d, budget) + 1 as int),
        ).len() > budget,
    decreases d.len(),
{
    let k = chars_within(d, budget) as int;
    if d.len() == 0 {
        assert(d.take(0) =~= Seq::<char>::empty());
    } else {
        let w = utf8_width(d[0]);
        let rest = d.drop_first();
        if w <= budget {
            lemma_chars_within(rest, budget - w);
            assert(d.take(k).drop_first() =~= rest.take(k - 1));
            assert(d.take(k)[0] == d[0]);
            if k < d.len() {
                assert(d.take(k + 1).drop_first() =~= rest.take(k));
                assert(d.take(k + 1)[0] == d[0]);
            }
        } else {
            assert(d.take(0) =~= Seq::<char>::empty());
            assert(d.take(1).drop_first() =~= Seq::<char>::empty());
            assert(d.take(1)[0] == d[0]);
        }
    }
}

/// The response body of curl's output: what precedes the status line; empty
/// when the output is a single line.
pub open spec fn body_text(raw: Seq<char>) -> Seq<char> {
    match rsplit_once(raw, seq!['\n']) {
        Some((b, _)) => b,
        None => seq![],
    }
}

/// Splits curl's output (written with `-w "\n%{http_code}"`) into the
/// response body and the HTTP status, 0 when the status cannot be read.
pub fn split_status(raw: &str) -> (r: (String, u64))
    ensures
        r.0@ == body_text(raw@),
        r.1 == status_code(raw@),
{
    let cs = to_chars(raw);
    let nl = ['\n'];
    assert(nl@ =~= seq!['\n']);
    let (body, status) = match rfind_chars(cs.as_slice(), nl.as_slice()) {
        Some(i) => {
            assert(occurs_at(cs@, nl@, i as int));
            assert(i + 1 <= cs.len());
            let b = slice_of(cs.as_slice(), 0, i);
            assert(b@ =~= cs@.take(i as int));
            let s = slice_of(cs.as_slice(), i + 1, cs.len());
            assert(s@ =~= cs@.skip(i + 1));
            (b, s)
        },
        None => (Vec::new(), trim_chars(cs.as_slice())),
    };
    assert(body@ =~= body_text(raw@));
    assert(status@ == status_text(raw@));
    let t = trim_chars(status.as_slice());
    let code: u64 = match parse_unsigned_chars(t.as_slice(), u16::MAX as u64) {
        Some(c) => c,
        None => 0,
    };
    (from_chars(body.as_slice()), code)
}

/// The verdict of the plain-text probe; `api_message` is the error message
/// the API put in its reply, if any.
pub open spec fn connection_verdict(
    raw: Seq<char>,
    stderr: Seq<char>,
    api_message: Option<Seq<char>>,
) -> Result<(), Seq<char>> {
    let code = status_code(raw);
    if code == 401 || code == 403 {
        Err("✗ Invalid API key"@)
    } else if code == 404 {
        Err("✗ Model not found — update model name"@)
    } else if code == 0 {
        let detail = trim(stderr);
        if detail.len() == 0 {
            Err("✗ Could not connect to server"@)
        } else {
            Err("✗ "@ + detail_head(detail))
        }
    } else if code != 200 && code != 201 {
        Err("✗ "@ + http_error_text(code, api_message))
    } else {
        Ok(())
    }
}

/// The views of a result with a string error.
pub open spec fn result_view(r: Result<(), String>) -> Result<(), Seq<char>> {
    match r {
        Ok(()) => Ok(()),
        Err(e) => Err(e@),
    }
}

/// Judges the plain-text probe from curl's output and error output: 401/403
/// is a bad key, 404 an unknown model, no status a connection failure (with
/// the part of curl's message that fits in `DETAIL_BYTES` bytes), any status other than 200/201 an HTTP error with the
/// API's message.
pub fn check_connection(raw: &str, stderr: &str, api_message: Option<&str>) -> (r: Result<
    (),
    String,
>)
    ensures
        result_view(r) == connection_verdict(raw@, stderr@, opt_view(api_message)),
{
    let (_body, code) = split_status(raw);
    if code == 401 || code == 403 {
        return Err("✗ Invalid API key".to_owned());
    }
    if code == 404 {
        return Err("✗ Model not found — update model name".to_owned());
    }
    if code == 0 {
        let detail = trim_chars(to_chars(stderr).as_slice());
        if detail.len() == 0 {
            return Err("✗ Could not connect to server".to_owned());
        }
        let head = detail_head_chars(detail.as_slice());
        let mut e = String::new();
        push_str(&mut e, "✗ ");
        push_chars(&mut e, head.as_slice());
        return Err(e);
    }
    if code != 200 && code != 201 {
        let mut e = String::new();
        push_str(&mut e, "✗ ");
        let h = http_error(code, api_message);
        push_str(&mut e, h.as_str());
        return Err(e);
    }
    Ok(())
}

/// The status curl writes last (after a newline) is the status read.
pub proof fn law_status_read_back(body: Seq<char>, code: nat)
    requires
        code <= u16::MAX,
    ensures
        status_code(body + seq!['\n'] + decimal(code)) == code,
{
    let raw = body + seq!['\n'] + decimal(code);
    let d = decimal(code);
    lemma_decimal_digits(code);
    assert(raw.subrange(body.len() as int, body.len() + 1 as int) =~= seq!['\n']);
    assert forall|j: int| body.len() < j < raw.len() implies raw[j] != '\n' by {
        assert(raw[j] == d[j - body.len() - 1]);
        assert(is_digit(d[j - body.len() - 1]));
    }
    lemma_rfind_at(raw, seq!['\n'], body.len() as int);
    assert(raw.skip(body.len() + 1 as int) =~= d);
    lemma_trim_decimal(code);
    law_parse_decimal(code, u16::MAX as nat);
}

/// The verdict of the image probe: a model that rejects images is text-only.
pub open spec fn vision_verdict(raw: Seq<char>, model: Seq<char>) -> Result<(), Seq<char>> {
    if contains(raw, "must be a string"@) || contains(raw, "does not support"@) {
        Err("✗ '"@ + model + "' is text-only — use a vision model e.g. meta-llama/llama-4-scout-17b-16e-instruct"@)
    } else {
        Ok(())
    }
}

/// Judges the image probe's reply.
pub fn check_vision(raw: &str, model: &str) -> (r: Result<(), String>)
    ensures
        result_view(r) == vision_verdict(raw@, model@),
{
    let cs = to_chars(raw);
    if contains_chars(cs.as_slice(), to_chars("must be a string").as_slice()) || contains_chars(
        cs.as_slice(),
        to_chars("does not support").as_slice(),
    ) {
        let mut e = String::new();
        push_str(&mut e, "✗ '");
        push_str(&mut e, model);
        push_str(
            &mut e,
            "' is text-only — use a vision model e.g. meta-llama/llama-4-scout-17b-16e-instruct",
        );
        return Err(e);
    }
    Ok(())
}

} // verus!
