//! The WebSocket opening handshake: the headers of the client's upgrade
//! request, and the checks on the server's answer.
use vstd::prelude::*;
use vstd::utf8::*;

use crate::error::NubilaError;
use crate::text::utf8_text;

verus! {

// ---------------------------------------------------------------------------
// ASCII helpers
// ---------------------------------------------------------------------------

/// ASCII lower-casing of one byte: `A`..`Z` become `a`..`z`, every other
/// byte stays as it is.
pub open spec fn ascii_lower(b: u8) -> u8 {
    if 65 <= b && b <= 90 {
        (b + 32) as u8
    } else {
        b
    }
}

/// Two byte strings are equal up to ASCII case.
pub open spec fn ascii_case_eq(a: Seq<u8>, b: Seq<u8>) -> bool {
    &&& a.len() == b.len()
    &&& forall|i: int| 0 <= i < a.len() ==> #[trigger] ascii_lower(a[i]) == ascii_lower(b[i])
}

fn lower_byte(b: u8) -> (r: u8)
    ensures
        r == ascii_lower(b),
{
    if 65 <= b && b <= 90 {
        b + 32
    } else {
        b
    }
}

/// Compares two byte strings ignoring ASCII case, as `str::eq_ignore_ascii_case` does.
pub fn eq_ignore_ascii_case(a: &[u8], b: &[u8]) -> (r: bool)
    ensures
        r == ascii_case_eq(a@, b@),
{
    if a.len() != b.len() {
        return false;
    }
    let mut i: usize = 0;
    while i < a.len()
        invariant
            a@.len() == b@.len(),
            i <= a@.len(),
            forall|j: int| 0 <= j < i ==> #[trigger] ascii_lower(a@[j]) == ascii_lower(b@[j]),
        decreases a@.len() - i,
    {
        if lower_byte(a[i]) != lower_byte(b[i]) {
            return false;
        }
        i = i + 1;
    }
    true
}

/// A byte that `http::HeaderValue::to_str` accepts: visible ASCII or a tab.
pub open spec fn is_visible_ascii(b: u8) -> bool {
    (32 <= b && b < 127) || b == 9
}

pub open spec fn all_visible_ascii(s: Seq<u8>) -> bool {
    forall|i: int| 0 <= i < s.len() ==> #[trigger] is_visible_ascii(s[i])
}

/// The text of an answer header as the handshake check reads it: the header's
/// bytes when it is present and all of them are visible ASCII, else empty.
pub open spec fn header_text(raw: Option<Seq<u8>>) -> Seq<u8> {
    match raw {
        Some(r) => if all_visible_ascii(r) {
            r
        } else {
            Seq::empty()
        },
        None => Seq::empty(),
    }
}

/// The bytes of an optional header, as a sequence.
pub open spec fn raw_header(raw: Option<Vec<u8>>) -> Option<Seq<u8>> {
    match raw {
        Some(v) => Some(v@),
        None => None,
    }
}

/// The characters of an ASCII byte string, one per byte.
pub open spec fn ascii_chars(s: Seq<u8>) -> Seq<char> {
    s.map_values(|b: u8| b as char)
}

fn is_all_visible_ascii(bytes: &[u8]) -> (r: bool)
    ensures
        r == all_visible_ascii(bytes@),
{
    let mut i: usize = 0;
    while i < bytes.len()
        invariant
            i <= bytes@.len(),
            forall|j: int| 0 <= j < i ==> #[trigger] is_visible_ascii(bytes@[j]),
        decreases bytes@.len() - i,
    {
        let b = bytes[i];
        if !((32 <= b && b < 127) || b == 9) {
            assert(!is_visible_ascii(bytes@[i as int]));
            return false;
        }
        i = i + 1;
    }
    true
}

fn header_text_of(raw: &Option<Vec<u8>>) -> (r: Vec<u8>)
    ensures
        r@ == header_text(raw_header(*raw)),
        all_visible_ascii(r@),
{
    match raw {
        Some(bytes) => {
            if is_all_visible_ascii(bytes.as_slice()) {
                bytes.clone()
            } else {
                Vec::new()
            }
        },
        None => Vec::new(),
    }
}

proof fn lemma_ascii_utf8(s: Seq<u8>)
    requires
        all_visible_ascii(s),
    ensures
        valid_utf8(s),
        decode_utf8(s) == ascii_chars(s),
{
    let c = ascii_chars(s);
    assert(is_ascii_chars(c)) by {
        assert forall|i: int| 0 <= i < c.len() implies '\0' <= #[trigger] c[i] <= '\u{7f}' by {
            assert(is_visible_ascii(s[i]));
        }
    }
    is_ascii_chars_encode_utf8(c);
    assert forall|i: int| 0 <= i < s.len() implies #[trigger] encode_utf8(c)[i] == s[i] by {
        assert(c[i] as u8 == encode_utf8(c)[i]);
        assert(is_visible_ascii(s[i]));
    }
    assert(encode_utf8(c) =~= s);
    encode_utf8_valid_utf8(c);
    encode_utf8_decode_utf8(c);
}

fn ascii_string(bytes: &[u8]) -> (s: String)
    requires
        all_visible_ascii(bytes@),
    ensures
        s@ == ascii_chars(bytes@),
{
    proof {
        lemma_ascii_utf8(bytes@);
    }
    match utf8_text(bytes) {
        Some(s) => s,
        None => String::new(),
    }
}

// ---------------------------------------------------------------------------
// The server's answer
// ---------------------------------------------------------------------------

/// The status that accepts a WebSocket upgrade: 101 Switching Protocols.
pub const SWITCHING_PROTOCOLS: u16 = 101;

/// `websocket`, the value that the `Upgrade` header must have.
pub open spec fn websocket_token() -> Seq<u8> {
    seq![119u8, 101u8, 98u8, 115u8, 111u8, 99u8, 107u8, 101u8, 116u8]
}

/// `Upgrade`, the value that the `Connection` header must have.
pub open spec fn upgrade_token() -> Seq<u8> {
    seq![85u8, 112u8, 103u8, 114u8, 97u8, 100u8, 101u8]
}

fn websocket_token_bytes() -> (r: Vec<u8>)
    ensures
        r@ == websocket_token(),
{
    let r: Vec<u8> = vec![119u8, 101u8, 98u8, 115u8, 111u8, 99u8, 107u8, 101u8, 116u8];
    assert(r@ =~= websocket_token());
    r
}

fn upgrade_token_bytes() -> (r: Vec<u8>)
    ensures
        r@ == upgrade_token(),
{
    let r: Vec<u8> = vec![85u8, 112u8, 103u8, 114u8, 97u8, 100u8, 101u8];
    assert(r@ =~= upgrade_token());
    r
}

/// What the handshake check reads of the server's answer: its status code
/// and the raw bytes of the first `Upgrade` and `Connection` headers.
pub struct HandshakeResponse {
    pub status: u16,
    pub upgrade: Option<Vec<u8>>,
    pub connection: Option<Vec<u8>>,
}

/// The answer completes the opening handshake: status 101, `Upgrade:
/// websocket` and `Connection: Upgrade`, both values compared without regard
/// to ASCII case.
pub open spec fn handshake_accepted(r: HandshakeResponse) -> bool {
    &&& r.status == SWITCHING_PROTOCOLS
    &&& ascii_case_eq(header_text(raw_header(r.upgrade)), websocket_token())
    &&& ascii_case_eq(header_text(raw_header(r.connection)), upgrade_token())
}

/// Checks the server's answer to the opening handshake. The status is
/// checked first, then the `Upgrade` header, then the `Connection` header;
/// the first failing check gives the error, which carries the status or the
/// header text that was found.
pub fn verify(response: &HandshakeResponse) -> (res: Result<(), NubilaError>)
    ensures
        res is Ok <==> handshake_accepted(*response),
        response.status != SWITCHING_PROTOCOLS ==> (res matches Err(
            NubilaError::WsInvalidStatusCode(got, expected),
        ) && got == response.status && expected == SWITCHING_PROTOCOLS),
        response.status == SWITCHING_PROTOCOLS && !ascii_case_eq(
            header_text(raw_header(response.upgrade)),
            websocket_token(),
        ) ==> (res matches Err(NubilaError::WsInvalidUpgradeHeader(text)) && text@ == ascii_chars(
            header_text(raw_header(response.upgrade)),
        )),
        response.status == SWITCHING_PROTOCOLS && ascii_case_eq(
            header_text(raw_header(response.upgrade)),
            websocket_token(),
        ) && !ascii_case_eq(header_text(raw_header(response.connection)), upgrade_token()) ==> (
        res matches Err(NubilaError::WsInvalidConnectionHeader(text)) && text@ == ascii_chars(
            header_text(raw_header(response.connection)),
        )),
{
    if response.status != SWITCHING_PROTOCOLS {
        return Err(NubilaError::WsInvalidStatusCode(response.status, SWITCHING_PROTOCOLS));
    }
    let upgrade = header_text_of(&response.upgrade);
    let websocket = websocket_token_bytes();
    if !eq_ignore_ascii_case(upgrade.as_slice(), websocket.as_slice()) {
        return Err(NubilaError::WsInvalidUpgradeHeader(ascii_string(upgrade.as_slice())));
    }
    let connection = header_text_of(&response.connection);
    let upgrade_word = upgrade_token_bytes();
    if !eq_ignore_ascii_case(connection.as_slice(), upgrade_word.as_slice()) {
        return Err(NubilaError::WsInvalidConnectionHeader(ascii_string(connection.as_slice())));
    }
    Ok(())
}

/// Equality up to ASCII case is symmetric and transitive.
pub proof fn law_ascii_case_eq_equivalence(a: Seq<u8>, b: Seq<u8>, c: Seq<u8>)
    ensures
        ascii_case_eq(a, a),
        ascii_case_eq(a, b) ==> ascii_case_eq(b, a),
        ascii_case_eq(a, b) && ascii_case_eq(b, c) ==> ascii_case_eq(a, c),
{
    if ascii_case_eq(a, b) && ascii_case_eq(b, c) {
        assert forall|i: int| 0 <= i < a.len() implies #[trigger] ascii_lower(a[i]) == ascii_lower(
            c[i],
        ) by {
            assert(ascii_lower(a[i]) == ascii_lower(b[i]));
            assert(ascii_lower(b[i]) == ascii_lower(c[i]));
        }
    }
    if ascii_case_eq(a, b) {
        assert forall|i: int| 0 <= i < b.len() implies #[trigger] ascii_lower(b[i]) == ascii_lower(
            a[i],
        ) by {
            assert(ascii_lower(a[i]) == ascii_lower(b[i]));
        }
    }
}

/// The handshake check does not depend on the ASCII case of the `Upgrade`
/// and `Connection` values: two answers with the same status whose header
/// texts differ only in case are both accepted or both refused.
pub proof fn law_verdict_ignores_case(r1: HandshakeResponse, r2: HandshakeResponse)
    requires
        r1.status == r2.status,
        ascii_case_eq(header_text(raw_header(r1.upgrade)), header_text(raw_header(r2.upgrade))),
        ascii_case_eq(
            header_text(raw_header(r1.connection)),
            header_text(raw_header(r2.connection)),
        ),
    ensures
        handshake_accepted(r1) == handshake_accepted(r2),
{
    let u1 = header_text(raw_header(r1.upgrade));
    let u2 = header_text(raw_header(r2.upgrade));
    let c1 = header_text(raw_header(r1.connection));
    let c2 = header_text(raw_header(r2.connection));
    law_ascii_case_eq_equivalence(u1, u2, websocket_token());
    law_ascii_case_eq_equivalence(u2, u1, websocket_token());
    law_ascii_case_eq_equivalence(c1, c2, upgrade_token());
    law_ascii_case_eq_equivalence(c2, c1, upgrade_token());
}

// ---------------------------------------------------------------------------
// The client's upgrade request
// ---------------------------------------------------------------------------

/// Which part of a request header the `http` crate refused.
#[derive(PartialEq, Eq, Structural, Debug, Clone, Copy)]
pub enum HeaderFault {
    Name,
    Value,
}

/// A request header, with the verdicts on its name and its value.
pub struct HeaderField {
    pub name: String,
    pub value: String,
    pub name_accepted: bool,
    pub value_accepted: bool,
}

/// A header as the contracts see it: name, value and the two verdicts.
pub type FieldView = (Seq<char>, Seq<char>, bool, bool);

pub open spec fn field_view(f: HeaderField) -> FieldView {
    (f.name@, f.value@, f.name_accepted, f.value_accepted)
}

pub open spec fn fields_view(fs: Seq<HeaderField>) -> Seq<FieldView> {
    fs.map_values(|f: HeaderField| field_view(f))
}

/// What is wrong with one header, the name being looked at first.
pub open spec fn field_fault(f: FieldView) -> Option<HeaderFault> {
    if !f.2 {
        Some(HeaderFault::Name)
    } else if !f.3 {
        Some(HeaderFault::Value)
    } else {
        None
    }
}

/// The fault of the first header, in order, that has one.
pub open spec fn first_fault(fs: Seq<FieldView>) -> Option<HeaderFault>
    decreases fs.len(),
{
    if fs.len() == 0 {
        None
    } else {
        match first_fault(fs.drop_last()) {
            Some(f) => Some(f),
            None => field_fault(fs.last()),
        }
    }
}

pub open spec fn fault_error(f: HeaderFault) -> NubilaError {
    match f {
        HeaderFault::Name => NubilaError::InvalidHeaderName,
        HeaderFault::Value => NubilaError::InvalidHeaderValue,
    }
}

/// The name and value of each header.
pub open spec fn field_pairs(fs: Seq<FieldView>) -> Seq<(Seq<char>, Seq<char>)> {
    fs.map_values(|f: FieldView| (f.0, f.1))
}

pub open spec fn pairs_view(ps: Seq<(String, String)>) -> Seq<(Seq<char>, Seq<char>)> {
    ps.map_values(|p: (String, String)| (p.0@, p.1@))
}

pub open spec fn strings_view(ss: Seq<String>) -> Seq<Seq<char>> {
    ss.map_values(|s: String| s@)
}

/// Gathers the headers of a request in order, as the `http` request builder
/// does: the first header whose name or value was refused decides the error,
/// and without one every header is kept, in order.
pub fn collect_header_fields(fields: &Vec<HeaderField>) -> (res: Result<
    Vec<(String, String)>,
    NubilaError,
>)
    ensures
        res is Ok <==> first_fault(fields_view(fields@)) is None,
        res matches Ok(v) ==> pairs_view(v@) == field_pairs(fields_view(fields@)),
        first_fault(fields_view(fields@)) matches Some(f) ==> (res matches Err(e) && e
            == fault_error(f)),
{
    let ghost fv = fields_view(fields@);
    let mut out: Vec<(String, String)> = Vec::new();
    let mut i: usize = 0;
    while i < fields.len()
        invariant
            fv == fields_view(fields@),
            i <= fields@.len(),
            first_fault(fv.take(i as int)) is None,
            out@.len() == i,
            pairs_view(out@) == field_pairs(fv.take(i as int)),
        decreases fields@.len() - i,
    {
        let f = &fields[i];
        proof {
            assert(fv.take(i + 1).drop_last() =~= fv.take(i as int));
            assert(fv.take(i + 1).last() == field_view(*f));
        }
        if !f.name_accepted {
            proof {
                lemma_first_fault_prefix(fv, i + 1);
            }
            return Err(NubilaError::InvalidHeaderName);
        }
        if !f.value_accepted {
            proof {
                lemma_first_fault_prefix(fv, i + 1);
            }
            return Err(NubilaError::InvalidHeaderValue);
        }
        let pair = (f.name.clone(), f.value.clone());
        let ghost before = out@;
        out.push(pair);
        proof {
            assert(out@ == before.push(pair));
            assert(pair.0@ == fv.take(i + 1).last().0);
            assert(pair.1@ == fv.take(i + 1).last().1);
            assert forall|j: int| 0 <= j < i + 1 implies #[trigger] pairs_view(out@)[j] == field_pairs(
                fv.take(i + 1),
            )[j] by {
                if j < i {
                    assert(pairs_view(before)[j] == field_pairs(fv.take(i as int))[j]);
                    assert(fv.take(i + 1)[j] == fv.take(i as int)[j]);
                }
            }
            assert(pairs_view(out@) =~= field_pairs(fv.take(i + 1)));
        }
        i = i + 1;
    }
    proof {
        assert(fv.take(i as int) =~= fv);
    }
    Ok(out)
}

/// A fault found in a prefix of the headers is the first fault of them all.
proof fn lemma_first_fault_prefix(fs: Seq<FieldView>, n: int)
    requires
        0 <= n <= fs.len(),
        first_fault(fs.take(n)) is Some,
    ensures
        first_fault(fs) == first_fault(fs.take(n)),
    decreases fs.len() - n,
{
    if n < fs.len() {
        assert(fs.take(n + 1).drop_last() =~= fs.take(n));
        lemma_first_fault_prefix(fs, n + 1);
    } else {
        assert(fs.take(n) =~= fs);
    }
}

/// A byte that `http::HeaderValue` accepts in a value: a tab, or any byte
/// from 32 up other than 127 (DEL).
pub open spec fn header_value_byte_ok(b: u8) -> bool {
    (32 <= b && b != 127) || b == 9
}

/// Every byte of the UTF-8 encoding of the value is accepted.
pub open spec fn header_value_ok(v: Seq<char>) -> bool {
    forall|i: int| 0 <= i < encode_utf8(v).len() ==> #[trigger] header_value_byte_ok(encode_utf8(v)[i])
}

/// A byte allowed in a header name (an RFC 9110 `tchar`): a letter, a digit
/// or one of ``!#$%&'*+-.^_`|~``.
pub open spec fn is_token_byte(b: u8) -> bool {
    ||| 48 <= b <= 57
    ||| 65 <= b <= 90
    ||| 97 <= b <= 122
    ||| b == 33 || b == 35 || b == 36 || b == 37 || b == 38 || b == 39
    ||| b == 42 || b == 43 || b == 45 || b == 46
    ||| b == 94 || b == 95 || b == 96 || b == 124 || b == 126
}

/// A header name that `http::HeaderName::from_bytes` accepts: from 1 to
/// 65535 bytes, each of them a token byte.
pub open spec fn header_name_ok(name: Seq<char>) -> bool {
    &&& 1 <= encode_utf8(name).len() <= 65535
    &&& forall|i: int| 0 <= i < encode_utf8(name).len() ==> #[trigger] is_token_byte(encode_utf8(name)[i])
}

/// `http::HeaderValue::from_str`: its source accepts the value exactly when
/// every byte is a tab or at least 32 and not 127, which is what the request
/// builder checks of a `&str` or `&String` value.
#[verifier::external_body]
fn header_value_accepted(value: &str) -> (r: bool)
    ensures
        r == header_value_ok(value@),
{
    http::HeaderValue::from_str(value).is_ok()
}

/// `http::HeaderName::from_bytes` on the bytes of the name, which is what
/// the request builder does with a `&String` name. Per its source (through
/// `parse_hdr` and the `HEADER_CHARS` table), the name is accepted exactly
/// when it has from 1 to `MAX_HEADER_NAME_LEN` (65535) bytes and the table
/// maps none of them to 0, which holds of the token bytes only.
#[verifier::external_body]
fn header_name_accepted(name: &str) -> (r: bool)
    ensures
        r == header_name_ok(name@),
{
    http::HeaderName::from_bytes(name.as_bytes()).is_ok()
}

/// The parts joined with `,` between them, as `[String]::join(",")` does.
pub open spec fn comma_join(parts: Seq<Seq<char>>) -> Seq<char>
    decreases parts.len(),
{
    if parts.len() == 0 {
        Seq::empty()
    } else if parts.len() == 1 {
        parts[0]
    } else {
        comma_join(parts.drop_last()) + seq![','] + parts.last()
    }
}

/// Joins the sub-protocol names with commas.
pub fn join_with_commas(parts: &Vec<String>) -> (r: String)
    ensures
        r@ == comma_join(strings_view(parts@)),
{
    let ghost pv = strings_view(parts@);
    let mut r = String::new();
    let mut i: usize = 0;
    proof {
        reveal_strlit(",");
    }
    while i < parts.len()
        invariant
            pv == strings_view(parts@),
            i <= parts@.len(),
            r@ == comma_join(pv.take(i as int)),
        decreases parts@.len() - i,
    {
        proof {
            reveal_strlit(",");
            assert(pv.take(i + 1).drop_last() =~= pv.take(i as int));
            assert(pv.take(i + 1).last() == parts@[i as int]@);
        }
        if i > 0 {
            r.append(",");
        }
        r.append(parts[i].as_str());
        proof {
            if i == 0 {
                assert(comma_join(pv.take(0)) =~= Seq::<char>::empty());
                assert(r@ =~= comma_join(pv.take(1)));
            } else {
                assert(r@ =~= comma_join(pv.take(i + 1)));
            }
        }
        i = i + 1;
    }
    proof {
        assert(pv.take(i as int) =~= pv);
    }
    r
}

/// The headers of the opening request, with their verdicts, in the order
/// the request sets them: `host`, `connection: Upgrade`, `upgrade:
/// websocket`, `sec-websocket-key`, `sec-websocket-version: 13`,
/// `user-agent`, then `sec-websocket-protocol` with the sub-protocols joined
/// by commas where there is one, then the caller's own headers. The fixed
/// names and values are valid; the others are checked as the `http` crate
/// checks them.
pub open spec fn opening_fields(
    host: Seq<char>,
    key: Seq<char>,
    user_agent: Seq<char>,
    protocols: Seq<Seq<char>>,
    extra: Seq<(Seq<char>, Seq<char>)>,
) -> Seq<FieldView> {
    seq![
        ("host"@, host, true, header_value_ok(host)),
        ("connection"@, "Upgrade"@, true, true),
        ("upgrade"@, "websocket"@, true, true),
        ("sec-websocket-key"@, key, true, header_value_ok(key)),
        ("sec-websocket-version"@, "13"@, true, true),
        ("user-agent"@, user_agent, true, header_value_ok(user_agent)),
    ] + (if protocols.len() == 0 {
        Seq::<FieldView>::empty()
    } else {
        seq![
            (
                "sec-websocket-protocol"@,
                comma_join(protocols),
                true,
                header_value_ok(comma_join(protocols)),
            ),
        ]
    }) + extra.map_values(
        |p: (Seq<char>, Seq<char>)|
            (p.0, p.1, header_name_ok(p.0), header_value_ok(p.1)),
    )
}

fn checked_field(name: String, value: String) -> (f: HeaderField)
    ensures
        field_view(f) == (name@, value@, true, header_value_ok(value@)),
{
    let ok = header_value_accepted(value.as_str());
    HeaderField { name, value, name_accepted: true, value_accepted: ok }
}

fn fixed_field(name: &str, value: &str) -> (f: HeaderField)
    ensures
        field_view(f) == (name@, value@, true, true),
{
    HeaderField {
        name: String::from_str(name),
        value: String::from_str(value),
        name_accepted: true,
        value_accepted: true,
    }
}

/// The headers of the client's WebSocket upgrade request, given the host of
/// its URL. A URL without a host gives `NoUrlHost`; otherwise the headers of
/// `opening_fields` are gathered by `collect_header_fields`.
pub fn handshake_headers_for_host(
    host: Option<String>,
    key: String,
    user_agent: &str,
    protocols: &Vec<String>,
    extra: &Vec<(String, String)>,
) -> (res: Result<Vec<(String, String)>, NubilaError>)
    ensures
        host is None ==> res matches Err(NubilaError::NoUrlHost),
        host matches Some(h) ==> {
            let fs = opening_fields(
                h@,
                key@,
                user_agent@,
                strings_view(protocols@),
                pairs_view(extra@),
            );
            &&& (res is Ok <==> first_fault(fs) is None)
            &&& (res matches Ok(v) ==> pairs_view(v@) == field_pairs(fs))
            &&& (first_fault(fs) matches Some(f) ==> (res matches Err(e) && e == fault_error(f)))
        },
{
    let host = match host {
        Some(h) => h,
        None => {
            return Err(NubilaError::NoUrlHost);
        },
    };
    let ghost spec_fields = opening_fields(
        host@,
        key@,
        user_agent@,
        strings_view(protocols@),
        pairs_view(extra@),
    );
    let mut fields: Vec<HeaderField> = Vec::new();
    fields.push(checked_field(String::from_str("host"), host));
    fields.push(fixed_field("connection", "Upgrade"));
    fields.push(fixed_field("upgrade", "websocket"));
    fields.push(checked_field(String::from_str("sec-websocket-key"), key));
    fields.push(fixed_field("sec-websocket-version", "13"));
    fields.push(checked_field(String::from_str("user-agent"), String::from_str(user_agent)));
    if protocols.len() > 0 {
        let joined = join_with_commas(protocols);
        fields.push(checked_field(String::from_str("sec-websocket-protocol"), joined));
    }
    let ghost fixed_len = fields@.len();
    proof {
        assert(fields_view(fields@) =~= spec_fields.take(fixed_len as int));
    }
    let mut i: usize = 0;
    while i < extra.len()
        invariant
            fixed_len + extra@.len() == spec_fields.len(),
            fields@.len() == fixed_len + i,
            i <= extra@.len(),
            spec_fields == opening_fields(
                host@,
                key@,
                user_agent@,
                strings_view(protocols@),
                pairs_view(extra@),
            ),
            fields_view(fields@) =~= spec_fields.take(fields@.len() as int),
        decreases extra@.len() - i,
    {
        let name = extra[i].0.clone();
        let value = extra[i].1.clone();
        let name_ok = header_name_accepted(name.as_str());
        let value_ok = header_value_accepted(value.as_str());
        fields.push(HeaderField { name, value, name_accepted: name_ok, value_accepted: value_ok });
        proof {
            assert(fields_view(fields@) =~= spec_fields.take(fields@.len() as int));
        }
        i = i + 1;
    }
    proof {
        assert(spec_fields.take(spec_fields.len() as int) =~= spec_fields);
    }
    collect_header_fields(&fields)
}

/// Every opening request asks for the upgrade that the answer check
/// requires: it carries `connection: Upgrade`, `upgrade: websocket` and
/// `sec-websocket-version: 13` at fixed places, and the bytes of those two
/// values are exactly the tokens that `verify` looks for in the answer.
pub proof fn law_request_asks_what_verify_checks(
    host: Seq<char>,
    key: Seq<char>,
    user_agent: Seq<char>,
    protocols: Seq<Seq<char>>,
    extra: Seq<(Seq<char>, Seq<char>)>,
)
    ensures
        ({
            let fs = field_pairs(opening_fields(host, key, user_agent, protocols, extra));
            &&& fs.len() >= 6
            &&& fs[0] == ("host"@, host)
            &&& fs[1] == ("connection"@, "Upgrade"@)
            &&& fs[2] == ("upgrade"@, "websocket"@)
            &&& fs[4] == ("sec-websocket-version"@, "13"@)
        }),
        encode_utf8("websocket"@) == websocket_token(),
        encode_utf8("Upgrade"@) == upgrade_token(),
{
    reveal_strlit("websocket");
    reveal_strlit("Upgrade");
    let w = "websocket"@;
    let u = "Upgrade"@;
    assert(is_ascii_chars(w));
    assert(is_ascii_chars(u));
    is_ascii_chars_encode_utf8(w);
    is_ascii_chars_encode_utf8(u);
    assert(encode_utf8(w) =~= websocket_token());
    assert(encode_utf8(u) =~= upgrade_token());
    let fv = opening_fields(host, key, user_agent, protocols, extra);
    assert(fv.len() >= 6);
    assert(field_pairs(fv)[0] == (fv[0].0, fv[0].1));
    assert(field_pairs(fv)[1] == (fv[1].0, fv[1].1));
    assert(field_pairs(fv)[2] == (fv[2].0, fv[2].1));
    assert(field_pairs(fv)[4] == (fv[4].0, fv[4].1));
}

/// What `http::Uri` makes of a URL: `None` when it does not parse, and
/// otherwise the host it names, if any.
pub uninterp spec fn uri_host(url: Seq<char>) -> Option<Option<Seq<char>>>;

/// `url.parse::<http::Uri>()` followed by `Uri::host`. Its result is named
/// `uri_host`: it is a function of the URL alone, and the parser's rules take
/// pages to state.
#[verifier::external_body]
fn parse_uri_host(url: &str) -> (r: Option<Option<String>>)
    ensures
        r is None <==> uri_host(url@) is None,
        r matches Some(None) <==> uri_host(url@) == Some(None::<Seq<char>>),
        r matches Some(Some(h)) ==> uri_host(url@) == Some(Some(h@)),
{
    match url.parse::<http::Uri>() {
        Ok(uri) => Some(uri.host().map(|h| h.to_string())),
        Err(_) => None,
    }
}

/// The headers of the client's WebSocket upgrade request for a URL. A URL
/// that does not parse gives `InvalidUrl`, one without a host gives
/// `NoUrlHost`, and otherwise the result is `handshake_headers_for_host` of
/// the URL's host.
pub fn handshake_request_headers(
    url: &str,
    key: String,
    user_agent: &str,
    protocols: &Vec<String>,
    extra: &Vec<(String, String)>,
) -> (res: Result<Vec<(String, String)>, NubilaError>)
    ensures
        uri_host(url@) is None ==> res matches Err(NubilaError::InvalidUrl),
        uri_host(url@) == Some(None::<Seq<char>>) ==> res matches Err(NubilaError::NoUrlHost),
        uri_host(url@) matches Some(Some(h)) ==> {
            let fs = opening_fields(
                h,
                key@,
                user_agent@,
                strings_view(protocols@),
                pairs_view(extra@),
            );
            &&& (res is Ok <==> first_fault(fs) is None)
            &&& (res matches Ok(v) ==> pairs_view(v@) == field_pairs(fs))
            &&& (first_fault(fs) matches Some(f) ==> (res matches Err(e) && e == fault_error(f)))
        },
{
    match parse_uri_host(url) {
        None => Err(NubilaError::InvalidUrl),
        Some(host) => handshake_headers_for_host(host, key, user_agent, protocols, extra),
    }
}

/// The sub-protocols are joined with one comma between neighbours: one
/// protocol is sent as it is, and adding a protocol adds a comma and it.
pub proof fn law_comma_join(ps: Seq<Seq<char>>, p: Seq<char>)
    ensures
        comma_join(seq![p]) == p,
        comma_join(Seq::<Seq<char>>::empty()) == Seq::<char>::empty(),
        ps.len() > 0 ==> comma_join(ps.push(p)) == comma_join(ps) + seq![','] + p,
{
    assert(ps.push(p).drop_last() =~= ps);
}

/// The shape of every opening request: the six fixed headers; then, exactly
/// when at least one sub-protocol is asked for, `sec-websocket-protocol`
/// with the protocols joined by commas; then each of the caller's headers
/// with its own name and value, in the caller's order, judged by its own
/// name and value.
pub proof fn law_opening_request_shape(
    host: Seq<char>,
    key: Seq<char>,
    user_agent: Seq<char>,
    protocols: Seq<Seq<char>>,
    extra: Seq<(Seq<char>, Seq<char>)>,
)
    ensures
        ({
            let fv = opening_fields(host, key, user_agent, protocols, extra);
            let fs = field_pairs(fv);
            let base: int = if protocols.len() == 0 { 6 } else { 7 };
            &&& fs.len() == base + extra.len()
            &&& fs[3] == ("sec-websocket-key"@, key)
            &&& fs[5] == ("user-agent"@, user_agent)
            &&& (protocols.len() > 0 ==> fs[6] == ("sec-websocket-protocol"@, comma_join(
                protocols,
            )))
            &&& (protocols.len() == 1 ==> fs[6] == ("sec-websocket-protocol"@, protocols[0]))
            &&& (protocols.len() == 0 ==> forall|i: int|
                0 <= i < 6 ==> #[trigger] fs[i].0 != "sec-websocket-protocol"@)
            &&& forall|i: int|
                0 <= i < extra.len() ==> #[trigger] fs[base + i] == extra[i] && fv[base + i].2
                    == header_name_ok(extra[i].0) && fv[base + i].3 == header_value_ok(
                    extra[i].1,
                )
        }),
{
    reveal_strlit("host");
    reveal_strlit("connection");
    reveal_strlit("upgrade");
    reveal_strlit("sec-websocket-key");
    reveal_strlit("sec-websocket-version");
    reveal_strlit("user-agent");
    reveal_strlit("sec-websocket-protocol");
    let fv = opening_fields(host, key, user_agent, protocols, extra);
    let fs = field_pairs(fv);
    let base: int = if protocols.len() == 0 {
        6
    } else {
        7
    };
    assert(fv.len() == base + extra.len());
    assert forall|i: int| 0 <= i < base implies #[trigger] fs[i] == (fv[i].0, fv[i].1) by {}
    assert forall|i: int| 0 <= i < extra.len() implies #[trigger] fs[base + i] == extra[i]
        && fv[base + i].2 == header_name_ok(extra[i].0) && fv[base + i].3 == header_value_ok(
        extra[i].1,
    ) by {
        assert(fs[base + i] == (fv[base + i].0, fv[base + i].1));
    }
    if protocols.len() == 0 {
        assert forall|i: int| 0 <= i < 6 implies #[trigger] fs[i].0 != "sec-websocket-protocol"@ by {
            assert(fs[i].0.len() != "sec-websocket-protocol"@.len());
        }
    }
    if protocols.len() == 1 {
        assert(comma_join(protocols) == protocols[0]);
    }
}

} // verus!
