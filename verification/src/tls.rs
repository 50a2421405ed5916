//! The end of a TLS stream: a read that fails because the peer's TLS
//! `close_notify` ended the stream counts as a clean end of file.
use vstd::prelude::*;
use vstd::utf8::*;

verus! {

#[verifier::external_type_specification]
#[verifier::external_body]
pub struct ExIoError(std::io::Error);

/// `std::io::Error::kind`, told apart for `ErrorKind::UnexpectedEof`.
/// Nothing is stated of the result: the error is opaque to the proofs, so
/// its kind has no model here.
#[verifier::external_body]
fn io_error_is_unexpected_eof(e: &std::io::Error) -> bool {
    match e.kind() {
        std::io::ErrorKind::UnexpectedEof => true,
        _ => false,
    }
}

/// The `Debug` text of an I/O error, `format!("{e:?}")`. Nothing is stated
/// of the result: the error is opaque to the proofs, so its text has no
/// model here.
#[verifier::external_body]
fn io_error_debug_text(e: &std::io::Error) -> String {
    format!("{e:?}")
}

/// `needle` occurs in `hay` as a run of consecutive bytes.
pub open spec fn bytes_contain(hay: Seq<u8>, needle: Seq<u8>) -> bool {
    exists|i: int|
        0 <= i && i + needle.len() <= hay.len() && #[trigger] hay.subrange(i, i + needle.len())
            == needle
}

fn occurs_at(hay: &[u8], needle: &[u8], start: usize) -> (r: bool)
    requires
        start + needle@.len() <= hay@.len(),
    ensures
        r == (hay@.subrange(start as int, start + needle@.len()) == needle@),
{
    let hay_len = hay.len();
    let mut j: usize = 0;
    while j < needle.len()
        invariant
            hay_len == hay@.len(),
            start + needle@.len() <= hay@.len(),
            j <= needle@.len(),
            forall|k: int| 0 <= k < j ==> hay@[start + k] == needle@[k],
        decreases needle@.len() - j,
    {
        if hay[start + j] != needle[j] {
            assert(hay@.subrange(start as int, start + needle@.len())[j as int] != needle@[j as int]);
            return false;
        }
        j = j + 1;
    }
    assert(hay@.subrange(start as int, start + needle@.len()) =~= needle@);
    true
}

/// Whether `needle` occurs in `hay`, as `str::contains` answers for the
/// bytes of two strings.
pub fn contains_bytes(hay: &[u8], needle: &[u8]) -> (r: bool)
    ensures
        r == bytes_contain(hay@, needle@),
{
    if needle.len() > hay.len() {
        return false;
    }
    let last = hay.len() - needle.len();
    let mut i: usize = 0;
    loop
        invariant
            last + needle@.len() == hay@.len(),
            i <= last,
            forall|k: int|
                0 <= k < i ==> #[trigger] hay@.subrange(k, k + needle@.len()) != needle@,
        decreases last - i,
    {
        if occurs_at(hay, needle, i) {
            return true;
        }
        if i == last {
            return false;
        }
        i = i + 1;
    }
}

/// The words that rustls puts in the error for a stream that ended with
/// its TLS `close_notify`.
pub open spec fn close_notify_marker() -> Seq<char> {
    "TLS close_notify"@
}

/// A read error is the end of a TLS stream exactly when it is an unexpected
/// end of file whose description holds `TLS close_notify`.
pub fn is_tls_close_notify(unexpected_eof: bool, description: &str) -> (r: bool)
    ensures
        r == (unexpected_eof && bytes_contain(
            encode_utf8(description@),
            encode_utf8(close_notify_marker()),
        )),
{
    if !unexpected_eof {
        return false;
    }
    let marker = "TLS close_notify";
    contains_bytes(description.as_bytes(), marker.as_bytes())
}

/// What becomes of a read result, given the two facts about its error that
/// the decision reads: a count passes unchanged; an error becomes `Ok(0)`
/// when `is_tls_close_notify` holds of them, and passes unchanged otherwise.
pub open spec fn close_notify_result(
    x: Result<usize, std::io::Error>,
    unexpected_eof: bool,
    description: Seq<char>,
) -> Result<usize, std::io::Error> {
    match x {
        Ok(n) => Ok(n),
        Err(_) => if unexpected_eof && bytes_contain(
            encode_utf8(description),
            encode_utf8(close_notify_marker()),
        ) {
            Ok(0)
        } else {
            x
        },
    }
}

/// Turns a read result into `close_notify_result`, given whether its error
/// is an unexpected end of file and the error's description.
pub fn close_notify_outcome(
    x: Result<usize, std::io::Error>,
    unexpected_eof: bool,
    description: &str,
) -> (res: Result<usize, std::io::Error>)
    ensures
        res == close_notify_result(x, unexpected_eof, description@),
{
    match x {
        Ok(n) => Ok(n),
        Err(e) => {
            if is_tls_close_notify(unexpected_eof, description) {
                Ok(0)
            } else {
                Err(e)
            }
        },
    }
}

/// The result of a read on a TLS stream, with an error from the peer's TLS
/// `close_notify` turned into a read of 0 bytes (end of file). The kind and
/// the `Debug` text of an error are read from the error itself, and
/// `close_notify_outcome` decides with them: the result is
/// `close_notify_result` of the read, of whether the kind is
/// `UnexpectedEof`, and of that text. A count passes unchanged. What the kind
/// and the text of a given error are is not stated: the error is opaque to
/// the proofs, and both can depend on the machine and its locale.
pub fn map_close_notify(x: Result<usize, std::io::Error>) -> (res: Result<usize, std::io::Error>)
    ensures
        x matches Ok(n) ==> res == Ok::<usize, std::io::Error>(n),
        exists|unexpected_eof: bool, description: Seq<char>|
            res == close_notify_result(x, unexpected_eof, description),
{
    let (eof, text) = match &x {
        Ok(_) => (false, String::new()),
        Err(e) => (io_error_is_unexpected_eof(e), io_error_debug_text(e)),
    };
    let res = close_notify_outcome(x, eof, text.as_str());
    assert(res == close_notify_result(x, eof, text@));
    res
}

/// An error becomes a clean end of file only when both facts hold: it is an
/// unexpected end of file, and its description holds `TLS close_notify`.
/// Any other error, in particular one of another kind, passes unchanged, and
/// a count is never changed.
pub proof fn law_only_close_notify_becomes_eof(
    x: Result<usize, std::io::Error>,
    unexpected_eof: bool,
    description: Seq<char>,
)
    ensures
        x is Ok ==> close_notify_result(x, unexpected_eof, description) == x,
        !unexpected_eof ==> close_notify_result(x, unexpected_eof, description) == x,
        !bytes_contain(encode_utf8(description), encode_utf8(close_notify_marker()))
            ==> close_notify_result(x, unexpected_eof, description) == x,
        x is Err && unexpected_eof && bytes_contain(
            encode_utf8(description),
            encode_utf8(close_notify_marker()),
        ) ==> close_notify_result(x, unexpected_eof, description) == Ok::<usize, std::io::Error>(
            0,
        ),
{
}

/// Deciding twice on the same facts decides as once: a result that has been
/// through the rule passes through it again unchanged.
pub proof fn law_close_notify_result_idempotent(
    x: Result<usize, std::io::Error>,
    unexpected_eof: bool,
    description: Seq<char>,
)
    ensures
        close_notify_result(
            close_notify_result(x, unexpected_eof, description),
            unexpected_eof,
            description,
        ) == close_notify_result(x, unexpected_eof, description),
{
}

} // verus!
