//! Text helpers: comparing string slices and decoding MQTT payloads.
use vstd::prelude::*;
use vstd::string::StrSliceExecFns;
use vstd::utf8::{decode_utf8, valid_utf8};

verus! {

/// Compares two string slices character by character.
pub fn str_eq(a: &str, b: &str) -> (r: bool)
    ensures
        r == (a@ == b@),
{
    let n = a.unicode_len();
    if n != b.unicode_len() {
        return false;
    }
    let mut i: usize = 0;
    while i < n
        invariant
            n == a@.len(),
            n == b@.len(),
            i <= n,
            forall|j: int| 0 <= j < i ==> a@[j] == b@[j],
        decreases n - i,
    {
        if a.get_char(i) != b.get_char(i) {
            return false;
        }
        i = i + 1;
    }
    assert(a@ =~= b@);
    true
}

/// What `String::from_utf8_lossy` makes of a byte sequence: the characters that
/// the bytes encode, with each invalid sequence replaced by U+FFFD.
pub uninterp spec fn utf8_lossy(bytes: Seq<u8>) -> Seq<char>;

/// Calls `String::from_utf8_lossy` and takes ownership of the result.
/// Claimed: the result is `utf8_lossy` of the bytes, and bytes that are valid
/// UTF-8 come back as exactly the characters they encode (std's documentation:
/// invalid sequences alone are replaced). Left unsaid: which characters an
/// invalid sequence gives.
#[verifier::external_body]
fn decode_lossy(bytes: &[u8]) -> (s: String)
    ensures
        s@ == utf8_lossy(bytes@),
        valid_utf8(bytes@) ==> s@ == decode_utf8(bytes@),
{
    String::from_utf8_lossy(bytes).into_owned()
}

/// What `{:?}` makes of a string slice: the text in double quotes, with
/// quotes, backslashes and characters that do not print escaped.
pub uninterp spec fn debug_quoted(s: Seq<char>) -> Seq<char>;

/// Every character is printable ASCII (space to `~`) other than `"` and `\`.
pub open spec fn plain_printable(s: Seq<char>) -> bool {
    forall|i: int| 0 <= i < s.len() ==> 0x20 <= (#[trigger] s[i]) as int <= 0x7e && s[i] != '"' && s[i] != '\\'
}

/// Formats a string slice with `{:?}` (std's `Debug` for `str`).
/// Claimed: the result is `debug_quoted` of the text, and text made only of
/// printable ASCII other than `"` and `\` comes back unescaped between two
/// double quotes (std's documentation: printable ASCII is not escaped, quotes
/// and backslashes are). Left unsaid: how other characters are escaped.
#[verifier::external_body]
fn debug_str(s: &str) -> (r: String)
    ensures
        r@ == debug_quoted(s@),
        plain_printable(s@) ==> r@ == seq!['"'] + s@ + seq!['"'],
{
    format!("{:?}", s)
}

/// The `{:?}` form of a string: quoted, with special characters escaped.
pub fn debug_text(s: &str) -> (r: String)
    ensures
        r@ == debug_quoted(s@),
        plain_printable(s@) ==> r@ == seq!['"'] + s@ + seq!['"'],
{
    debug_str(s)
}

/// The text of an MQTT payload: the characters its bytes encode, each
/// invalid UTF-8 sequence replaced by U+FFFD.
pub fn payload_text(payload: &[u8]) -> (s: String)
    ensures
        s@ == utf8_lossy(payload@),
        valid_utf8(payload@) ==> s@ == decode_utf8(payload@),
{
    decode_lossy(payload)
}

} // verus!
