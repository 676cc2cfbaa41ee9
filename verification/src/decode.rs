//! From raw output bytes to the text that patterns are matched against.

use vstd::prelude::*;
use vstd::utf8::*;

verus! {

/// What `strip_ansi_escapes::strip` leaves of `bytes`.
pub uninterp spec fn ansi_stripped(bytes: Seq<u8>) -> Seq<u8>;

/// What `String::from_utf8_lossy` makes of `bytes`.
pub uninterp spec fn lossy_text(bytes: Seq<u8>) -> Seq<char>;

/// How `{:?}` prints the string `s`.
pub uninterp spec fn debug_text(s: Seq<char>) -> Seq<char>;

/// The text of an output line: its escape sequences removed, its bytes read as UTF-8 with
/// replacement characters where they are not.
pub open spec fn line_text(line: Seq<u8>) -> Seq<char> {
    lossy_text(ansi_stripped(line))
}

/// `strip_ansi_escapes::strip`: `bytes` without its ANSI escape sequences, a function of `bytes`
/// alone.
#[verifier::external_body]
fn strip_ansi(bytes: &[u8]) -> (r: Vec<u8>)
    ensures
        r@ == ansi_stripped(bytes@),
{
    strip_ansi_escapes::strip(bytes)
}

/// `String::from_utf8_lossy`: a function of `bytes` alone, which decodes valid UTF-8 unchanged.
#[verifier::external_body]
fn from_utf8_lossy(bytes: &[u8]) -> (r: String)
    ensures
        r@ == lossy_text(bytes@),
        valid_utf8(bytes@) ==> r@ == decode_utf8(bytes@),
{
    String::from_utf8_lossy(bytes).into_owned()
}

/// Whether `s` holds only printable ASCII characters, and neither `"` nor `\`.
pub open spec fn is_plain(s: Seq<char>) -> bool {
    forall|i: int|
        0 <= i < s.len() ==> ' ' <= #[trigger] s[i] && s[i] <= '~' && s[i] != '"' && s[i] != '\\'
}

/// std's `Debug` for `str`: `s` in quotes, with what needs escaping escaped, a function of `s`
/// alone. In printable ASCII nothing needs it but the quote and the backslash.
#[verifier::external_body]
pub(crate) fn debug_string(s: &str) -> (r: String)
    ensures
        r@ == debug_text(s@),
        is_plain(s@) ==> r@ == seq!['"'] + s@ + seq!['"'],
{
    format!("{:?}", s)
}

/// The text of one output line.
pub fn decode_line(line: &[u8]) -> (r: String)
    ensures
        r@ == line_text(line@),
        r@ == lossy_text(ansi_stripped(line@)),
        valid_utf8(ansi_stripped(line@)) ==> r@ == decode_utf8(ansi_stripped(line@)),
{
    let stripped = strip_ansi(line);
    from_utf8_lossy(stripped.as_slice())
}

/// Plain text is built of plain characters: those of printable ASCII, but for the quote and the
/// backslash.
pub proof fn law_plain_text_is_made_of_plain_characters(s: Seq<char>, c: char)
    ensures
        is_plain(Seq::empty()),
        is_plain(s.push(c)) <==> is_plain(s) && ' ' <= c && c <= '~' && c != '"' && c != '\\',
{
    let t = s.push(c);
    if is_plain(t) {
        assert(t[s.len() as int] == c);
        assert forall|i: int| 0 <= i < s.len() implies ' ' <= #[trigger] s[i] && s[i] <= '~' && s[i]
            != '"' && s[i] != '\\' by {
            assert(t[i] == s[i]);
        }
    }
}

/// The text of a line is what its bytes say once the escape sequences are gone.
pub proof fn law_a_lines_text_is_without_escapes(line: Seq<u8>)
    ensures
        line_text(line) == lossy_text(ansi_stripped(line)),
{
}

} // verus!
