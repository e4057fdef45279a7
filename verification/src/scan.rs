//! Pattern matching of status lines, done by the `readformat` crate.

use crate::text::{after, is_ascii_bytes, pair_after};
use vstd::prelude::*;

verus! {

/// A format made of plain ASCII text without braces, then one placeholder.
pub open spec fn one_field(format: Seq<char>) -> bool {
    &&& format.len() >= 2
    &&& format[format.len() - 2] == '{'
    &&& format[format.len() - 1] == '}'
    &&& forall|i: int|
        0 <= i < format.len() - 2 ==> #[trigger] format[i] != '{' && (format[i] as u32) < 128
}

/// A format made of plain ASCII text without braces, then two placeholders
/// with `=` between them.
pub open spec fn two_fields(format: Seq<char>) -> bool {
    &&& format.len() >= 5
    &&& format[format.len() - 5] == '{'
    &&& format[format.len() - 4] == '}'
    &&& format[format.len() - 3] == '='
    &&& format[format.len() - 2] == '{'
    &&& format[format.len() - 1] == '}'
    &&& forall|i: int|
        0 <= i < format.len() - 5 ==> #[trigger] format[i] != '{' && (format[i] as u32) < 128
}

/// `readformat::readf1` on a format of plain text followed by one
/// placeholder: the line matches exactly when it begins with that text, and
/// the placeholder then takes everything after it.
#[verifier::external_body]
pub(crate) fn read_field(format: &str, line: &[u8]) -> (r: Option<Vec<u8>>)
    requires
        one_field(format@),
        is_ascii_bytes(line@),
    ensures
        match r {
            Some(v) => after(line@, format@.take(format@.len() - 2)) == Some(v@),
            None => after(line@, format@.take(format@.len() - 2)) is None,
        },
{
    let text: String = line.iter().map(|b| *b as char).collect();
    readformat::readf1(format, &text).map(|v| v.into_bytes())
}

/// `readformat::readf` on a format of plain text followed by two placeholders
/// around `=`: the line matches exactly when it begins with that text and an
/// `=` follows somewhere; the first placeholder takes what stands before the
/// first `=`, the second everything after it.
#[verifier::external_body]
pub(crate) fn read_pair(format: &str, line: &[u8]) -> (r: Option<(Vec<u8>, Vec<u8>)>)
    requires
        two_fields(format@),
        is_ascii_bytes(line@),
    ensures
        match r {
            Some((a, b)) => pair_after(line@, format@.take(format@.len() - 5)) == Some((a@, b@)),
            None => pair_after(line@, format@.take(format@.len() - 5)) is None,
        },
{
    let text: String = line.iter().map(|b| *b as char).collect();
    let mut fields = readformat::readf(format, &text)?.into_iter();
    Some((fields.next()?.into_bytes(), fields.next()?.into_bytes()))
}

} // verus!
