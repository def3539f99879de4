//! The header comment, the bytes written to the file, and the `include!`
//! directive handed back to the caller.
use vstd::prelude::*;
use crate::config::comment_header_spec;

verus! {

/// Wraps a comment as the header of the generated file: `/* c */` and a line break.
pub fn comment_header(c: &String) -> (r: String)
    ensures
        r@ == comment_header_spec(c@),
{
    let mut s = String::new();
    s.push('/');
    s.push('*');
    s.push(' ');
    s.append(c.as_str());
    s.push(' ');
    s.push('*');
    s.push('/');
    s.push('\n');
    assert(s@ =~= comment_header_spec(c@));
    s
}

/// A printable ASCII character that no string-literal escaper changes
/// (anything but the quotes and the backslash).
pub open spec fn plain_char(c: char) -> bool {
    &&& ' ' <= c
    &&& c <= '~'
    &&& c != '"'
    &&& c != '\\'
    &&& c != '\''
}

/// `lit` is the text of a string literal for `s`: it is quoted, and where
/// every character of `s` is plain it is `s` between quotes.
pub open spec fn quotes(lit: Seq<char>, s: Seq<char>) -> bool {
    &&& lit.len() >= 2
    &&& lit[0] == '"'
    &&& lit[lit.len() - 1] == '"'
    &&& (forall|i: int| 0 <= i < s.len() ==> plain_char(#[trigger] s[i])) ==> lit == seq!['"'] + s + seq!['"']
}

/// Relies on `proc_macro2::Literal::string` and its `Display`: the text of a
/// string literal whose value is `s`. Both of its escapers (the compiler's
/// inside a procedural macro, its own elsewhere) quote the text and leave
/// plain characters as they are.
#[verifier::external_body]
fn string_literal(s: &str) -> (r: String)
    ensures
        quotes(r@, s@),
{
    proc_macro2::Literal::string(s).to_string()
}

/// `r` is `include!(<lit>);` where `lit` is a string literal for `path`.
pub open spec fn is_include_of(r: Seq<char>, path: Seq<char>) -> bool {
    &&& r.len() >= 11
    &&& r.subrange(0, 9) == seq!['i', 'n', 'c', 'l', 'u', 'd', 'e', '!', '(']
    &&& r.subrange(r.len() - 2, r.len() as int) == seq![')', ';']
    &&& quotes(r.subrange(9, r.len() - 2), path)
}

/// The directive that stands in for the generated text: `include!("<path>");`.
pub fn include_reference(path: &str) -> (r: String)
    ensures
        is_include_of(r@, path@),
{
    let mut s = String::new();
    s.push('i');
    s.push('n');
    s.push('c');
    s.push('l');
    s.push('u');
    s.push('d');
    s.push('e');
    s.push('!');
    s.push('(');
    let ghost head = s@;
    let lit = string_literal(path);
    s.append(lit.as_str());
    s.push(')');
    s.push(';');
    assert(head =~= seq!['i', 'n', 'c', 'l', 'u', 'd', 'e', '!', '(']);
    assert(s@.subrange(0, 9) =~= head);
    assert(s@.subrange(9, s@.len() - 2) =~= lit@);
    assert(s@.subrange(s@.len() - 2, s@.len() as int) =~= seq![')', ';']);
    s
}

/// The UTF-8 bytes of the header, if any.
pub open spec fn header_bytes(header: Option<Seq<char>>) -> Seq<u8> {
    match header {
        Some(h) => vstd::utf8::encode_utf8(h),
        None => Seq::empty(),
    }
}

/// What the generated file holds: the header, if any, then the content.
pub open spec fn file_bytes_spec(header: Option<Seq<char>>, content: Seq<u8>) -> Seq<u8> {
    header_bytes(header) + content
}

/// Lays out the generated file: the header, if any, followed by the content.
pub fn file_bytes(header: &Option<String>, content: &[u8]) -> (r: Vec<u8>)
    ensures
        r@ == file_bytes_spec(
            match header {
                Some(h) => Some(h@),
                None => None,
            },
            content@,
        ),
{
    let mut v: Vec<u8> = Vec::new();
    match header {
        Some(h) => v.extend_from_slice(h.as_str().as_bytes()),
        None => {},
    }
    v.extend_from_slice(content);
    v
}

} // verus!
