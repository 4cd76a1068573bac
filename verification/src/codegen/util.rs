//! Naming conventions shared by the attribute macros.
use vstd::prelude::*;
use crate::text::{decimal, push_char, push_decimal, push_str};

verus! {

/// An identifier without the raw marker `r#`, if it has one.
pub open spec fn spec_unraw(ident: Seq<char>) -> Seq<char> {
    if ident.len() >= 2 && ident[0] == 'r' && ident[1] == '#' {
        ident.skip(2)
    } else {
        ident
    }
}

/// A character, with `_` replaced by `-`.
pub open spec fn hyphen_char(c: char) -> char {
    if c == '_' {
        '-'
    } else {
        c
    }
}

/// The text with every `_` replaced by `-`.
pub open spec fn hyphenate(s: Seq<char>) -> Seq<char> {
    s.map_values(|c: char| hyphen_char(c))
}

/// The Lisp name of a Rust identifier: the identifier without raw marker,
/// with underscores turned into hyphens.
pub open spec fn spec_lisp_name(ident: Seq<char>) -> Seq<char> {
    hyphenate(spec_unraw(ident))
}

/// Strips the raw marker `r#` from the start of an identifier.
pub fn unraw(ident: &str) -> (r: &str)
    ensures
        r@ == spec_unraw(ident@),
{
    let n = ident.unicode_len();
    if n >= 2 && ident.get_char(0) == 'r' && ident.get_char(1) == '#' {
        let r = ident.substring_char(2, n);
        assert(r@ =~= ident@.skip(2));
        r
    } else {
        ident
    }
}

/// Appends `hyphenate(t)` to `s`.
pub fn push_hyphenated(s: &mut String, t: &str)
    ensures
        final(s)@ == old(s)@ + hyphenate(t@),
{
    let n = t.unicode_len();
    let mut i: usize = 0;
    let ghost start = s@;
    while i < n
        invariant
            n == t@.len(),
            i <= n,
            s@ == start + hyphenate(t@.take(i as int)),
        decreases n - i,
    {
        let c = t.get_char(i);
        if c == '_' {
            push_char(s, '-');
        } else {
            push_char(s, c);
        }
        assert(hyphenate(t@.take(i + 1)) =~= hyphenate(t@.take(i as int)).push(hyphen_char(c)));
        i = i + 1;
    }
    assert(t@.take(n as int) =~= t@);
}

/// The Lisp name of a Rust identifier.
pub fn lisp_name(ident: &str) -> (r: String)
    ensures
        r@ == spec_lisp_name(ident@),
{
    let mut s = String::new();
    push_hyphenated(&mut s, unraw(ident));
    assert(Seq::<char>::empty() + hyphenate(spec_unraw(ident@)) =~= spec_lisp_name(ident@));
    s
}

/// The name of the local variable holding the `i`-th argument, `name`
/// followed by `i` in decimal.
pub fn arg(name: &str, i: usize) -> (r: String)
    ensures
        r@ == name@ + decimal(i as nat),
{
    let mut s = String::new();
    push_str(&mut s, name);
    push_decimal(&mut s, i);
    assert(Seq::<char>::empty() + name@ + decimal(i as nat) =~= name@ + decimal(i as nat));
    s
}

/// One element of an attribute's argument list, as far as the macros look
/// at it.
pub enum NestedItem {
    /// A path; `last` is the identifier of its last segment.
    Path { last: String },
    /// A string literal with this value.
    Str(String),
    /// Anything else.
    Other,
}

/// A problem with an attribute's arguments.
#[derive(Clone, Copy, Debug)]
pub enum MetaError {
    /// A problem described by `message`, found at the argument at index `at`.
    Custom { message: &'static str, at: usize },
    /// Fewer arguments than this were given.
    TooFewItems(usize),
    /// More arguments than this were given.
    TooManyItems(usize),
}

/// The Lisp name of an identifier has no underscore, and as many characters
/// as the identifier without its raw marker.
pub proof fn law_lisp_name_has_no_underscore(ident: Seq<char>)
    ensures
        spec_lisp_name(ident).len() == spec_unraw(ident).len(),
        forall|i: int| 0 <= i < spec_lisp_name(ident).len() ==> #[trigger] spec_lisp_name(ident)[i] != '_',
{
}

} // verus!
