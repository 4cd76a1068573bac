//! The `module` attribute: the options of a module's initialization
//! function, and the name of the feature the module provides.
use vstd::prelude::*;
use crate::codegen::util::{hyphen_char, hyphenate, lisp_name, spec_lisp_name, MetaError, NestedItem};
use crate::text::{push_char, text_eq};

verus! {

/// Where the name of the provided feature comes from.
pub enum Name {
    /// The crate's name.
    Crate,
    /// The initialization function's name.
    Fn,
    /// The given name.
    Str(String),
}

/// The name option that a list of arguments gives.
pub open spec fn is_name_from_list(items: Seq<NestedItem>, r: Result<Name, MetaError>) -> bool {
    if items.len() == 0 {
        r == Err::<Name, MetaError>(MetaError::TooFewItems(1))
    } else if items.len() == 1 {
        match items[0] {
            NestedItem::Path { last } => if last@ == "fn"@ {
                r == Ok::<Name, MetaError>(Name::Fn)
            } else if last@ == "crate"@ {
                r == Ok::<Name, MetaError>(Name::Crate)
            } else {
                r == Err::<Name, MetaError>(MetaError::Custom { message: "Expected crate/fn", at: 0 })
            },
            NestedItem::Str(v) => r matches Ok(Name::Str(s)) && s@ == v@,
            NestedItem::Other => r == Err::<Name, MetaError>(
                MetaError::Custom { message: "Expected crate/fn or a string", at: 0 },
            ),
        }
    } else {
        r == Err::<Name, MetaError>(MetaError::TooManyItems(1))
    }
}

impl Name {
    /// The default: the crate's name.
    pub fn default() -> (n: Name)
        ensures
            n == Name::Crate,
    {
        Name::Crate
    }

    /// The name option given as `name(fn)`, `name(crate)` or `name("feature")`.
    pub fn from_list(outer: &Vec<NestedItem>) -> (r: Result<Name, MetaError>)
        ensures
            is_name_from_list(outer@, r),
    {
        if outer.len() == 0 {
            Err(MetaError::TooFewItems(1))
        } else if outer.len() == 1 {
            match &outer[0] {
                NestedItem::Path { last } => {
                    if text_eq(last.as_str(), "fn") {
                        Ok(Name::Fn)
                    } else if text_eq(last.as_str(), "crate") {
                        Ok(Name::Crate)
                    } else {
                        Err(MetaError::Custom { message: "Expected crate/fn", at: 0 })
                    }
                },
                NestedItem::Str(v) => Ok(Name::Str(v.clone())),
                NestedItem::Other => Err(MetaError::Custom { message: "Expected crate/fn or a string", at: 0 }),
            }
        } else {
            Err(MetaError::TooManyItems(1))
        }
    }

    /// The name option given as `name = "feature"`.
    pub fn from_string(lit: &str) -> (r: Result<Name, MetaError>)
        ensures
            r matches Ok(Name::Str(s)) && s@ == lit@,
    {
        Ok(Name::Str(crate::call::string_of(lit)))
    }
}

/// The options of the `module` attribute.
pub struct ModuleOpts {
    /// The name of the feature that the module provides.
    pub name: Name,
}

/// A module's initialization function.
pub struct Module {
    /// The name of the initialization function.
    pub hook: String,
    pub opts: ModuleOpts,
}

/// The feature that a module provides.
pub enum Feature {
    /// The crate's name, worked out from the module path with
    /// `crate_feature_name`.
    CratePath,
    /// This name.
    Literal(String),
}

/// The characters of `s` before its first `:`.
pub open spec fn before_colon(s: Seq<char>) -> Seq<char>
    decreases s.len(),
{
    if s.len() == 0 {
        s
    } else if s[0] == ':' {
        seq![]
    } else {
        seq![s[0]] + before_colon(s.drop_first())
    }
}

/// The feature named after a crate: the first segment of a module path,
/// with underscores turned into hyphens.
pub open spec fn spec_crate_feature_name(path: Seq<char>) -> Seq<char> {
    hyphenate(before_colon(path))
}

/// The feature named after the crate whose module path is `path`:
/// `my_crate::sub` gives `my-crate`.
pub fn crate_feature_name(path: &str) -> (r: String)
    ensures
        r@ == spec_crate_feature_name(path@),
{
    let n = path.unicode_len();
    let mut buf = String::new();
    let mut i: usize = 0;
    assert(path@.skip(0) =~= path@);
    assert(buf@ + hyphenate(before_colon(path@)) =~= hyphenate(before_colon(path@)));
    while i < n
        invariant
            n == path@.len(),
            i <= n,
            buf@ + hyphenate(before_colon(path@.skip(i as int))) == hyphenate(before_colon(path@)),
        decreases n - i,
    {
        let c = path.get_char(i);
        let ghost rest = path@.skip(i as int);
        assert(rest[0] == c);
        assert(rest.drop_first() =~= path@.skip(i + 1));
        if c == ':' {
            assert(before_colon(rest) =~= Seq::<char>::empty());
            assert(hyphenate(Seq::<char>::empty()) =~= Seq::<char>::empty());
            assert(buf@ + Seq::<char>::empty() =~= buf@);
            return buf;
        }
        let ghost before = buf@;
        push_char(&mut buf, hyphen_char_exec(c));
        assert(hyphenate(seq![c] + before_colon(path@.skip(i + 1))) =~= seq![hyphen_char(c)] + hyphenate(
            before_colon(path@.skip(i + 1)),
        ));
        assert(before + hyphenate(before_colon(rest)) =~= buf@ + hyphenate(before_colon(path@.skip(i + 1))));
        i = i + 1;
    }
    assert(path@.skip(n as int) =~= Seq::<char>::empty());
    assert(hyphenate(Seq::<char>::empty()) =~= Seq::<char>::empty());
    assert(buf@ + Seq::<char>::empty() =~= buf@);
    buf
}

fn hyphen_char_exec(c: char) -> (r: char)
    ensures
        r == hyphen_char(c),
{
    if c == '_' {
        '-'
    } else {
        c
    }
}

impl Module {
    /// Takes in a module's initialization function named `hook`, with its
    /// options.
    pub fn parse(opts: ModuleOpts, hook: String) -> (m: Module)
        ensures
            m.hook == hook,
            m.opts == opts,
    {
        Module { hook, opts }
    }

    /// The feature that the module provides once initialized: the crate's
    /// name by default, or the initialization function's Lisp name, or the
    /// given name.
    pub fn feature(&self) -> (f: Feature)
        ensures
            match self.opts.name {
                Name::Crate => f is CratePath,
                Name::Fn => f matches Feature::Literal(s) && s@ == spec_lisp_name(self.hook@),
                Name::Str(n) => f matches Feature::Literal(s) && s@ == n@,
            },
    {
        match &self.opts.name {
            Name::Crate => Feature::CratePath,
            Name::Str(name) => Feature::Literal(name.clone()),
            Name::Fn => Feature::Literal(lisp_name(self.hook.as_str())),
        }
    }
}

proof fn lemma_before_colon(s: Seq<char>)
    ensures
        forall|i: int| 0 <= i < before_colon(s).len() ==> #[trigger] before_colon(s)[i] != ':',
    decreases s.len(),
{
    if s.len() > 0 && s[0] != ':' {
        lemma_before_colon(s.drop_first());
        let t = before_colon(s.drop_first());
        assert forall|i: int| 0 <= i < before_colon(s).len() implies #[trigger] before_colon(s)[i] != ':' by {
            if i > 0 {
                assert(before_colon(s)[i] == t[i - 1]);
            }
        }
    }
}

/// The feature named after a crate is a single path segment: it holds
/// neither `:` nor `_`.
pub proof fn law_crate_feature_is_one_segment(path: Seq<char>)
    ensures
        forall|i: int| 0 <= i < spec_crate_feature_name(path).len() ==> {
            &&& #[trigger] spec_crate_feature_name(path)[i] != ':'
            &&& spec_crate_feature_name(path)[i] != '_'
        },
{
    lemma_before_colon(path);
    assert forall|i: int| 0 <= i < spec_crate_feature_name(path).len() implies {
        &&& #[trigger] spec_crate_feature_name(path)[i] != ':'
        &&& spec_crate_feature_name(path)[i] != '_'
    } by {
        assert(spec_crate_feature_name(path)[i] == hyphen_char(before_colon(path)[i]));
    }
}

proof fn lemma_before_colon_prefix(s: Seq<char>)
    ensures
        before_colon(s).len() <= s.len(),
        forall|i: int| 0 <= i < before_colon(s).len() ==> #[trigger] before_colon(s)[i] == s[i],
        before_colon(s).len() < s.len() ==> s[before_colon(s).len() as int] == ':',
    decreases s.len(),
{
    if s.len() > 0 && s[0] != ':' {
        let t = s.drop_first();
        lemma_before_colon_prefix(t);
        assert forall|i: int| 0 <= i < before_colon(s).len() implies #[trigger] before_colon(s)[i] == s[i] by {
            if i > 0 {
                assert(before_colon(s)[i] == before_colon(t)[i - 1]);
                assert(t[i - 1] == s[i]);
            }
        }
        if before_colon(s).len() < s.len() {
            assert(t[before_colon(t).len() as int] == s[before_colon(s).len() as int]);
        }
    }
}

/// The feature named after a crate is the module path up to its first `:`
/// (all of it, if it has none), each `_` turned into `-` and every other
/// character kept: it is as long as the path's first segment, and where it
/// stops short of the path's end, the path has a `:`.
pub proof fn law_crate_feature_is_first_segment(path: Seq<char>)
    ensures
        spec_crate_feature_name(path).len() <= path.len(),
        forall|i: int| 0 <= i < spec_crate_feature_name(path).len() ==> #[trigger] path[i] != ':',
        forall|i: int|
            0 <= i < spec_crate_feature_name(path).len() ==> #[trigger] spec_crate_feature_name(path)[i] == (
            if path[i] == '_' {
                '-'
            } else {
                path[i]
            }),
        spec_crate_feature_name(path).len() < path.len() ==> path[spec_crate_feature_name(path).len() as int] == ':',
        (forall|i: int| 0 <= i < path.len() ==> path[i] != ':') ==> spec_crate_feature_name(path).len() == path.len(),
{
    lemma_before_colon_prefix(path);
    lemma_before_colon(path);
    let b = before_colon(path);
    assert(spec_crate_feature_name(path).len() == b.len());
    assert forall|i: int| 0 <= i < spec_crate_feature_name(path).len() implies #[trigger] path[i] != ':' by {
        assert(b[i] == path[i]);
        assert(b[i] != ':');
    }
    assert forall|i: int| 0 <= i < spec_crate_feature_name(path).len() implies #[trigger] spec_crate_feature_name(
        path,
    )[i] == (if path[i] == '_' { '-' } else { path[i] }) by {
        assert(b[i] == path[i]);
        assert(spec_crate_feature_name(path)[i] == hyphen_char(b[i]));
    }
}

} // verus!
