//! Reading an invocation `Name( A, B, C )` (or `Name { A, B, C }`) into a type
//! name and an ordered list of variant names.
use vstd::prelude::*;
use crate::text::{chars_of, is_space, string_of, trim, trim_chars};

verus! {

/// Why an invocation cannot produce an enumeration.
#[derive(Debug, Clone, Copy, PartialEq, Eq, Structural)]
pub enum InvocationError {
    /// The text holds nothing but whitespace.
    Empty,
    /// No opening `(` or `{`, or the text does not end with the matching closer.
    MissingDelimiter,
    /// The type name is not an identifier.
    BadTypeName,
    /// The variant at this position is not an identifier.
    BadVariant(usize),
    /// No variant at all.
    NoVariants,
    /// More variants than a signed byte can number.
    TooManyVariants,
    /// The variant at this position has the same lowercase spelling as an earlier one.
    DuplicateVariant(usize),
}

/// A type name and its variant names, in declaration order.
pub struct GenerationRequest {
    pub enum_name: String,
    pub variants: Vec<String>,
}

pub open spec fn views(v: Seq<String>) -> Seq<Seq<char>> {
    v.map_values(|s: String| s@)
}

impl GenerationRequest {
    pub open spec fn view(&self) -> (Seq<char>, Seq<Seq<char>>) {
        (self.enum_name@, views(self.variants@))
    }
}

pub open spec fn is_open(c: char) -> bool {
    c == '(' || c == '{'
}

pub open spec fn closer_of(c: char) -> char {
    if c == '(' { ')' } else { '}' }
}

/// The position of the first opening delimiter at or after `i`, or `s.len()`.
pub open spec fn open_from(s: Seq<char>, i: int) -> int
    decreases s.len() - i,
{
    if i >= s.len() {
        s.len() as int
    } else if is_open(s[i]) {
        i
    } else {
        open_from(s, i + 1)
    }
}

/// The pieces of `s` between commas, in order; `s` without commas is one piece.
pub open spec fn split_commas(s: Seq<char>) -> Seq<Seq<char>>
    decreases s.len(),
{
    if s.len() == 0 {
        seq![Seq::empty()]
    } else {
        let p = split_commas(s.drop_last());
        if s.last() == ',' {
            p.push(Seq::empty())
        } else {
            p.update(p.len() - 1, p.last().push(s.last()))
        }
    }
}

/// The grammar of an invocation, before any identifier is checked: the trimmed
/// text up to the first `(` or `{` is the type name, the text must end with the
/// matching `)` or `}`, and what lies between is split at commas, each piece trimmed.
pub open spec fn split_spec(text: Seq<char>) -> Result<(Seq<char>, Seq<Seq<char>>), InvocationError> {
    let b = trim(text);
    let k = open_from(b, 0);
    if b.len() == 0 {
        Err(InvocationError::Empty)
    } else if k >= b.len() || b.last() != closer_of(b[k]) {
        Err(InvocationError::MissingDelimiter)
    } else {
        Ok(
            (
                trim(b.subrange(0, k)),
                split_commas(b.subrange(k + 1, b.len() - 1)).map_values(|p: Seq<char>| trim(p)),
            ),
        )
    }
}

/// The characters of `v` from `lo` up to `hi`.
fn slice_chars(v: &Vec<char>, lo: usize, hi: usize) -> (r: Vec<char>)
    requires
        lo <= hi <= v.len(),
    ensures
        r@ == v@.subrange(lo as int, hi as int),
{
    let mut r: Vec<char> = Vec::new();
    let mut k: usize = lo;
    while k < hi
        invariant
            lo <= k <= hi <= v.len(),
            r@ == v@.subrange(lo as int, k as int),
        decreases hi - k,
    {
        r.push(v[k]);
        k = k + 1;
        assert(r@ =~= v@.subrange(lo as int, k as int));
    }
    r
}

/// The pieces of `s` between commas.
fn split_at_commas(s: &Vec<char>) -> (r: Vec<Vec<char>>)
    ensures
        r.len() == split_commas(s@).len(),
        forall|j: int| 0 <= j < r.len() ==> #[trigger] r[j]@ == split_commas(s@)[j],
{
    let mut pieces: Vec<Vec<char>> = Vec::new();
    let mut cur: Vec<char> = Vec::new();
    let mut i: usize = 0;
    assert(s@.take(0) =~= Seq::<char>::empty());
    while i < s.len()
        invariant
            i <= s.len(),
            split_commas(s@.take(i as int)).len() == pieces.len() + 1,
            forall|j: int|
                0 <= j < pieces.len() ==> #[trigger] pieces[j]@ == split_commas(s@.take(i as int))[j],
            cur@ == split_commas(s@.take(i as int))[pieces.len() as int],
        decreases s.len() - i,
    {
        let ghost before = split_commas(s@.take(i as int));
        let c = s[i];
        assert(s@.take(i + 1).drop_last() =~= s@.take(i as int));
        if c == ',' {
            pieces.push(cur);
            cur = Vec::new();
        } else {
            cur.push(c);
        }
        i = i + 1;
        assert(split_commas(s@.take(i as int)).len() == pieces.len() + 1);
        assert forall|j: int| 0 <= j < pieces.len() implies #[trigger] pieces[j]@
            == split_commas(s@.take(i as int))[j] by {
            if c != ',' {
                assert(j < before.len() - 1);
            }
        }
    }
    assert(s@.take(s.len() as int) =~= s@);
    pieces.push(cur);
    pieces
}

/// Splits an invocation into its trimmed type name and trimmed variant pieces,
/// checking only the delimiters.
pub fn split_invocation(text: &str) -> (r: Result<GenerationRequest, InvocationError>)
    ensures
        match split_spec(text@) {
            Ok(v) => r is Ok && r->Ok_0@ == v,
            Err(e) => r == Err::<GenerationRequest, InvocationError>(e),
        },
{
    let chars = chars_of(text);
    let b = trim_chars(&chars);
    if b.len() == 0 {
        return Err(InvocationError::Empty);
    }
    let mut k: usize = 0;
    while k < b.len() && !(b[k] == '(' || b[k] == '{')
        invariant
            k <= b.len(),
            open_from(b@, 0) == open_from(b@, k as int),
        decreases b.len() - k,
    {
        k = k + 1;
    }
    if k >= b.len() {
        return Err(InvocationError::MissingDelimiter);
    }
    let closer = if b[k] == '(' { ')' } else { '}' };
    if b[b.len() - 1] != closer {
        return Err(InvocationError::MissingDelimiter);
    }
    let name_chars = trim_chars(&slice_chars(&b, 0, k));
    let enum_name = string_of(&name_chars);
    let inner = slice_chars(&b, k + 1, b.len() - 1);
    let pieces = split_at_commas(&inner);
    let ghost ps = split_commas(inner@).map_values(|p: Seq<char>| trim(p));
    let mut variants: Vec<String> = Vec::new();
    let mut i: usize = 0;
    while i < pieces.len()
        invariant
            i <= pieces.len(),
            ps == split_commas(inner@).map_values(|p: Seq<char>| trim(p)),
            pieces.len() == ps.len(),
            ps.len() == split_commas(inner@).len(),
            forall|j: int| 0 <= j < pieces.len() ==> #[trigger] pieces[j]@ == split_commas(inner@)[j],
            views(variants@) == ps.take(i as int),
        decreases pieces.len() - i,
    {
        let t = trim_chars(&pieces[i]);
        let s = string_of(&t);
        assert(ps[i as int] == t@);
        let ghost old_variants = variants@;
        let ghost sv = s@;
        variants.push(s);
        assert(views(variants@) =~= views(old_variants).push(sv));
        i = i + 1;
        assert(views(variants@) =~= ps.take(i as int));
    }
    assert(ps.take(ps.len() as int) =~= ps);
    Ok(GenerationRequest { enum_name, variants })
}

pub open spec fn is_word_char(c: char) -> bool {
    ('a' <= c && c <= 'z') || ('A' <= c && c <= 'Z') || ('0' <= c && c <= '9') || c == '_'
}

/// A non-empty run of ASCII letters, digits and underscores.
pub open spec fn is_word(s: Seq<char>) -> bool {
    s.len() > 0 && forall|i: int| 0 <= i < s.len() ==> is_word_char(#[trigger] s[i])
}

/// The words that syn refuses as identifiers.
pub open spec fn is_keyword(s: Seq<char>) -> bool {
    s == "_"@ || s == "abstract"@ || s == "as"@ || s == "async"@ || s == "await"@
        || s == "become"@ || s == "box"@ || s == "break"@ || s == "const"@ || s == "continue"@
        || s == "crate"@ || s == "do"@ || s == "dyn"@ || s == "else"@ || s == "enum"@
        || s == "extern"@ || s == "false"@ || s == "final"@ || s == "fn"@ || s == "for"@
        || s == "if"@ || s == "impl"@ || s == "in"@ || s == "let"@ || s == "loop"@
        || s == "macro"@ || s == "match"@ || s == "mod"@ || s == "move"@ || s == "mut"@
        || s == "override"@ || s == "priv"@ || s == "pub"@ || s == "ref"@ || s == "return"@
        || s == "Self"@ || s == "self"@ || s == "static"@ || s == "struct"@ || s == "super"@
        || s == "trait"@ || s == "true"@ || s == "try"@ || s == "type"@ || s == "typeof"@
        || s == "unsafe"@ || s == "unsized"@ || s == "use"@ || s == "virtual"@ || s == "where"@
        || s == "while"@ || s == "yield"@
}

/// An identifier of the generated code: an ASCII word that does not start with
/// a digit and is not a keyword.
pub open spec fn ident_word(s: Seq<char>) -> bool {
    is_word(s) && !('0' <= s[0] && s[0] <= '9') && !is_keyword(s)
}

/// Relies on `syn::parse_str::<syn::Ident>`: on an ASCII word, either lexer that
/// proc-macro2 picks yields one identifier token exactly when the word does not
/// start with a digit, and syn then refuses `_` and its list of keywords.
#[verifier::external_body]
fn syn_accepts_ident(s: &str) -> (r: bool)
    requires
        is_word(s@),
    ensures
        r == (!('0' <= s@[0] && s@[0] <= '9') && !is_keyword(s@)),
{
    syn::parse_str::<syn::Ident>(s).is_ok()
}

/// Whether `s` may name the type or a variant.
fn is_ident(s: &String) -> (r: bool)
    ensures
        r == ident_word(s@),
{
    let chars = chars_of(s.as_str());
    if chars.len() == 0 {
        return false;
    }
    let mut i: usize = 0;
    while i < chars.len()
        invariant
            i <= chars.len(),
            chars@ == s@,
            forall|k: int| 0 <= k < i ==> is_word_char(#[trigger] s@[k]),
        decreases chars.len() - i,
    {
        let c = chars[i];
        if !(('a' <= c && c <= 'z') || ('A' <= c && c <= 'Z') || ('0' <= c && c <= '9') || c
            == '_') {
            return false;
        }
        i = i + 1;
    }
    syn_accepts_ident(s.as_str())
}

/// The position of the first name at or after `i` that is not an identifier, or `names.len()`.
pub open spec fn first_bad_from(names: Seq<Seq<char>>, i: int) -> int
    decreases names.len() - i,
{
    if i >= names.len() {
        names.len() as int
    } else if !ident_word(names[i]) {
        i
    } else {
        first_bad_from(names, i + 1)
    }
}

/// An invocation read in full: the grammar, then the type name and each variant
/// must be an identifier (an ASCII word, so no whitespace, comment or punctuation
/// reaches the generated code), the first one that is not being reported.
pub open spec fn parse_spec(text: Seq<char>) -> Result<(Seq<char>, Seq<Seq<char>>), InvocationError> {
    match split_spec(text) {
        Err(e) => Err(e),
        Ok(v) => if !ident_word(v.0) {
            Err(InvocationError::BadTypeName)
        } else if first_bad_from(v.1, 0) < v.1.len() {
            Err(InvocationError::BadVariant(first_bad_from(v.1, 0) as usize))
        } else {
            Ok(v)
        },
    }
}

/// Reads an invocation into a generation request.
pub fn parse_invocation(text: &str) -> (r: Result<GenerationRequest, InvocationError>)
    ensures
        match parse_spec(text@) {
            Ok(v) => r is Ok && r->Ok_0@ == v,
            Err(e) => r == Err::<GenerationRequest, InvocationError>(e),
        },
{
    let req = match split_invocation(text) {
        Ok(req) => req,
        Err(e) => return Err(e),
    };
    if !is_ident(&req.enum_name) {
        return Err(InvocationError::BadTypeName);
    }
    let ghost names = views(req.variants@);
    let mut i: usize = 0;
    while i < req.variants.len()
        invariant
            i <= req.variants.len(),
            names == views(req.variants@),
            split_spec(text@) is Ok,
            split_spec(text@)->Ok_0 == req@,
            ident_word(req.enum_name@),
            first_bad_from(names, 0) == first_bad_from(names, i as int),
        decreases req.variants.len() - i,
    {
        assert(names[i as int] == req.variants[i as int]@);
        if !is_ident(&req.variants[i]) {
            return Err(InvocationError::BadVariant(i));
        }
        i = i + 1;
    }
    Ok(req)
}

} // verus!
