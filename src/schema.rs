//! The schema of an enumeration: each variant with its ordinal, its signed
//! numeric code and its lowercase alias, and the conversions that the generated
//! type performs, stated over that one schema.
use vstd::prelude::*;
use crate::invocation::{views, GenerationRequest, InvocationError};
use crate::text::{
    ascii_lower, chars_of, has_ascii_upper, lemma_ascii_lower_idempotent, lemma_upper_changes,
    lower_chars, string_of,
};

verus! {

/// The largest number of variants: every ordinal must fit in an `i8`.
pub const MAX_VARIANTS: usize = 127;

/// One variant as the generated code sees it.
pub struct VariantSchema {
    pub name: String,
    pub ordinal: u8,
    pub code: i8,
    pub alias: String,
}

/// A type name and its variants, numbered in declaration order.
pub struct EnumSchema {
    pub enum_name: String,
    pub variants: Vec<VariantSchema>,
}

/// The position of the first string at or after `j` equal to an earlier one, or `a.len()`.
pub open spec fn first_dup_from(a: Seq<Seq<char>>, j: int) -> int
    decreases a.len() - j,
{
    if j < 0 || j >= a.len() {
        a.len() as int
    } else if exists|i: int| 0 <= i < j && a[i] == a[j] {
        j
    } else {
        first_dup_from(a, j + 1)
    }
}

/// The lowercase form of each name.
pub open spec fn lower_all(names: Seq<Seq<char>>) -> Seq<Seq<char>> {
    names.map_values(|n: Seq<char>| ascii_lower(n))
}

/// What building a schema from these variant names gives: at least one and at
/// most `MAX_VARIANTS` variants, whose lowercase forms are pairwise distinct.
pub open spec fn build_spec(names: Seq<Seq<char>>) -> Result<(), InvocationError> {
    let d = first_dup_from(lower_all(names), 0);
    if names.len() == 0 {
        Err(InvocationError::NoVariants)
    } else if names.len() > MAX_VARIANTS {
        Err(InvocationError::TooManyVariants)
    } else if d < names.len() {
        Err(InvocationError::DuplicateVariant(d as usize))
    } else {
        Ok(())
    }
}

impl EnumSchema {
    pub open spec fn len(&self) -> nat {
        self.variants@.len()
    }

    pub open spec fn name_at(&self, i: int) -> Seq<char> {
        self.variants@[i].name@
    }

    pub open spec fn alias_at(&self, i: int) -> Seq<char> {
        self.variants@[i].alias@
    }

    pub open spec fn code_at(&self, i: int) -> i8 {
        self.variants@[i].code
    }

    pub open spec fn names(&self) -> Seq<Seq<char>> {
        self.variants@.map_values(|v: VariantSchema| v.name@)
    }

    /// Between one and `MAX_VARIANTS` variants; each numbered by its position,
    /// both as ordinal and as code; each alias the lowercase name; no two aliases equal.
    pub open spec fn wf(&self) -> bool {
        &&& 1 <= self.len() <= MAX_VARIANTS
        &&& forall|i: int|
            #![trigger self.variants@[i]]
            0 <= i < self.len() ==> {
                &&& self.variants@[i].ordinal as int == i
                &&& self.variants@[i].code as int == i
                &&& self.variants@[i].alias@ == ascii_lower(self.variants@[i].name@)
            }
        &&& forall|i: int, j: int|
            0 <= i < j < self.len() ==> #[trigger] self.alias_at(i) != #[trigger] self.alias_at(j)
    }

    /// The variant whose code is `c`, as the integer-to-enum conversion finds it.
    pub open spec fn lookup_code(&self, c: i8) -> Option<usize> {
        if 0 <= c < self.len() {
            Some(c as usize)
        } else {
            None
        }
    }

    /// Whether structured input `s` names variant `i`: its declared or its lowercase spelling.
    pub open spec fn accepts(&self, i: int, s: Seq<char>) -> bool {
        s == self.name_at(i) || s == self.alias_at(i)
    }

    /// Numbers the variants of a request in declaration order and derives their aliases.
    pub fn build(req: &GenerationRequest) -> (r: Result<EnumSchema, InvocationError>)
        ensures
            match build_spec(views(req.variants@)) {
                Ok(_) => r is Ok && r->Ok_0.wf() && r->Ok_0.enum_name@ == req.enum_name@
                    && r->Ok_0.names() == views(req.variants@),
                Err(e) => r == Err::<EnumSchema, InvocationError>(e),
            },
    {
        let n = req.variants.len();
        if n == 0 {
            return Err(InvocationError::NoVariants);
        }
        if n > MAX_VARIANTS {
            return Err(InvocationError::TooManyVariants);
        }
        let ghost names = views(req.variants@);
        let ghost lowers = lower_all(names);
        let mut variants: Vec<VariantSchema> = Vec::new();
        let mut j: usize = 0;
        while j < n
            invariant
                n == req.variants.len(),
                1 <= n <= MAX_VARIANTS,
                j <= n,
                names == views(req.variants@),
                lowers == lower_all(names),
                first_dup_from(lowers, 0) == first_dup_from(lowers, j as int),
                variants.len() == j,
                names.len() == n,
                lowers.len() == n,
                forall|i: int|
                    #![trigger variants@[i]]
                    0 <= i < j ==> {
                        &&& variants@[i].ordinal as int == i
                        &&& variants@[i].code as int == i
                        &&& variants@[i].name@ == names[i]
                        &&& variants@[i].alias@ == lowers[i]
                    },
                forall|a: int, b: int| 0 <= a < b < j ==> lowers[a] != lowers[b],
            decreases n - j,
        {
            let name_chars = chars_of(req.variants[j].as_str());
            let alias = string_of(&lower_chars(&name_chars));
            assert(alias@ == lowers[j as int]);
            let mut i: usize = 0;
            while i < j
                invariant
                    j < n,
                    i <= j,
                    n == req.variants.len(),
                    1 <= n <= MAX_VARIANTS,
                    names == views(req.variants@),
                    lowers == lower_all(names),
                    first_dup_from(lowers, 0) == first_dup_from(lowers, j as int),
                    lowers.len() == n,
                    variants.len() == j,
                    alias@ == lowers[j as int],
                    forall|k: int| #![trigger variants@[k]] 0 <= k < j ==> variants@[k].alias@ == lowers[k],
                    forall|k: int| 0 <= k < i ==> lowers[k] != lowers[j as int],
                decreases j - i,
            {
                if variants[i].alias == alias {
                    assert(0 <= i < j && lowers[i as int] == lowers[j as int]);
                    assert(first_dup_from(lowers, j as int) == j);
                    return Err(InvocationError::DuplicateVariant(j));
                }
                i = i + 1;
            }
            assert(!(exists|k: int| 0 <= k < j && lowers[k] == lowers[j as int]));
            let name = string_of(&name_chars);
            assert(name@ == names[j as int]);
            variants.push(VariantSchema { name, ordinal: j as u8, code: j as i8, alias });
            j = j + 1;
        }
        assert(first_dup_from(lowers, n as int) == n);
        let r = EnumSchema { enum_name: req.enum_name.clone(), variants };
        assert(r.names() =~= views(req.variants@)) by {
            assert forall|k: int| 0 <= k < n implies #[trigger] r.names()[k] == views(req.variants@)[k] by {
                assert(r.variants@[k].name@ == names[k]);
            }
        }
        Ok(r)
    }

    /// The numeric code of variant `i`: its ordinal.
    pub fn code_of(&self, i: usize) -> (r: i8)
        requires
            self.wf(),
            i < self.len(),
        ensures
            r == self.code_at(i as int),
            r as int == i,
    {
        self.variants[i].code
    }

    /// The variant with numeric code `c`, or `None` when no variant has it.
    pub fn variant_of_code(&self, c: i8) -> (r: Option<usize>)
        requires
            self.wf(),
        ensures
            r == self.lookup_code(c),
    {
        let mut i: usize = 0;
        while i < self.variants.len()
            invariant
                self.wf(),
                i <= self.len(),
                c < 0 || c as int >= i,
            decreases self.len() - i,
        {
            if self.variants[i].code == c {
                return Some(i);
            }
            i = i + 1;
        }
        None
    }

    /// The string label of variant `i`: its lowercase alias.
    pub fn to_str(&self, i: usize) -> (r: String)
        requires
            self.wf(),
            i < self.len(),
        ensures
            r@ == self.alias_at(i as int),
            r@ == ascii_lower(self.name_at(i as int)),
    {
        self.variants[i].alias.clone()
    }

    /// The display form of variant `i`: its declared name.
    pub fn display(&self, i: usize) -> (r: String)
        requires
            self.wf(),
            i < self.len(),
        ensures
            r@ == self.name_at(i as int),
    {
        self.variants[i].name.clone()
    }

    /// The variant that structured input `s` names, by its declared or its
    /// lowercase spelling; `None` when it names none.
    pub fn deserialize(&self, s: &str) -> (r: Option<usize>)
        requires
            self.wf(),
        ensures
            match r {
                Some(i) => i < self.len() && self.accepts(i as int, s@)
                    && forall|k: int| 0 <= k < i ==> !self.accepts(k, s@),
                None => forall|k: int| 0 <= k < self.len() ==> !self.accepts(k, s@),
            },
    {
        let text = string_of(&chars_of(s));
        let mut i: usize = 0;
        while i < self.variants.len()
            invariant
                self.wf(),
                i <= self.len(),
                text@ == s@,
                forall|k: int| 0 <= k < i ==> !self.accepts(k, s@),
            decreases self.len() - i,
        {
            if self.variants[i].name == text || self.variants[i].alias == text {
                return Some(i);
            }
            i = i + 1;
        }
        None
    }
}

/// Every variant's code leads back to that variant: the enum-to-integer
/// conversion gives the position, and the integer-to-enum conversion of that
/// position gives the variant again.
pub proof fn lemma_code_round_trip(s: &EnumSchema, i: int)
    requires
        s.wf(),
        0 <= i < s.len(),
    ensures
        s.code_at(i) as int == i,
        s.lookup_code(s.code_at(i)) == Some(i as usize),
{
}

/// A code outside `[0, len)` names no variant.
pub proof fn lemma_unknown_code_rejected(s: &EnumSchema, c: i8)
    requires
        s.wf(),
        c < 0 || c >= s.len(),
    ensures
        s.lookup_code(c) is None,
{
}

/// The string label is the lowercase name and the display form is the name as
/// declared; the two differ whenever the name holds an uppercase ASCII letter.
pub proof fn lemma_label_casing(s: &EnumSchema, i: int)
    requires
        s.wf(),
        0 <= i < s.len(),
    ensures
        s.alias_at(i) == ascii_lower(s.name_at(i)),
        has_ascii_upper(s.name_at(i)) ==> s.alias_at(i) != s.name_at(i),
{
    if has_ascii_upper(s.name_at(i)) {
        lemma_upper_changes(s.name_at(i));
    }
}

/// The declared spelling and the lowercase spelling of a variant are each
/// accepted for that variant and for no other.
pub proof fn lemma_spellings_select_one(s: &EnumSchema, i: int, j: int)
    requires
        s.wf(),
        0 <= i < s.len(),
        0 <= j < s.len(),
    ensures
        s.accepts(j, s.name_at(i)) <==> j == i,
        s.accepts(j, s.alias_at(i)) <==> j == i,
{
    lemma_ascii_lower_idempotent(s.name_at(i));
    lemma_ascii_lower_idempotent(s.name_at(j));
    assert(s.variants@[i].ordinal as int == i);
    assert(s.variants@[j].ordinal as int == j);
    if j != i {
        if i < j {
            assert(s.alias_at(i) != s.alias_at(j));
        } else {
            assert(s.alias_at(j) != s.alias_at(i));
        }
    }
}

} // verus!
