//! Rendering a schema as Rust source: the enumeration, its conversions to and
//! from `i8` and `&'static str`, a `to_str` accessor and its display form.
use vstd::prelude::*;
use crate::schema::EnumSchema;
use crate::text::{ascii_lower, decimal, decimal_text};

verus! {

/// The kinds of match arm that the generated code holds, one per variant each.
#[derive(Debug, Clone, Copy, PartialEq, Eq, Structural)]
pub enum ArmKind {
    /// A case of the enumeration, with both accepted spellings as serde aliases.
    Case,
    /// `Name::V => code`, from enumeration to integer.
    IntoCode,
    /// `code => Name::V`, from integer to enumeration.
    FromCode,
    /// `Name::V => "alias"`, from enumeration to string label.
    IntoLabel,
    /// `Name::V => f.write_str("V")`, the display form.
    Render,
}

/// The text of one arm for the variant `name` at position `i` of type `tn`.
pub open spec fn arm(kind: ArmKind, tn: Seq<char>, name: Seq<char>, i: nat) -> Seq<char> {
    match kind {
        ArmKind::Case => "    #[serde(alias = \""@ + name + "\", alias = \""@ + ascii_lower(name)
            + "\")]\n    "@ + name + " = "@ + decimal(i) + "u8,\n"@,
        ArmKind::IntoCode => "            "@ + tn + "::"@ + name + " => "@ + decimal(i) + "i8,\n"@,
        ArmKind::FromCode => "            "@ + decimal(i) + "i8 => "@ + tn + "::"@ + name + ",\n"@,
        ArmKind::IntoLabel => "            "@ + tn + "::"@ + name + " => \""@ + ascii_lower(name)
            + "\",\n"@,
        ArmKind::Render => "            "@ + tn + "::"@ + name + " => f.write_str(\""@ + name
            + "\"),\n"@,
    }
}

/// The arms of the first `n` variants, in declaration order.
pub open spec fn arms(kind: ArmKind, tn: Seq<char>, names: Seq<Seq<char>>, n: nat) -> Seq<char>
    decreases n,
{
    if n == 0 {
        Seq::empty()
    } else {
        arms(kind, tn, names, (n - 1) as nat) + arm(kind, tn, names[n - 1], (n - 1) as nat)
    }
}

pub open spec fn all_arms(kind: ArmKind, tn: Seq<char>, names: Seq<Seq<char>>) -> Seq<char> {
    arms(kind, tn, names, names.len())
}

/// The closing of a `match` inside a method inside an `impl`.
pub open spec fn match_end() -> Seq<char> {
    "        }\n    }\n}\n\n"@
}

/// The enumeration itself.
pub open spec fn enum_text(tn: Seq<char>, names: Seq<Seq<char>>) -> Seq<char> {
    "#[repr(u8)]\n#[derive(Debug, serde::Serialize, serde::Deserialize, PartialEq)]\npub enum "@
        + tn + " {\n"@ + all_arms(ArmKind::Case, tn, names) + "}\n\n"@
}

/// `From<T>` (or `From<&T>` where `by_ref`) for `i8`.
pub open spec fn into_code_text(tn: Seq<char>, names: Seq<Seq<char>>, by_ref: bool) -> Seq<char> {
    let t = if by_ref { "&"@ + tn } else { tn };
    "impl From<"@ + t + "> for i8 {\n    fn from(v: "@ + t + ") -> i8 {\n        match v {\n"@
        + all_arms(ArmKind::IntoCode, tn, names) + match_end()
}

/// `From<i8>` for the type; an unknown code panics.
pub open spec fn from_code_text(tn: Seq<char>, names: Seq<Seq<char>>) -> Seq<char> {
    "impl From<i8> for "@ + tn + " {\n    fn from(v: i8) -> "@ + tn + " {\n        match v {\n"@
        + all_arms(ArmKind::FromCode, tn, names)
        + "            _ => panic!(\"no variant has this code\"),\n"@ + match_end()
}

/// `From<T>` (or `From<&T>` where `by_ref`) for `&'static str`.
pub open spec fn into_label_text(tn: Seq<char>, names: Seq<Seq<char>>, by_ref: bool) -> Seq<char> {
    let t = if by_ref { "&"@ + tn } else { tn };
    "impl From<"@ + t + "> for &'static str {\n    fn from(v: "@ + t
        + ") -> &'static str {\n        match v {\n"@ + all_arms(ArmKind::IntoLabel, tn, names)
        + match_end()
}

/// The `to_str` accessor and the display form.
pub open spec fn accessor_text(tn: Seq<char>, names: Seq<Seq<char>>) -> Seq<char> {
    "impl "@ + tn + " {\n    pub fn to_str(&self) -> &'static str {\n        self.into()\n    }\n}\n\n"@
        + "impl std::fmt::Display for "@ + tn
        + " {\n    fn fmt(&self, f: &mut std::fmt::Formatter<'_>) -> std::fmt::Result {\n        match self {\n"@
        + all_arms(ArmKind::Render, tn, names) + match_end()
}

/// The whole generated source for type `tn` with variants `names`, the variant
/// at position `i` having code `i` and label `ascii_lower(names[i])`.
pub open spec fn source_text(tn: Seq<char>, names: Seq<Seq<char>>) -> Seq<char> {
    enum_text(tn, names) + into_code_text(tn, names, false) + into_code_text(tn, names, true)
        + from_code_text(tn, names) + into_label_text(tn, names, false) + into_label_text(
        tn,
        names,
        true,
    ) + accessor_text(tn, names)
}

/// The arms of the first `k` variants begin the arms of the first `n`.
proof fn lemma_arms_prefix(kind: ArmKind, tn: Seq<char>, names: Seq<Seq<char>>, k: nat, n: nat)
    requires
        k <= n,
    ensures
        arms(kind, tn, names, k).len() <= arms(kind, tn, names, n).len(),
        arms(kind, tn, names, n).subrange(0, arms(kind, tn, names, k).len() as int) == arms(
            kind,
            tn,
            names,
            k,
        ),
    decreases n,
{
    if k < n {
        lemma_arms_prefix(kind, tn, names, k, (n - 1) as nat);
        let p = arms(kind, tn, names, (n - 1) as nat);
        let q = arm(kind, tn, names[n - 1], (n - 1) as nat);
        assert((p + q).subrange(0, p.len() as int) =~= p);
        assert(p.subrange(0, arms(kind, tn, names, k).len() as int) =~= (p + q).subrange(
            0,
            arms(kind, tn, names, k).len() as int,
        ));
    } else {
        assert(arms(kind, tn, names, n).subrange(0, arms(kind, tn, names, n).len() as int)
            =~= arms(kind, tn, names, n));
    }
}

/// Every variant has its arm of each kind in the generated match, in
/// declaration order: the variant at position `i` is written with code `i`,
/// label `ascii_lower(names[i])` and display form `names[i]`, and it follows
/// the arms of the variants before it.
pub proof fn lemma_arm_of_each_variant(kind: ArmKind, tn: Seq<char>, names: Seq<Seq<char>>, i: nat)
    requires
        i < names.len(),
    ensures
        arms(kind, tn, names, (i + 1) as nat).len() <= all_arms(kind, tn, names).len(),
        all_arms(kind, tn, names).subrange(
            arms(kind, tn, names, i).len() as int,
            arms(kind, tn, names, (i + 1) as nat).len() as int,
        ) == arm(kind, tn, names[i as int], i),
{
    let n = names.len();
    lemma_arms_prefix(kind, tn, names, (i + 1) as nat, n);
    let all = all_arms(kind, tn, names);
    let p = arms(kind, tn, names, i);
    let q = arm(kind, tn, names[i as int], i);
    let pre = arms(kind, tn, names, (i + 1) as nat);
    assert(pre == p + q);
    assert(all.subrange(p.len() as int, pre.len() as int) =~= pre.subrange(
        p.len() as int,
        pre.len() as int,
    ));
    assert(pre.subrange(p.len() as int, pre.len() as int) =~= q);
}

/// Appends the arm of variant `i`.
fn push_arm(out: &mut String, kind: ArmKind, s: &EnumSchema, i: usize)
    requires
        s.wf(),
        i < s.len(),
    ensures
        final(out)@ == old(out)@ + arm(kind, s.enum_name@, s.name_at(i as int), i as nat),
{
    let tn = s.enum_name.as_str();
    let v = &s.variants[i];
    let name = v.name.as_str();
    let alias = v.alias.as_str();
    let code = decimal_text(v.ordinal);
    let code = code.as_str();
    assert(v.ordinal as nat == i as nat);
    assert(alias@ == ascii_lower(name@));
    match kind {
        ArmKind::Case => {
            out.append("    #[serde(alias = \"");
            out.append(name);
            out.append("\", alias = \"");
            out.append(alias);
            out.append("\")]\n    ");
            out.append(name);
            out.append(" = ");
            out.append(code);
            out.append("u8,\n");
        },
        ArmKind::IntoCode => {
            out.append("            ");
            out.append(tn);
            out.append("::");
            out.append(name);
            out.append(" => ");
            out.append(code);
            out.append("i8,\n");
        },
        ArmKind::FromCode => {
            out.append("            ");
            out.append(code);
            out.append("i8 => ");
            out.append(tn);
            out.append("::");
            out.append(name);
            out.append(",\n");
        },
        ArmKind::IntoLabel => {
            out.append("            ");
            out.append(tn);
            out.append("::");
            out.append(name);
            out.append(" => \"");
            out.append(alias);
            out.append("\",\n");
        },
        ArmKind::Render => {
            out.append("            ");
            out.append(tn);
            out.append("::");
            out.append(name);
            out.append(" => f.write_str(\"");
            out.append(name);
            out.append("\"),\n");
        },
    }
    assert(final(out)@ =~= old(out)@ + arm(kind, s.enum_name@, s.name_at(i as int), i as nat));
}

/// Appends the arms of all variants, in declaration order.
fn push_arms(out: &mut String, kind: ArmKind, s: &EnumSchema)
    requires
        s.wf(),
    ensures
        final(out)@ == old(out)@ + all_arms(kind, s.enum_name@, s.names()),
{
    let ghost start = out@;
    let mut i: usize = 0;
    while i < s.variants.len()
        invariant
            s.wf(),
            i <= s.len(),
            out@ == start + arms(kind, s.enum_name@, s.names(), i as nat),
        decreases s.len() - i,
    {
        push_arm(out, kind, s, i);
        assert(s.names()[i as int] == s.name_at(i as int));
        i = i + 1;
        assert(out@ =~= start + arms(kind, s.enum_name@, s.names(), i as nat));
    }
}

fn push_enum(out: &mut String, s: &EnumSchema)
    requires
        s.wf(),
    ensures
        final(out)@ == old(out)@ + enum_text(s.enum_name@, s.names()),
{
    let tn = s.enum_name.as_str();
    out.append("#[repr(u8)]\n#[derive(Debug, serde::Serialize, serde::Deserialize, PartialEq)]\npub enum ");
    out.append(tn);
    out.append(" {\n");
    push_arms(out, ArmKind::Case, s);
    out.append("}\n\n");
    assert(final(out)@ =~= old(out)@ + enum_text(s.enum_name@, s.names()));
}

fn push_type(out: &mut String, tn: &str, by_ref: bool)
    ensures
        final(out)@ == old(out)@ + (if by_ref { "&"@ + tn@ } else { tn@ }),
{
    if by_ref {
        out.append("&");
    }
    out.append(tn);
    assert(final(out)@ =~= old(out)@ + (if by_ref { "&"@ + tn@ } else { tn@ }));
}

fn push_into_code(out: &mut String, s: &EnumSchema, by_ref: bool)
    requires
        s.wf(),
    ensures
        final(out)@ == old(out)@ + into_code_text(s.enum_name@, s.names(), by_ref),
{
    let tn = s.enum_name.as_str();
    out.append("impl From<");
    push_type(out, tn, by_ref);
    out.append("> for i8 {\n    fn from(v: ");
    push_type(out, tn, by_ref);
    out.append(") -> i8 {\n        match v {\n");
    push_arms(out, ArmKind::IntoCode, s);
    out.append("        }\n    }\n}\n\n");
    assert(final(out)@ =~= old(out)@ + into_code_text(s.enum_name@, s.names(), by_ref));
}

fn push_from_code(out: &mut String, s: &EnumSchema)
    requires
        s.wf(),
    ensures
        final(out)@ == old(out)@ + from_code_text(s.enum_name@, s.names()),
{
    let tn = s.enum_name.as_str();
    out.append("impl From<i8> for ");
    out.append(tn);
    out.append(" {\n    fn from(v: i8) -> ");
    out.append(tn);
    out.append(" {\n        match v {\n");
    push_arms(out, ArmKind::FromCode, s);
    out.append("            _ => panic!(\"no variant has this code\"),\n");
    out.append("        }\n    }\n}\n\n");
    assert(final(out)@ =~= old(out)@ + from_code_text(s.enum_name@, s.names()));
}

fn push_into_label(out: &mut String, s: &EnumSchema, by_ref: bool)
    requires
        s.wf(),
    ensures
        final(out)@ == old(out)@ + into_label_text(s.enum_name@, s.names(), by_ref),
{
    let tn = s.enum_name.as_str();
    out.append("impl From<");
    push_type(out, tn, by_ref);
    out.append("> for &'static str {\n    fn from(v: ");
    push_type(out, tn, by_ref);
    out.append(") -> &'static str {\n        match v {\n");
    push_arms(out, ArmKind::IntoLabel, s);
    out.append("        }\n    }\n}\n\n");
    assert(final(out)@ =~= old(out)@ + into_label_text(s.enum_name@, s.names(), by_ref));
}

fn push_accessors(out: &mut String, s: &EnumSchema)
    requires
        s.wf(),
    ensures
        final(out)@ == old(out)@ + accessor_text(s.enum_name@, s.names()),
{
    let tn = s.enum_name.as_str();
    out.append("impl ");
    out.append(tn);
    out.append(" {\n    pub fn to_str(&self) -> &'static str {\n        self.into()\n    }\n}\n\n");
    out.append("impl std::fmt::Display for ");
    out.append(tn);
    out.append(" {\n    fn fmt(&self, f: &mut std::fmt::Formatter<'_>) -> std::fmt::Result {\n        match self {\n");
    push_arms(out, ArmKind::Render, s);
    out.append("        }\n    }\n}\n\n");
    assert(final(out)@ =~= old(out)@ + accessor_text(s.enum_name@, s.names()));
}

/// The generated source of a schema: every artifact reads the same ordinals and aliases.
pub fn emit(s: &EnumSchema) -> (r: String)
    requires
        s.wf(),
    ensures
        r@ == source_text(s.enum_name@, s.names()),
{
    let mut out = String::new();
    push_enum(&mut out, s);
    push_into_code(&mut out, s, false);
    push_into_code(&mut out, s, true);
    push_from_code(&mut out, s);
    push_into_label(&mut out, s, false);
    push_into_label(&mut out, s, true);
    push_accessors(&mut out, s);
    assert(out@ =~= source_text(s.enum_name@, s.names()));
    out
}

} // verus!
