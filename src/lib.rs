//! Generates the source of a fixed-vocabulary enumeration and its conversions
//! from a short invocation such as `Status(Active, Inactive, Pending)`.
//!
//! The invocation is read into a type name and variant names, the variants are
//! numbered into one schema, and every generated artifact is rendered from it.
use vstd::prelude::*;

pub mod text;
pub mod invocation;
pub mod schema;
pub mod emit;

use crate::emit::{emit, source_text};
use crate::invocation::{open_from, parse_invocation, parse_spec, InvocationError};
use crate::schema::{build_spec, EnumSchema};
use crate::text::trim;

verus! {

/// What generation gives for an invocation: the first error of reading it or of
/// numbering its variants, or else the source of the whole enumeration.
pub open spec fn generate_spec(text: Seq<char>) -> Result<Seq<char>, InvocationError> {
    match parse_spec(text) {
        Err(e) => Err(e),
        Ok(v) => match build_spec(v.1) {
            Err(e) => Err(e),
            Ok(_) => Ok(source_text(v.0, v.1)),
        },
    }
}

/// Generates the enumeration that an invocation describes, or the reason it describes none.
pub fn notifbot_enum(input: &str) -> (r: Result<String, InvocationError>)
    ensures
        match generate_spec(input@) {
            Ok(t) => r is Ok && r->Ok_0@ == t,
            Err(e) => r == Err::<String, InvocationError>(e),
        },
{
    let req = match parse_invocation(input) {
        Ok(req) => req,
        Err(e) => return Err(e),
    };
    let schema = match EnumSchema::build(&req) {
        Ok(s) => s,
        Err(e) => return Err(e),
    };
    Ok(emit(&schema))
}

/// Text that is blank or has no opening delimiter yields an error and no source.
pub proof fn lemma_malformed_rejected(text: Seq<char>)
    requires
        trim(text).len() == 0 || open_from(trim(text), 0) >= trim(text).len(),
    ensures
        generate_spec(text) is Err,
{
}

} // verus!
