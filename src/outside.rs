use vstd::prelude::*;

verus! {

/// The error of a failed SPDX lookup, carried through unchanged.
#[verifier::external_type_specification]
#[verifier::external_body]
pub struct ExLicenseParseError(::license::ParseError);

/// The template engine's dynamic value.
#[verifier::external_type_specification]
#[verifier::external_body]
pub struct ExTemplateValue(::minijinja::Value);

/// The template engine.
#[verifier::external_type_specification]
#[verifier::external_body]
pub struct ExEnvironment<'source>(::minijinja::Environment<'source>);

} // verus!
