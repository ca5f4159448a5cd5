//! The authorization decision: extract the caller's roles from the claims
//! value; a caller holding the configured bypass role is accepted without
//! validation; any other caller's query text is parsed and its selections
//! validated against the allow-list and the schema.
//!
//! A rejection carries an HTTP 400-class status, a machine-readable code
//! string and a human-readable message, through the methods of
//! [`RejectCode`].  The bypass direction is deliberate, preserved behaviour:
//! the privileged role disables enforcement rather than tightening it.

use vstd::prelude::*;

use crate::allowlist::{field_list_contains, AllowList};
use crate::ast::SchemaDoc;
use crate::claims::{extract_roles, is_extracted_role, JsonVal};
use crate::parse::{parse_query_doc, parsed_query};
use crate::validate::{schema_validator, spec_document_ok, ValidationError};

verus! {

/// Why a request was rejected.
#[derive(Debug, Clone, Copy, PartialEq, Eq, Structural)]
pub enum RejectCode {
    /// The query text is not syntactically valid.
    ParseFailure,
    /// A selected field is not permitted by the allow-list.
    NotAllowed,
    /// A field's type or a named fragment could not be resolved.
    LookupFailed,
    /// The selection nesting walked past the depth budget.
    TooDeep,
}

/// The outcome of authorization: pass the request through, or reject it.
#[derive(Debug, Clone, Copy, PartialEq, Eq, Structural)]
pub enum Decision {
    Accept,
    Reject(RejectCode),
}

/// The rejection code that a validation error surfaces as.
pub open spec fn spec_reject_of(e: ValidationError) -> RejectCode {
    match e {
        ValidationError::NotAllowed => RejectCode::NotAllowed,
        ValidationError::LookupFailed => RejectCode::LookupFailed,
        ValidationError::TooDeep => RejectCode::TooDeep,
    }
}

/// The decision for the given claims, query text, schema, allow-list and
/// depth budget.
pub open spec fn spec_authorize(
    claims: JsonVal,
    namespaces: Seq<String>,
    bypass_role: Seq<char>,
    query_text: Seq<char>,
    schema: SchemaDoc,
    allow_list: AllowList,
    max_depth: u64,
) -> Decision {
    if is_extracted_role(claims, namespaces, bypass_role) {
        Decision::Accept
    } else {
        match parsed_query(query_text) {
            None => Decision::Reject(RejectCode::ParseFailure),
            Some(doc) => match spec_document_ok(allow_list, doc, schema, max_depth) {
                Ok(_) => Decision::Accept,
                Err(e) => Decision::Reject(spec_reject_of(e)),
            },
        }
    }
}

impl RejectCode {
    /// The HTTP-equivalent status of every rejection: 400, Bad Request.
    pub fn status(&self) -> (r: u16)
        ensures
            r == 400,
    {
        400
    }

    /// The machine-readable code string of this rejection.
    pub fn code_string(&self) -> (r: String)
        ensures
            *self is ParseFailure ==> r@ == "PARSE_ERROR"@,
            *self is NotAllowed ==> r@ == "ANONYMOUS_OPERATION"@,
            *self is LookupFailed ==> r@ == "SCHEMA_LOOKUP_FAILURE"@,
            *self is TooDeep ==> r@ == "DEPTH_EXCEEDED"@,
    {
        match self {
            RejectCode::ParseFailure => "PARSE_ERROR".to_owned(),
            RejectCode::NotAllowed => "ANONYMOUS_OPERATION".to_owned(),
            RejectCode::LookupFailed => "SCHEMA_LOOKUP_FAILURE".to_owned(),
            RejectCode::TooDeep => "DEPTH_EXCEEDED".to_owned(),
        }
    }

    /// The human-readable message of this rejection.
    pub fn message(&self) -> (r: String)
        ensures
            *self is ParseFailure ==> r@ == "could not parse query"@,
            *self is NotAllowed ==> r@ == "invalid query"@,
            *self is LookupFailed ==> r@ == "unknown field or type"@,
            *self is TooDeep ==> r@ == "selection nesting too deep"@,
    {
        match self {
            RejectCode::ParseFailure => "could not parse query".to_owned(),
            RejectCode::NotAllowed => "invalid query".to_owned(),
            RejectCode::LookupFailed => "unknown field or type".to_owned(),
            RejectCode::TooDeep => "selection nesting too deep".to_owned(),
        }
    }
}

/// Decides whether the request may execute: a caller whose claims give the
/// bypass role is accepted unconditionally; otherwise the query text is
/// parsed and validated against the allow-list and the schema.
pub fn authorize(
    claims: &JsonVal,
    namespaces: &Vec<String>,
    bypass_role: &str,
    query_text: &str,
    schema: &SchemaDoc,
    allow_list: &AllowList,
    max_depth: u64,
) -> (d: Decision)
    ensures
        d == spec_authorize(
            *claims,
            namespaces@,
            bypass_role@,
            query_text@,
            *schema,
            *allow_list,
            max_depth,
        ),
{
    let roles = extract_roles(claims, namespaces);
    if field_list_contains(&roles, bypass_role) {
        return Decision::Accept;
    }
    match parse_query_doc(query_text) {
        None => Decision::Reject(RejectCode::ParseFailure),
        Some(doc) => match schema_validator(&doc, schema, allow_list, max_depth) {
            Ok(_) => Decision::Accept,
            Err(ValidationError::NotAllowed) => Decision::Reject(RejectCode::NotAllowed),
            Err(ValidationError::LookupFailed) => Decision::Reject(RejectCode::LookupFailed),
            Err(ValidationError::TooDeep) => Decision::Reject(RejectCode::TooDeep),
        },
    }
}

} // verus!
