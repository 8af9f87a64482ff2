//! Errors raised while generating or updating an SVG.

use vstd::prelude::*;
use crate::text::{push_str, push_nat, nat_str, string_of};

verus! {

/// What went wrong; each variant carries a user friendly explanation.
#[derive(Debug)]
pub enum SVGErrorKind {
    /// Related to router connections.
    ConnectionError(String),
    /// Something expected by the SVG is not actually in the many-core system.
    ManycoreMismatch(String),
    /// An error of the many-core system description, bubbled up.
    ManycoreError(String),
    /// A serialisation error, bubbled up.
    SerialisationError(String),
    /// A conversion between types failed.
    DataConversionError(String),
    /// A generic SVG generation error.
    GenerationError(String),
}

/// The error container used by every fallible operation of the library.
#[derive(Debug)]
pub struct SVGError {
    pub error_kind: SVGErrorKind,
}

/// The message of an error: a prefix naming its kind, then its explanation.
pub open spec fn error_message(e: SVGError) -> Seq<char> {
    match e.error_kind {
        SVGErrorKind::ConnectionError(r) => "Connection Error: "@ + r@,
        SVGErrorKind::ManycoreMismatch(r) => "Mismatch with ManyCore System: "@ + r@,
        SVGErrorKind::ManycoreError(r) => "ManyCore Error: "@ + r@,
        SVGErrorKind::SerialisationError(r) => "Serialisation Error: "@ + r@,
        SVGErrorKind::DataConversionError(r) => "Data Conversion Error: "@ + r@,
        SVGErrorKind::GenerationError(r) => "Generation Error: "@ + r@,
    }
}

impl SVGError {
    /// An error of the given kind.
    pub fn new(error_kind: SVGErrorKind) -> (r: Self)
        ensures
            r.error_kind == error_kind,
    {
        SVGError { error_kind }
    }

    /// The kind of this error.
    pub fn kind(&self) -> (r: &SVGErrorKind)
        ensures
            *r == self.error_kind,
    {
        &self.error_kind
    }

    /// The text shown to a user for this error.
    pub fn message(&self) -> (r: String)
        ensures
            r@ == error_message(*self),
    {
        let (prefix, reason): (&str, &String) = match &self.error_kind {
            SVGErrorKind::ConnectionError(r) => ("Connection Error: ", r),
            SVGErrorKind::ManycoreMismatch(r) => ("Mismatch with ManyCore System: ", r),
            SVGErrorKind::ManycoreError(r) => ("ManyCore Error: ", r),
            SVGErrorKind::SerialisationError(r) => ("Serialisation Error: ", r),
            SVGErrorKind::DataConversionError(r) => ("Data Conversion Error: ", r),
            SVGErrorKind::GenerationError(r) => ("Generation Error: ", r),
        };
        let mut s = string_of(prefix);
        push_str(&mut s, reason.as_str());
        s
    }
}

/// A message made of a prefix, a number and a suffix.
pub open spec fn numbered(prefix: Seq<char>, n: nat, suffix: Seq<char>) -> Seq<char> {
    prefix + nat_str(n) + suffix
}

fn numbered_message(prefix: &str, n: u64, suffix: &str) -> (r: String)
    ensures
        r@ == numbered(prefix@, n as nat, suffix@),
{
    let mut s = string_of(prefix);
    push_nat(&mut s, n);
    push_str(&mut s, suffix);
    proof {
        assert(s@ =~= numbered(prefix@, n as nat, suffix@));
    }
    s
}

/// No SVG connection path is stored at `idx` for a core.
pub fn missing_connection(idx: &usize) -> (r: SVGError)
    ensures
        r.error_kind matches SVGErrorKind::ConnectionError(m)
            && m@ == numbered("Could not grab SVG connection path for Core "@, *idx as nat, ""@),
{
    SVGError::new(SVGErrorKind::ConnectionError(
        numbered_message("Could not grab SVG connection path for Core ", *idx as u64, ""),
    ))
}

/// The source of a task is missing from the system.
pub fn missing_source(task_id: &u16) -> (r: SVGError)
    ensures
        r.error_kind matches SVGErrorKind::ManycoreMismatch(m)
            && m@ == numbered("Could not retrieve Source for Task "@, *task_id as nat, ""@),
{
    SVGError::new(SVGErrorKind::ManycoreMismatch(
        numbered_message("Could not retrieve Source for Task ", *task_id as u64, ""),
    ))
}

/// The SVG group of the core at `index` cannot be found.
pub fn no_processing_group(index: usize) -> (r: SVGError)
    ensures
        r.error_kind matches SVGErrorKind::GenerationError(m)
            && m@ == numbered(
                "Could not retrieve SVG group for core with ID "@,
                index as nat,
                ". Something weent wrong generating the SVG, please try again."@,
            ),
{
    SVGError::new(SVGErrorKind::GenerationError(
        numbered_message(
            "Could not retrieve SVG group for core with ID ",
            index as u64,
            ". Something weent wrong generating the SVG, please try again.",
        ),
    ))
}

/// A generation error with the given explanation.
pub fn generation_error(reason: String) -> (r: SVGError)
    ensures
        r.error_kind == SVGErrorKind::GenerationError(reason),
{
    SVGError::new(SVGErrorKind::GenerationError(reason))
}

} // verus!
