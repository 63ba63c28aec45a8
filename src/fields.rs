//! The kinds of custom fields attached to content, and how their tags are read.

use vstd::prelude::*;
use crate::error::CustomError;
use crate::text::{equals_literal, lowercase, lowercase_of};

verus! {

/// The kind of content a custom field is attached to.
#[derive(Clone, Copy, Debug, PartialEq, Eq, Structural)]
pub enum TargetType {
    Post,
    Page,
    Theme,
    System,
}

/// The tag of a target type.
pub open spec fn target_tag(t: TargetType) -> Seq<char> {
    match t {
        TargetType::Post => "post"@,
        TargetType::Page => "page"@,
        TargetType::Theme => "theme"@,
        TargetType::System => "system"@,
    }
}

impl TargetType {
    /// The target type whose tag is `lower`; fails on any other text.
    pub fn from_lowercase(lower: &String) -> (r: Result<TargetType, CustomError>)
        ensures
            match r {
                Ok(t) => target_tag(t) == lower@,
                Err(_) => forall|t: TargetType| target_tag(t) != lower@,
            },
    {
        if equals_literal(lower, "post") {
            Ok(TargetType::Post)
        } else if equals_literal(lower, "page") {
            Ok(TargetType::Page)
        } else if equals_literal(lower, "theme") {
            Ok(TargetType::Theme)
        } else if equals_literal(lower, "system") {
            Ok(TargetType::System)
        } else {
            Err(CustomError::from_str("invalid target type"))
        }
    }

    /// The target type whose tag is `s` in any letter case.
    pub fn from_str(s: &str) -> (r: Result<TargetType, CustomError>)
        ensures
            match r {
                Ok(t) => target_tag(t) == lowercase_of(s@),
                Err(_) => forall|t: TargetType| target_tag(t) != lowercase_of(s@),
            },
    {
        let lower = lowercase(s);
        TargetType::from_lowercase(&lower)
    }

    /// The tag.
    pub fn as_str(&self) -> (r: &'static str)
        ensures
            r@ == target_tag(*self),
    {
        match self {
            TargetType::Post => "post",
            TargetType::Page => "page",
            TargetType::Theme => "theme",
            TargetType::System => "system",
        }
    }
}

/// Whether a custom field holds data or metadata.
#[derive(Clone, Copy, Debug, PartialEq, Eq, Structural)]
pub enum FieldType {
    Data,
    Meta,
}

/// The tag of a field type.
pub open spec fn field_tag(t: FieldType) -> Seq<char> {
    match t {
        FieldType::Data => "data"@,
        FieldType::Meta => "meta"@,
    }
}

impl FieldType {
    /// The field type whose tag is `lower`; fails on any other text.
    pub fn from_lowercase(lower: &String) -> (r: Result<FieldType, CustomError>)
        ensures
            match r {
                Ok(t) => field_tag(t) == lower@,
                Err(_) => forall|t: FieldType| field_tag(t) != lower@,
            },
    {
        if equals_literal(lower, "data") {
            Ok(FieldType::Data)
        } else if equals_literal(lower, "meta") {
            Ok(FieldType::Meta)
        } else {
            Err(CustomError::from_str("invalid field type"))
        }
    }

    /// The field type whose tag is `s` in any letter case.
    pub fn from_str(s: &str) -> (r: Result<FieldType, CustomError>)
        ensures
            match r {
                Ok(t) => field_tag(t) == lowercase_of(s@),
                Err(_) => forall|t: FieldType| field_tag(t) != lowercase_of(s@),
            },
    {
        let lower = lowercase(s);
        FieldType::from_lowercase(&lower)
    }

    /// The tag.
    pub fn as_str(&self) -> (r: &'static str)
        ensures
            r@ == field_tag(*self),
    {
        match self {
            FieldType::Data => "data",
            FieldType::Meta => "meta",
        }
    }
}

} // verus!
