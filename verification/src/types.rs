//! The values that cross the boundary of the service.

use vstd::prelude::*;

verus! {

/// A short message for the client: an acknowledgement or what went wrong.
#[derive(Debug, PartialEq, Eq)]
pub struct JsonResponse {
    pub message: String,
}

/// A paste as it was submitted: the text and its language tag.
#[derive(Debug, PartialEq, Eq)]
pub struct CodePasteInput {
    pub code: String,
    pub language: String,
}

/// What the client learns of a paste that was stored.
#[derive(Debug, PartialEq, Eq)]
pub struct CodePaseResponse {
    pub id: String,
    pub permalink: String,
}

/// What the page of a rendered paste is filled with: the highlighted markup
/// and the language tag.
#[derive(Debug, PartialEq, Eq)]
pub struct CodeTemplateContext {
    pub code: String,
    pub lang: String,
}

} // verus!
