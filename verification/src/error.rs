//! The ways in which an operation on pastes can fail.

use vstd::prelude::*;

verus! {

/// A field of the paste form.
#[derive(Clone, Copy, Debug, PartialEq, Eq, Structural)]
pub enum FormField {
    Content,
    Language,
}

/// Why an operation on pastes failed.
#[derive(Debug, PartialEq, Eq)]
pub enum PasteError {
    /// A required field is absent or empty.
    MissingField(FormField),
    /// The submitted bytes are not valid UTF-8.
    InvalidEncoding,
    /// No syntax definition is known for the language tag that is carried.
    UnsupportedLanguage(String),
    /// The key is absent from the store, or no key was given.
    NotFound,
    /// The call to the store failed.
    StoreUnavailable,
    /// The highlighter gave up on a paste in the language that is carried.
    RenderingFailed(String),
}

/// A `PasteError` with its texts as sequences of characters.
pub enum PasteErrorView {
    MissingField(FormField),
    InvalidEncoding,
    UnsupportedLanguage(Seq<char>),
    NotFound,
    StoreUnavailable,
    RenderingFailed(Seq<char>),
}

impl View for PasteError {
    type V = PasteErrorView;

    open spec fn view(&self) -> PasteErrorView {
        match self {
            PasteError::MissingField(field) => PasteErrorView::MissingField(*field),
            PasteError::InvalidEncoding => PasteErrorView::InvalidEncoding,
            PasteError::UnsupportedLanguage(tag) => PasteErrorView::UnsupportedLanguage(tag@),
            PasteError::NotFound => PasteErrorView::NotFound,
            PasteError::StoreUnavailable => PasteErrorView::StoreUnavailable,
            PasteError::RenderingFailed(tag) => PasteErrorView::RenderingFailed(tag@),
        }
    }
}

/// A result with both sides seen through their views.
pub open spec fn view_result<T: View, E: View>(result: Result<T, E>) -> Result<T::V, E::V> {
    match result {
        Ok(value) => Ok(value@),
        Err(error) => Err(error@),
    }
}

} // verus!
