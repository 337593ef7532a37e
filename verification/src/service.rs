//! The paste service: creating, retrieving and deleting pastes.
//!
//! The store is someone else's: a mapping from keys to texts behind calls that
//! may fail. This module decides; the caller talks to the store. Each
//! operation therefore comes in two steps. The first says whether the store
//! is to be asked at all, and for what; the second takes the store's reply
//! and says how the operation ends.

use vstd::prelude::*;
use vstd::string::*;
use vstd::utf8::{decode_utf8, valid_utf8};

use crate::error::{view_result, FormField, PasteError, PasteErrorView};
use crate::ident::{is_identifier, new_id};
use crate::key::{decode, encode, encode_key, key_language};
use crate::text::text_from_utf8;
use crate::types::{CodePaseResponse, CodePasteInput};
use crate::utils::{render_outcome, syntax_highlight_code};

verus! {

/// Where the permanent links to pastes begin.
pub const PERMALINK_BASE: &'static str = "http://paste.priver.dev/";

/// What the paste form holds in one field: text typed into it, or the bytes
/// of an uploaded file.
#[derive(Debug, PartialEq, Eq)]
pub enum FormValue {
    Field(String),
    File(Vec<u8>),
}

/// How the store answered a write or a removal.
#[derive(Clone, Copy, Debug, PartialEq, Eq, Structural)]
pub enum StoreAck {
    /// The call went through.
    Done,
    /// The call failed.
    Unavailable,
}

/// How the store answered a read.
#[derive(Debug, PartialEq, Eq)]
pub enum GetReply {
    /// The text under the key.
    Found(String),
    /// The key is not in the store.
    Absent,
    /// The call failed.
    Unavailable,
}

/// A `GetReply` with its text as a sequence of characters.
pub enum GetReplyView {
    Found(Seq<char>),
    Absent,
    Unavailable,
}

impl View for GetReply {
    type V = GetReplyView;

    open spec fn view(&self) -> GetReplyView {
        match self {
            GetReply::Found(text) => GetReplyView::Found(text@),
            GetReply::Absent => GetReplyView::Absent,
            GetReply::Unavailable => GetReplyView::Unavailable,
        }
    }
}

/// What kind of body a retrieved paste comes as.
#[derive(Clone, Copy, Debug, PartialEq, Eq, Structural)]
pub enum ContentKind {
    /// The text as it was stored.
    Text,
    /// A page of highlighted markup.
    Html,
}

/// A retrieved paste, ready to be sent.
#[derive(Debug, PartialEq, Eq)]
pub struct Document {
    pub body: String,
    pub kind: ContentKind,
}

/// A `Document` with its body as a sequence of characters.
pub struct DocumentView {
    pub body: Seq<char>,
    pub kind: ContentKind,
}

impl View for Document {
    type V = DocumentView;

    open spec fn view(&self) -> DocumentView {
        DocumentView { body: self.body@, kind: self.kind }
    }
}

/// A paste that passed validation: an identifier, a language tag and the
/// text, none of them empty.
#[derive(Debug, PartialEq, Eq)]
pub struct Paste {
    id: String,
    language: String,
    content: String,
}

/// A `Paste` with its parts as sequences of characters.
pub struct PasteView {
    pub id: Seq<char>,
    pub language: Seq<char>,
    pub content: Seq<char>,
}

impl PasteView {
    /// The identifier has the shape of one, and neither the language tag nor
    /// the text is empty.
    pub open spec fn wf(self) -> bool {
        &&& is_identifier(self.id)
        &&& self.language.len() > 0
        &&& self.content.len() > 0
    }

    /// The key under which the paste is stored.
    pub open spec fn storage_key(self) -> Seq<char> {
        encode_key(self.id, self.language)
    }

    /// The permanent link to the paste.
    pub open spec fn permalink(self) -> Seq<char> {
        PERMALINK_BASE@ + self.storage_key()
    }
}

impl View for Paste {
    type V = PasteView;

    closed spec fn view(&self) -> PasteView {
        PasteView { id: self.id@, language: self.language@, content: self.content@ }
    }
}

impl Paste {
    #[verifier::type_invariant]
    spec fn well_formed(self) -> bool {
        self@.wf()
    }

    /// The identifier.
    pub fn id(&self) -> (id: &str)
        ensures
            id@ == self@.id,
    {
        self.id.as_str()
    }

    /// The language tag.
    pub fn language(&self) -> (language: &str)
        ensures
            language@ == self@.language,
    {
        self.language.as_str()
    }

    /// The text.
    pub fn content(&self) -> (content: &str)
        ensures
            content@ == self@.content,
    {
        self.content.as_str()
    }

    /// The key under which the paste is stored: identifier, separator,
    /// language tag.
    pub fn storage_key(&self) -> (key: String)
        ensures
            key@ == self@.storage_key(),
    {
        proof {
            use_type_invariant(self);
        }
        encode(self.id.as_str(), self.language.as_str())
    }
}

/// The text of a form value: a field's text as it is, a file's bytes decoded
/// as UTF-8.
pub open spec fn resolved(value: FormValue) -> Result<Seq<char>, PasteErrorView> {
    match value {
        FormValue::Field(text) => Ok(text@),
        FormValue::File(bytes) => if valid_utf8(bytes@) {
            Ok(decode_utf8(bytes@))
        } else {
            Err(PasteErrorView::InvalidEncoding)
        },
    }
}

/// The text of the paste that a form submits in its content entry.
pub open spec fn content_of(entry: Option<FormValue>) -> Result<Seq<char>, PasteErrorView> {
    match entry {
        None => Err(PasteErrorView::MissingField(FormField::Content)),
        Some(value) => match resolved(value) {
            Err(error) => Err(error),
            Ok(text) => if text.len() == 0 {
                Err(PasteErrorView::MissingField(FormField::Content))
            } else {
                Ok(text)
            },
        },
    }
}

/// The language tag that a form submits in its language entry. Only a field
/// with text in it counts.
pub open spec fn language_of(entry: Option<FormValue>) -> Result<Seq<char>, PasteErrorView> {
    match entry {
        Some(FormValue::Field(tag)) => if tag@.len() == 0 {
            Err(PasteErrorView::MissingField(FormField::Language))
        } else {
            Ok(tag@)
        },
        _ => Err(PasteErrorView::MissingField(FormField::Language)),
    }
}

/// The text and the language tag that a form submits, the text looked at
/// first.
pub open spec fn input_of(content: Option<FormValue>, language: Option<FormValue>) -> Result<
    (Seq<char>, Seq<char>),
    PasteErrorView,
> {
    match content_of(content) {
        Err(error) => Err(error),
        Ok(code) => match language_of(language) {
            Err(error) => Err(error),
            Ok(tag) => Ok((code, tag)),
        },
    }
}

/// How creating a paste under the identifier `id` begins: with the paste to
/// store, or with the reason why nothing is stored.
pub open spec fn create_outcome(
    id: Seq<char>,
    content: Option<FormValue>,
    language: Option<FormValue>,
) -> Result<PasteView, PasteErrorView> {
    match input_of(content, language) {
        Err(error) => Err(error),
        Ok((code, tag)) => Ok(PasteView { id, language: tag, content: code }),
    }
}

/// Resolves a form value into text. The bytes of a file have to be valid
/// UTF-8.
pub fn resolve(value: FormValue) -> (text: Result<String, PasteError>)
    ensures
        view_result(text) == resolved(value),
{
    match value {
        FormValue::Field(text) => Ok(text),
        FormValue::File(bytes) => match text_from_utf8(bytes) {
            Some(text) => Ok(text),
            None => Err(PasteError::InvalidEncoding),
        },
    }
}

/// Reads a submission off the two entries of the paste form. The content is
/// looked at first: it has to be there, to be text, and not to be empty. Then
/// the language has to be a field with text in it.
pub fn read_input(content: Option<FormValue>, language: Option<FormValue>) -> (input: Result<
    CodePasteInput,
    PasteError,
>)
    ensures
        match input_of(content, language) {
            Ok((code, tag)) => input matches Ok(read) && read.code@ == code && read.language@
                == tag,
            Err(error) => input matches Err(failure) && failure@ == error,
        },
{
    let code = match content {
        None => { return Err(PasteError::MissingField(FormField::Content)); },
        Some(value) => match resolve(value) {
            Err(error) => { return Err(error); },
            Ok(text) => text,
        },
    };
    if code.as_str().is_empty() {
        return Err(PasteError::MissingField(FormField::Content));
    }
    match language {
        Some(FormValue::Field(tag)) => {
            if tag.as_str().is_empty() {
                Err(PasteError::MissingField(FormField::Language))
            } else {
                Ok(CodePasteInput { code, language: tag })
            }
        },
        _ => Err(PasteError::MissingField(FormField::Language)),
    }
}

/// Begins the creation of a paste under a given identifier: validates the
/// submission and, where it is valid, hands back the paste to store.
pub fn begin_create_with_id(
    id: String,
    content: Option<FormValue>,
    language: Option<FormValue>,
) -> (paste: Result<Paste, PasteError>)
    requires
        is_identifier(id@),
    ensures
        view_result(paste) == create_outcome(id@, content, language),
{
    match read_input(content, language) {
        Err(error) => Err(error),
        Ok(input) => Ok(Paste { id, language: input.language, content: input.code }),
    }
}

/// Begins the creation of a paste: validates the submission and, where it is
/// valid, draws a fresh identifier and hands back the paste to store. An
/// invalid submission never gets as far as the store. Whether the identifier
/// is already in use is not looked at.
pub fn begin_create(content: Option<FormValue>, language: Option<FormValue>) -> (paste: Result<
    Paste,
    PasteError,
>)
    ensures
        match input_of(content, language) {
            Ok((code, tag)) => paste matches Ok(made) && made@.wf() && made@.content == code
                && made@.language == tag,
            Err(error) => paste matches Err(failure) && failure@ == error,
        },
        paste matches Ok(made) ==> is_identifier(made@.id) && view_result(paste)
            == create_outcome(made@.id, content, language),
{
    match read_input(content, language) {
        Err(error) => Err(error),
        Ok(input) => Ok(Paste { id: new_id(), language: input.language, content: input.code }),
    }
}

/// How the creation of `paste` ends once the store has answered the write:
/// with the identifier and the permanent link, or with the store's failure.
pub open spec fn created_outcome(paste: PasteView, ack: StoreAck) -> Result<
    (Seq<char>, Seq<char>),
    PasteErrorView,
> {
    match ack {
        StoreAck::Done => Ok((paste.id, paste.permalink())),
        StoreAck::Unavailable => Err(PasteErrorView::StoreUnavailable),
    }
}

/// Ends the creation of a paste with the store's answer to the write of its
/// text under its key.
pub fn finish_create(paste: &Paste, ack: StoreAck) -> (receipt: Result<CodePaseResponse, PasteError>)
    ensures
        match created_outcome(paste@, ack) {
            Ok((id, permalink)) => receipt matches Ok(made) && made.id@ == id && made.permalink@
                == permalink,
            Err(error) => receipt matches Err(failure) && failure@ == error,
        },
{
    match ack {
        StoreAck::Unavailable => Err(PasteError::StoreUnavailable),
        StoreAck::Done => {
            let key = paste.storage_key();
            let mut permalink = String::from_str(PERMALINK_BASE);
            permalink.append(key.as_str());
            Ok(CodePaseResponse { id: String::from_str(paste.id()), permalink })
        },
    }
}

/// The key that a request names: the one given, unless none or an empty one
/// was given.
pub open spec fn key_outcome(given: Option<String>) -> Result<Seq<char>, PasteErrorView> {
    match given {
        Some(key) => if key@.len() == 0 {
            Err(PasteErrorView::NotFound)
        } else {
            Ok(key@)
        },
        None => Err(PasteErrorView::NotFound),
    }
}

/// The key to ask the store for, or `NotFound` where the request names none.
fn requested_key(given: Option<String>) -> (key: Result<String, PasteError>)
    ensures
        view_result(key) == key_outcome(given),
{
    match given {
        None => Err(PasteError::NotFound),
        Some(key) => {
            if key.as_str().is_empty() {
                Err(PasteError::NotFound)
            } else {
                Ok(key)
            }
        },
    }
}

/// Begins a retrieval: hands back the key to read from the store, or
/// `NotFound` where the request names no key.
pub fn begin_retrieve(given: Option<String>) -> (key: Result<String, PasteError>)
    ensures
        view_result(key) == key_outcome(given),
{
    requested_key(given)
}

/// Begins a removal: hands back the key to remove from the store, or
/// `NotFound` where the request names no key.
pub fn begin_delete(given: Option<String>) -> (key: Result<String, PasteError>)
    ensures
        view_result(key) == key_outcome(given),
{
    requested_key(given)
}

/// The document made of what rendering gave.
pub open spec fn rendered_outcome(rendered: Result<Seq<char>, PasteErrorView>) -> Result<
    DocumentView,
    PasteErrorView,
> {
    match rendered {
        Ok(page) => Ok(DocumentView { body: page, kind: ContentKind::Html }),
        Err(error) => Err(error),
    }
}

/// How the retrieval under `key` ends once the store has answered the read.
/// A failed call and an absent key are failures of their own. The text that
/// was found is handed out as it is where the raw text is wanted or the key
/// carries no language tag; else it is rendered in the language of the key.
pub open spec fn retrieve_outcome(key: Seq<char>, want_raw: bool, reply: GetReplyView) -> Result<
    DocumentView,
    PasteErrorView,
> {
    match reply {
        GetReplyView::Unavailable => Err(PasteErrorView::StoreUnavailable),
        GetReplyView::Absent => Err(PasteErrorView::NotFound),
        GetReplyView::Found(text) => if want_raw || key_language(key).len() == 0 {
            Ok(DocumentView { body: text, kind: ContentKind::Text })
        } else {
            rendered_outcome(render_outcome(text, key_language(key)))
        },
    }
}

/// Wraps what rendering gave: the page becomes a document of kind `Html`, a
/// failure stays what it is.
pub fn rendered_document(rendered: Result<String, PasteError>) -> (document: Result<
    Document,
    PasteError,
>)
    ensures
        view_result(document) == rendered_outcome(view_result(rendered)),
{
    match rendered {
        Ok(page) => Ok(Document { body: page, kind: ContentKind::Html }),
        Err(error) => Err(error),
    }
}

/// Ends a retrieval with the store's answer to the read of `key`.
pub fn finish_retrieve(key: &str, want_raw: bool, reply: GetReply) -> (document: Result<
    Document,
    PasteError,
>)
    ensures
        view_result(document) == retrieve_outcome(key@, want_raw, reply@),
{
    match reply {
        GetReply::Unavailable => Err(PasteError::StoreUnavailable),
        GetReply::Absent => Err(PasteError::NotFound),
        GetReply::Found(text) => {
            if want_raw {
                return Ok(Document { body: text, kind: ContentKind::Text });
            }
            let (_, language) = decode(key);
            if language.as_str().is_empty() {
                Ok(Document { body: text, kind: ContentKind::Text })
            } else {
                rendered_document(syntax_highlight_code(text, language))
            }
        },
    }
}

/// How a removal ends once the store has answered: well, whether or not the
/// key was there, unless the call failed.
pub open spec fn delete_outcome(ack: StoreAck) -> Result<(), PasteErrorView> {
    match ack {
        StoreAck::Done => Ok(()),
        StoreAck::Unavailable => Err(PasteErrorView::StoreUnavailable),
    }
}

/// Ends a removal with the store's answer.
pub fn finish_delete(ack: StoreAck) -> (done: Result<(), PasteError>)
    ensures
        view_result(done) == delete_outcome(ack),
{
    match ack {
        StoreAck::Done => Ok(()),
        StoreAck::Unavailable => Err(PasteError::StoreUnavailable),
    }
}

} // verus!
