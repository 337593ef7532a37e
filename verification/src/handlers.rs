//! What the client is told: the reply to each request, as status, message,
//! redirect or page. Reading the request and sending the reply is the
//! caller's part, and so is every call to the store between the two steps of
//! an operation.

use vstd::prelude::*;
use vstd::string::*;

use crate::error::{FormField, PasteError, PasteErrorView};
use crate::service::{
    begin_create, begin_delete, begin_retrieve, created_outcome, delete_outcome, finish_create,
    finish_delete, finish_retrieve, input_of, key_outcome, retrieve_outcome, ContentKind,
    Document,
    DocumentView, FormValue, GetReply, GetReplyView, Paste, PasteView, StoreAck,
};
use crate::types::{CodePaseResponse, JsonResponse};

verus! {

/// The status of a reply that went well.
pub const STATUS_OK: u16 = 200;

/// The status of a reply to a submission that cannot be stored.
pub const STATUS_BAD_REQUEST: u16 = 400;

/// The status of a reply to a request for a paste that is not there.
pub const STATUS_NOT_FOUND: u16 = 404;

/// The status of a reply to a request for a page that cannot be made.
pub const STATUS_SERVER_ERROR: u16 = 500;

/// How long a retrieved paste may be cached: a paste never changes.
pub const CACHE_CONTROL: &'static str = "max-age=2629746";

/// The media type that a client names to get the receipt of a creation
/// instead of a redirect.
pub const MIME_JSON: &'static str = "application/json";

/// The media type of a page of highlighted markup.
pub const MIME_HTML: &'static str = "text/html";

/// The media type of a paste that is sent as it was stored.
pub const MIME_TEXT: &'static str = "text/plain";

pub const MESSAGE_MISSING_CONTENT: &'static str = "missing 'content' field";

pub const MESSAGE_MISSING_LANGUAGE: &'static str = "missing 'language' field";

pub const MESSAGE_BAD_FILE: &'static str = "couldn't parse file";

pub const MESSAGE_NOT_STORED: &'static str = "couldn't add pase to database";

pub const MESSAGE_MISSING_ID: &'static str = "missing id";

pub const MESSAGE_NOT_RENDERED: &'static str = "couldn't syntax highlight code";

pub const MESSAGE_DELETED: &'static str = "deleted";

/// The operations of the service.
#[derive(Clone, Copy, Debug, PartialEq, Eq, Structural)]
pub enum Operation {
    Create,
    Retrieve,
    Delete,
}

/// A reply to the client.
#[derive(Debug, PartialEq, Eq)]
pub enum HttpReply {
    /// A message under a status.
    Message { status: u16, body: JsonResponse },
    /// The receipt of a creation, under `STATUS_OK`.
    Receipt(CodePaseResponse),
    /// A redirect to the address that is carried.
    Redirect(String),
    /// A retrieved paste, under `STATUS_OK` and cacheable as `CACHE_CONTROL`
    /// says.
    Page(Document),
}

/// An `HttpReply` with its texts as sequences of characters.
pub enum HttpReplyView {
    Message { status: u16, message: Seq<char> },
    Receipt { id: Seq<char>, permalink: Seq<char> },
    Redirect(Seq<char>),
    Page(DocumentView),
}

impl View for HttpReply {
    type V = HttpReplyView;

    open spec fn view(&self) -> HttpReplyView {
        match self {
            HttpReply::Message { status, body } => HttpReplyView::Message {
                status: *status,
                message: body.message@,
            },
            HttpReply::Receipt(receipt) => HttpReplyView::Receipt {
                id: receipt.id@,
                permalink: receipt.permalink@,
            },
            HttpReply::Redirect(location) => HttpReplyView::Redirect(location@),
            HttpReply::Page(document) => HttpReplyView::Page(document@),
        }
    }
}

/// What the client is told when `operation` fails with `error`. A failure of
/// the store reads as a bad request on creation and as a missing paste
/// otherwise.
pub open spec fn failure_reply(operation: Operation, error: PasteErrorView) -> HttpReplyView {
    match error {
        PasteErrorView::MissingField(FormField::Content) => HttpReplyView::Message {
            status: STATUS_BAD_REQUEST,
            message: MESSAGE_MISSING_CONTENT@,
        },
        PasteErrorView::MissingField(FormField::Language) => HttpReplyView::Message {
            status: STATUS_BAD_REQUEST,
            message: MESSAGE_MISSING_LANGUAGE@,
        },
        PasteErrorView::InvalidEncoding => HttpReplyView::Message {
            status: STATUS_BAD_REQUEST,
            message: MESSAGE_BAD_FILE@,
        },
        PasteErrorView::UnsupportedLanguage(_) => HttpReplyView::Message {
            status: STATUS_SERVER_ERROR,
            message: MESSAGE_NOT_RENDERED@,
        },
        PasteErrorView::RenderingFailed(_) => HttpReplyView::Message {
            status: STATUS_SERVER_ERROR,
            message: MESSAGE_NOT_RENDERED@,
        },
        PasteErrorView::NotFound => HttpReplyView::Message {
            status: STATUS_NOT_FOUND,
            message: MESSAGE_MISSING_ID@,
        },
        PasteErrorView::StoreUnavailable => if operation == Operation::Create {
            HttpReplyView::Message { status: STATUS_BAD_REQUEST, message: MESSAGE_NOT_STORED@ }
        } else {
            HttpReplyView::Message { status: STATUS_NOT_FOUND, message: MESSAGE_MISSING_ID@ }
        },
    }
}

/// A message under a status.
fn message(status: u16, text: &str) -> (reply: HttpReply)
    ensures
        reply@ == (HttpReplyView::Message { status, message: text@ }),
{
    HttpReply::Message { status, body: JsonResponse { message: String::from_str(text) } }
}

/// The reply that tells the client of a failure of `operation`.
pub fn reply_to_failure(operation: Operation, error: &PasteError) -> (reply: HttpReply)
    ensures
        reply@ == failure_reply(operation, error@),
{
    match error {
        PasteError::MissingField(FormField::Content) => message(
            STATUS_BAD_REQUEST,
            MESSAGE_MISSING_CONTENT,
        ),
        PasteError::MissingField(FormField::Language) => message(
            STATUS_BAD_REQUEST,
            MESSAGE_MISSING_LANGUAGE,
        ),
        PasteError::InvalidEncoding => message(STATUS_BAD_REQUEST, MESSAGE_BAD_FILE),
        PasteError::UnsupportedLanguage(_) => message(STATUS_SERVER_ERROR, MESSAGE_NOT_RENDERED),
        PasteError::RenderingFailed(_) => message(STATUS_SERVER_ERROR, MESSAGE_NOT_RENDERED),
        PasteError::NotFound => message(STATUS_NOT_FOUND, MESSAGE_MISSING_ID),
        PasteError::StoreUnavailable => match operation {
            Operation::Create => message(STATUS_BAD_REQUEST, MESSAGE_NOT_STORED),
            _ => message(STATUS_NOT_FOUND, MESSAGE_MISSING_ID),
        },
    }
}

/// First step of a creation: the paste to write to the store under its key,
/// or the reply to a submission that is not valid.
pub fn create_paste(content: Option<FormValue>, language: Option<FormValue>) -> (step: Result<
    Paste,
    HttpReply,
>)
    ensures
        match input_of(content, language) {
            Ok((code, tag)) => step matches Ok(paste) && paste@.wf() && paste@.content == code
                && paste@.language == tag,
            Err(error) => step matches Err(reply) && reply@ == failure_reply(
                Operation::Create,
                error,
            ),
        },
{
    match begin_create(content, language) {
        Ok(paste) => Ok(paste),
        Err(error) => Err(reply_to_failure(Operation::Create, &error)),
    }
}

/// What the client is told of a creation once the store has answered. A
/// client that accepts `MIME_JSON`, and nothing else, gets the receipt; any
/// other is sent on to the paste.
pub open spec fn created_reply(paste: PasteView, accept: Seq<char>, ack: StoreAck) -> HttpReplyView {
    match created_outcome(paste, ack) {
        Err(error) => failure_reply(Operation::Create, error),
        Ok((id, permalink)) => if accept == MIME_JSON@ {
            HttpReplyView::Receipt { id, permalink }
        } else {
            HttpReplyView::Redirect(permalink)
        },
    }
}

/// Second step of a creation: the reply, given what the client accepts and
/// how the store answered the write.
pub fn create_paste_reply(paste: &Paste, accept: &str, ack: StoreAck) -> (reply: HttpReply)
    ensures
        reply@ == created_reply(paste@, accept@, ack),
{
    match finish_create(paste, ack) {
        Err(error) => reply_to_failure(Operation::Create, &error),
        Ok(receipt) => {
            if String::from_str(accept) == String::from_str(MIME_JSON) {
                HttpReply::Receipt(receipt)
            } else {
                HttpReply::Redirect(receipt.permalink)
            }
        },
    }
}

/// The media type under which a body of the given kind is sent.
pub open spec fn media_type(kind: ContentKind) -> Seq<char> {
    match kind {
        ContentKind::Text => MIME_TEXT@,
        ContentKind::Html => MIME_HTML@,
    }
}

/// The media type under which a body of the given kind is sent.
pub fn content_type(kind: ContentKind) -> (mime: &'static str)
    ensures
        mime@ == media_type(kind),
{
    match kind {
        ContentKind::Text => MIME_TEXT,
        ContentKind::Html => MIME_HTML,
    }
}

/// The key to ask the store for, or the reply to a request without one.
pub open spec fn key_step(operation: Operation, given: Option<String>) -> Result<
    Seq<char>,
    HttpReplyView,
> {
    match key_outcome(given) {
        Ok(key) => Ok(key),
        Err(error) => Err(failure_reply(operation, error)),
    }
}

/// First step of a retrieval: the key to read from the store, or the reply
/// to a request that names none.
pub fn get_paste(given: Option<String>) -> (step: Result<String, HttpReply>)
    ensures
        match key_step(Operation::Retrieve, given) {
            Ok(key) => step matches Ok(found) && found@ == key,
            Err(reply) => step matches Err(made) && made@ == reply,
        },
{
    match begin_retrieve(given) {
        Ok(key) => Ok(key),
        Err(error) => Err(reply_to_failure(Operation::Retrieve, &error)),
    }
}

/// What the client is told of a retrieval once the store has answered.
pub open spec fn retrieved_reply(key: Seq<char>, want_raw: bool, reply: GetReplyView) -> HttpReplyView {
    match retrieve_outcome(key, want_raw, reply) {
        Ok(document) => HttpReplyView::Page(document),
        Err(error) => failure_reply(Operation::Retrieve, error),
    }
}

/// Second step of a retrieval: the reply, given how the store answered the
/// read.
pub fn get_paste_reply(key: &str, want_raw: bool, reply: GetReply) -> (made: HttpReply)
    ensures
        made@ == retrieved_reply(key@, want_raw, reply@),
{
    match finish_retrieve(key, want_raw, reply) {
        Ok(document) => HttpReply::Page(document),
        Err(error) => reply_to_failure(Operation::Retrieve, &error),
    }
}

/// First step of a removal: the key to remove from the store, or the reply
/// to a request that names none.
pub fn delete_paste(given: Option<String>) -> (step: Result<String, HttpReply>)
    ensures
        match key_step(Operation::Delete, given) {
            Ok(key) => step matches Ok(found) && found@ == key,
            Err(reply) => step matches Err(made) && made@ == reply,
        },
{
    match begin_delete(given) {
        Ok(key) => Ok(key),
        Err(error) => Err(reply_to_failure(Operation::Delete, &error)),
    }
}

/// What the client is told of a removal once the store has answered.
pub open spec fn deleted_reply(ack: StoreAck) -> HttpReplyView {
    match delete_outcome(ack) {
        Ok(_) => HttpReplyView::Message { status: STATUS_OK, message: MESSAGE_DELETED@ },
        Err(error) => failure_reply(Operation::Delete, error),
    }
}

/// Second step of a removal: the reply, given how the store answered.
pub fn delete_paste_reply(ack: StoreAck) -> (reply: HttpReply)
    ensures
        reply@ == deleted_reply(ack),
{
    match finish_delete(ack) {
        Ok(_) => message(STATUS_OK, MESSAGE_DELETED),
        Err(error) => reply_to_failure(Operation::Delete, &error),
    }
}

} // verus!
