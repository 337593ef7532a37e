use codepaste::error::{FormField, PasteError};
use codepaste::handlers::{
    create_paste, create_paste_reply, delete_paste, delete_paste_reply, get_paste,
    get_paste_reply, reply_to_failure, HttpReply, Operation, CACHE_CONTROL, MIME_JSON,
};
use codepaste::service::{begin_create_with_id, ContentKind, Document, FormValue, GetReply, StoreAck};
use codepaste::types::{CodePaseResponse, JsonResponse};

fn message(status: u16, text: &str) -> HttpReply {
    HttpReply::Message { status, body: JsonResponse { message: text.to_string() } }
}

fn field(text: &str) -> Option<FormValue> {
    Some(FormValue::Field(text.to_string()))
}

#[test]
fn failures_of_a_creation() {
    assert_eq!(
        reply_to_failure(Operation::Create, &PasteError::MissingField(FormField::Content)),
        message(400, "missing 'content' field")
    );
    assert_eq!(
        reply_to_failure(Operation::Create, &PasteError::MissingField(FormField::Language)),
        message(400, "missing 'language' field")
    );
    assert_eq!(
        reply_to_failure(Operation::Create, &PasteError::InvalidEncoding),
        message(400, "couldn't parse file")
    );
    assert_eq!(
        reply_to_failure(Operation::Create, &PasteError::StoreUnavailable),
        message(400, "couldn't add pase to database")
    );
}

#[test]
fn failures_of_a_retrieval() {
    assert_eq!(reply_to_failure(Operation::Retrieve, &PasteError::NotFound), message(404, "missing id"));
    assert_eq!(reply_to_failure(Operation::Retrieve, &PasteError::StoreUnavailable), message(404, "missing id"));
    assert_eq!(
        reply_to_failure(Operation::Retrieve, &PasteError::UnsupportedLanguage("zz".to_string())),
        message(500, "couldn't syntax highlight code")
    );
    assert_eq!(
        reply_to_failure(Operation::Retrieve, &PasteError::RenderingFailed("rs".to_string())),
        message(500, "couldn't syntax highlight code")
    );
}

#[test]
fn failures_of_a_removal() {
    assert_eq!(reply_to_failure(Operation::Delete, &PasteError::NotFound), message(404, "missing id"));
    assert_eq!(reply_to_failure(Operation::Delete, &PasteError::StoreUnavailable), message(404, "missing id"));
}

#[test]
fn create_paste_hands_back_the_paste_to_store() {
    let paste = create_paste(field("fn main() {}"), field("rs")).unwrap();
    assert_eq!(paste.content(), "fn main() {}");
    assert_eq!(paste.language(), "rs");
    assert_eq!(paste.id().len(), 7);
}

#[test]
fn create_paste_replies_to_an_invalid_submission() {
    assert_eq!(create_paste(None, field("rs")), Err(message(400, "missing 'content' field")));
    assert_eq!(create_paste(field(""), field("rs")), Err(message(400, "missing 'content' field")));
    assert_eq!(
        create_paste(Some(FormValue::File(vec![0xff])), field("rs")),
        Err(message(400, "couldn't parse file"))
    );
    assert_eq!(create_paste(field("x"), None), Err(message(400, "missing 'language' field")));
}

#[test]
fn create_paste_reply_depends_on_what_the_client_accepts() {
    let paste = begin_create_with_id("ab12cd3".to_string(), field("x"), field("rs")).unwrap();
    assert_eq!(
        create_paste_reply(&paste, "application/json", StoreAck::Done),
        HttpReply::Receipt(CodePaseResponse {
            id: "ab12cd3".to_string(),
            permalink: "http://paste.priver.dev/ab12cd3.rs".to_string(),
        })
    );
    assert_eq!(
        create_paste_reply(&paste, "text/html", StoreAck::Done),
        HttpReply::Redirect("http://paste.priver.dev/ab12cd3.rs".to_string())
    );
    assert_eq!(
        create_paste_reply(&paste, "", StoreAck::Done),
        HttpReply::Redirect("http://paste.priver.dev/ab12cd3.rs".to_string())
    );
    assert_eq!(
        create_paste_reply(&paste, "application/json, text/html", StoreAck::Done),
        HttpReply::Redirect("http://paste.priver.dev/ab12cd3.rs".to_string())
    );
    assert_eq!(MIME_JSON, "application/json");
}

#[test]
fn create_paste_reply_reports_a_failed_store() {
    let paste = begin_create_with_id("ab12cd3".to_string(), field("x"), field("rs")).unwrap();
    assert_eq!(
        create_paste_reply(&paste, "application/json", StoreAck::Unavailable),
        message(400, "couldn't add pase to database")
    );
    assert_eq!(
        create_paste_reply(&paste, "", StoreAck::Unavailable),
        message(400, "couldn't add pase to database")
    );
}

#[test]
fn get_paste_needs_a_key() {
    assert_eq!(get_paste(Some("ab12cd3.rs".to_string())), Ok("ab12cd3.rs".to_string()));
    assert_eq!(get_paste(None), Err(message(404, "missing id")));
    assert_eq!(get_paste(Some("".to_string())), Err(message(404, "missing id")));
}

#[test]
fn get_paste_reply_sends_the_paste() {
    assert_eq!(
        get_paste_reply("ab12cd3.rs", true, GetReply::Found("x".to_string())),
        HttpReply::Page(Document { body: "x".to_string(), kind: ContentKind::Text })
    );
    match get_paste_reply("ab12cd3.rs", false, GetReply::Found("x".to_string())) {
        HttpReply::Page(document) => {
            assert_eq!(document.kind, ContentKind::Html);
            assert!(document.body.contains("<title> rs code </title>"));
        }
        other => panic!("{:?}", other),
    }
    assert_eq!(CACHE_CONTROL, "max-age=2629746");
}

#[test]
fn get_paste_reply_reports_what_went_wrong() {
    assert_eq!(get_paste_reply("ab12cd3.rs", true, GetReply::Absent), message(404, "missing id"));
    assert_eq!(get_paste_reply("ab12cd3.rs", false, GetReply::Unavailable), message(404, "missing id"));
    assert_eq!(
        get_paste_reply("ab12cd3.no-such-language", false, GetReply::Found("x".to_string())),
        message(500, "couldn't syntax highlight code")
    );
}

#[test]
fn delete_paste_needs_a_key() {
    assert_eq!(delete_paste(Some("ab12cd3.rs".to_string())), Ok("ab12cd3.rs".to_string()));
    assert_eq!(delete_paste(None), Err(message(404, "missing id")));
}

#[test]
fn delete_paste_reply_follows_the_store() {
    assert_eq!(delete_paste_reply(StoreAck::Done), message(200, "deleted"));
    assert_eq!(delete_paste_reply(StoreAck::Unavailable), message(404, "missing id"));
}

#[test]
fn content_type_follows_the_kind() {
    assert_eq!(codepaste::handlers::content_type(ContentKind::Text), "text/plain");
    assert_eq!(codepaste::handlers::content_type(ContentKind::Html), "text/html");
}

#[test]
fn get_paste_reply_to_an_overlong_line() {
    let text = "z".repeat(9000);
    match get_paste_reply("ab12cd3.rs", false, GetReply::Found(text.clone())) {
        HttpReply::Page(document) => {
            assert_eq!(document.kind, ContentKind::Html);
            assert!(document.body.contains(&format!("<pre>\n{}</pre>\n", text)));
        }
        other => panic!("{:?}", other),
    }
    assert_eq!(
        get_paste_reply("ab12cd3.rs", true, GetReply::Found(text.clone())),
        HttpReply::Page(Document { body: text, kind: ContentKind::Text })
    );
}
