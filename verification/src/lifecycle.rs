//! The life of a paste against a store that answers: stored, read any number
//! of times, removed once.
//!
//! The store is taken for what its contract says: a mapping from keys to
//! texts in which a write overwrites, a read finds what was written last, and
//! a removal leaves the key absent whether or not it was there.

use vstd::prelude::*;

use crate::error::{FormField, PasteErrorView};
use crate::ident::{is_identifier, lemma_identifier_has_no_separator};
use crate::key::{key_language, lemma_decode_encode};
use crate::service::{
    content_of, create_outcome, rendered_outcome, resolved, retrieve_outcome, ContentKind,
    DocumentView, FormValue, GetReplyView, PasteView,
};
use crate::markup::{lemma_plain_markup_shows, plain_markup, shown_text, shows, LINE_BREAK};
use crate::utils::{
    highlight_outcome, highlighted_markup, highlighter_answer, lemma_page_holds_code,
    lemma_settled_shows, page_code_offset, page_of, render_outcome, renderable,
    supported_language, THEME,
};

verus! {

/// The store after `value` was written under `key`.
pub open spec fn store_put(
    store: Map<Seq<char>, Seq<char>>,
    key: Seq<char>,
    value: Seq<char>,
) -> Map<Seq<char>, Seq<char>> {
    store.insert(key, value)
}

/// What the store answers to a read of `key`.
pub open spec fn store_get(store: Map<Seq<char>, Seq<char>>, key: Seq<char>) -> GetReplyView {
    if store.dom().contains(key) {
        GetReplyView::Found(store[key])
    } else {
        GetReplyView::Absent
    }
}

/// The store after `key` was removed from it.
pub open spec fn store_delete(store: Map<Seq<char>, Seq<char>>, key: Seq<char>) -> Map<
    Seq<char>,
    Seq<char>,
> {
    store.remove(key)
}

/// A submission without text never leaves validation: creating fails with the
/// missing content, under every identifier and whatever the language entry
/// holds, so there is no paste to write to the store.
pub proof fn lemma_empty_content_is_missing(
    id: Seq<char>,
    content: Option<FormValue>,
    language: Option<FormValue>,
)
    requires
        content matches Some(value) ==> resolved(value) == Ok::<Seq<char>, PasteErrorView>(
            Seq::empty(),
        ),
    ensures
        create_outcome(id, content, language) == Err::<PasteView, PasteErrorView>(
            PasteErrorView::MissingField(FormField::Content),
        ),
{
}

/// Raw round trip: once a valid submission was stored under its key, reading
/// that key back and asking for the raw text gives the submitted text
/// unchanged, whatever else the store held before.
pub proof fn lemma_raw_round_trip(
    store: Map<Seq<char>, Seq<char>>,
    id: Seq<char>,
    content: Option<FormValue>,
    language: Option<FormValue>,
)
    requires
        create_outcome(id, content, language) is Ok,
    ensures
        ({
            let paste = create_outcome(id, content, language)->Ok_0;
            let key = paste.storage_key();
            let after = store_put(store, key, paste.content);
            &&& content_of(content) == Ok::<Seq<char>, PasteErrorView>(paste.content)
            &&& retrieve_outcome(key, true, store_get(after, key)) == Ok::<
                DocumentView,
                PasteErrorView,
            >(DocumentView { body: paste.content, kind: ContentKind::Text })
        }),
{
}

/// Rendered round trip: once a valid submission was stored under its key,
/// reading that key back and asking for the rendered page gives what
/// rendering the submitted text in the submitted language gives.
pub proof fn lemma_rendered_round_trip(
    store: Map<Seq<char>, Seq<char>>,
    id: Seq<char>,
    content: Option<FormValue>,
    language: Option<FormValue>,
)
    requires
        is_identifier(id),
        create_outcome(id, content, language) is Ok,
    ensures
        ({
            let paste = create_outcome(id, content, language)->Ok_0;
            let key = paste.storage_key();
            let after = store_put(store, key, paste.content);
            &&& key_language(key) == paste.language
            &&& retrieve_outcome(key, false, store_get(after, key)) == rendered_outcome(
                render_outcome(paste.content, paste.language),
            )
        }),
{
    let paste = create_outcome(id, content, language)->Ok_0;
    lemma_identifier_has_no_separator(id);
    lemma_decode_encode(id, paste.language);
}

/// Nothing of the paste is dropped: every rendered retrieval that succeeds
/// under a key with a language tag is a page that holds markup whole and
/// unchanged, after the head of the page and before its tail, and that markup
/// shows the stored text: every character of it, in order, none dropped or
/// replaced, between two line breaks.
pub proof fn lemma_rendered_shows_content(key: Seq<char>, text: Seq<char>)
    requires
        key_language(key).len() > 0,
        retrieve_outcome(key, false, GetReplyView::Found(text)) is Ok,
    ensures
        ({
            let lang = key_language(key);
            let document = retrieve_outcome(key, false, GetReplyView::Found(text))->Ok_0;
            let markup = highlight_outcome(text, lang)->Markup_0;
            &&& supported_language(lang)
            &&& highlight_outcome(text, lang) is Markup
            &&& document.kind == ContentKind::Html
            &&& document.body == page_of(markup, lang)
            &&& document.body.subrange(
                page_code_offset(lang),
                page_code_offset(lang) + markup.len(),
            ) == markup
            &&& shown_text(markup) == seq![LINE_BREAK] + text + seq![LINE_BREAK]
        }),
{
    let lang = key_language(key);
    let markup = highlight_outcome(text, lang)->Markup_0;
    lemma_settled_shows(highlighter_answer(text, lang), text);
    lemma_page_holds_code(markup, lang);
}

/// Under a key with a supported language a rendered retrieval gives a page
/// unless the highlighter itself gives up on the text that was handed to it,
/// and then the failure names the language. The length of the text and of
/// its lines never makes it fail.
pub proof fn lemma_rendered_unless_given_up(key: Seq<char>, text: Seq<char>)
    requires
        key_language(key).len() > 0,
        supported_language(key_language(key)),
    ensures
        retrieve_outcome(key, false, GetReplyView::Found(text)) is Err <==> renderable(text)
            && highlighted_markup(text, key_language(key), THEME@) is None,
        retrieve_outcome(key, false, GetReplyView::Found(text)) matches Err(error) ==> error
            == PasteErrorView::RenderingFailed(key_language(key)),
{
}

/// A text with a line that is too long for the highlighter is shown
/// uncoloured: under a key with a supported language the rendered retrieval
/// gives the page around the text itself, escaped, which shows it whole.
pub proof fn lemma_long_line_is_shown_uncoloured(key: Seq<char>, text: Seq<char>)
    requires
        key_language(key).len() > 0,
        supported_language(key_language(key)),
        !renderable(text),
    ensures
        retrieve_outcome(key, false, GetReplyView::Found(text)) == Ok::<
            DocumentView,
            PasteErrorView,
        >(
            DocumentView {
                body: page_of(plain_markup(text), key_language(key)),
                kind: ContentKind::Html,
            },
        ),
        shows(plain_markup(text), text),
{
    lemma_plain_markup_shows(text);
}

/// A language without a syntax definition is an error, never a page: the
/// rendered retrieval of a text that was found under a key with such a
/// language tag fails with the unsupported language, and carries the tag,
/// whatever the text holds.
pub proof fn lemma_unsupported_language_fails(key: Seq<char>, text: Seq<char>)
    requires
        key_language(key).len() > 0,
        !supported_language(key_language(key)),
    ensures
        retrieve_outcome(key, false, GetReplyView::Found(text)) == Err::<
            DocumentView,
            PasteErrorView,
        >(PasteErrorView::UnsupportedLanguage(key_language(key))),
{
}

/// After a removal the paste is gone: reading the removed key, raw or
/// rendered, ends in `NotFound`.
pub proof fn lemma_deleted_is_not_found(
    store: Map<Seq<char>, Seq<char>>,
    key: Seq<char>,
    want_raw: bool,
)
    ensures
        retrieve_outcome(key, want_raw, store_get(store_delete(store, key), key)) == Err::<
            DocumentView,
            PasteErrorView,
        >(PasteErrorView::NotFound),
{
}

/// A key that is absent stays absent while other keys are written and any
/// keys are removed, so a removed paste stays `NotFound` until its own key is
/// written again.
pub proof fn lemma_absent_stays_absent(
    store: Map<Seq<char>, Seq<char>>,
    key: Seq<char>,
    other: Seq<char>,
    value: Seq<char>,
)
    requires
        store_get(store, key) == GetReplyView::Absent,
    ensures
        other != key ==> store_get(store_put(store, other, value), key) == GetReplyView::Absent,
        store_get(store_delete(store, other), key) == GetReplyView::Absent,
{
}

/// Removing is idempotent: removing a key that is not there leaves the store
/// as it is.
pub proof fn lemma_delete_is_idempotent(store: Map<Seq<char>, Seq<char>>, key: Seq<char>)
    ensures
        store_delete(store_delete(store, key), key) == store_delete(store, key),
{
    assert(store_delete(store_delete(store, key), key) =~= store_delete(store, key));
}

} // verus!
