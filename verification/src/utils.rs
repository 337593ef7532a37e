//! Pages: the highlighted view of a paste, and the paste form.

use syntect::highlighting::ThemeSet;
use syntect::html::highlighted_html_for_string;
use syntect::parsing::SyntaxSet;
use vstd::prelude::*;
use vstd::string::*;

use crate::error::{view_result, PasteError, PasteErrorView};
use crate::form::WEB_TEMPLATE;
use crate::markup::{
    lemma_plain_markup_shows, markup_shows, plain, plain_markup, shows, LINE_BREAK,
};
use crate::types::CodeTemplateContext;

verus! {

/// The theme in which every paste is coloured.
pub const THEME: &'static str = "Solarized (dark)";

/// The page of a rendered paste up to the language tag in its title.
pub const PAGE_HEAD: &'static str = "\n      <html>\n        <head>\n            <title> ";

/// The page between the language tag and the highlighted markup.
pub const PAGE_MIDDLE: &'static str = " code </title>\n        </head>\n        <body>\n            ";

/// The page after the highlighted markup.
pub const PAGE_TAIL: &'static str = "\n        </body>\n    </html>\n    ";

/// What stands for the language tag in the unfilled page.
pub const LANG_SLOT: &'static str = "{lang}";

/// What stands for the highlighted markup in the unfilled page.
pub const CODE_SLOT: &'static str = "{code}";

/// The page of a rendered paste: the language tag in the title, the markup as
/// the body, both exactly as given.
pub open spec fn page_of(code: Seq<char>, lang: Seq<char>) -> Seq<char> {
    PAGE_HEAD@ + lang + PAGE_MIDDLE@ + code + PAGE_TAIL@
}

/// Where the markup starts in a page with the language tag `lang`.
pub open spec fn page_code_offset(lang: Seq<char>) -> int {
    (PAGE_HEAD@.len() + lang.len() + PAGE_MIDDLE@.len()) as int
}

/// The page holds the markup whole and unchanged, at `page_code_offset`.
pub proof fn lemma_page_holds_code(code: Seq<char>, lang: Seq<char>)
    ensures
        page_of(code, lang).subrange(
            page_code_offset(lang),
            page_code_offset(lang) + code.len(),
        ) == code,
        page_code_offset(lang) + code.len() + PAGE_TAIL@.len() == page_of(code, lang).len(),
{
    let start = page_code_offset(lang);
    assert(page_of(code, lang).subrange(start, start + code.len()) =~= code);
}

/// Fills the page with a language tag and highlighted markup.
pub fn render_code_template(context: &CodeTemplateContext) -> (page: String)
    ensures
        page@ == page_of(context.code@, context.lang@),
{
    let mut page = String::from_str(PAGE_HEAD);
    page.append(context.lang.as_str());
    page.append(PAGE_MIDDLE);
    page.append(context.code.as_str());
    page.append(PAGE_TAIL);
    page
}

/// The unfilled page: `LANG_SLOT` stands where the language tag goes and
/// `CODE_SLOT` where the markup goes.
pub fn get_code_template() -> (template: String)
    ensures
        template@ == page_of(CODE_SLOT@, LANG_SLOT@),
{
    let slots = CodeTemplateContext {
        code: String::from_str(CODE_SLOT),
        lang: String::from_str(LANG_SLOT),
    };
    render_code_template(&slots)
}

/// The longest line, in characters, that is handed to the highlighter. Its
/// parser takes each line whole, which is bad for very long lines; code with
/// a line of more than some thousand characters is shown uncoloured instead.
pub const MAX_LINE_LENGTH: usize = 8192;

/// The number of characters between the last line break before position
/// `at` and `at` itself: how long the line is that `at` stands in, up to `at`.
pub open spec fn line_run(code: Seq<char>, at: int) -> nat
    decreases at,
{
    if at <= 0 || at > code.len() {
        0
    } else if code[at - 1] == LINE_BREAK {
        0
    } else {
        line_run(code, at - 1) + 1
    }
}

/// No line of `code` is longer than `MAX_LINE_LENGTH` characters, the line
/// break not counted: such code is handed to the highlighter.
pub open spec fn renderable(code: Seq<char>) -> bool {
    forall|at: int| 0 <= at <= code.len() ==> #[trigger] line_run(code, at) <= MAX_LINE_LENGTH
}

/// Whether no line of `code` is longer than `MAX_LINE_LENGTH` characters.
pub fn is_renderable(code: &str) -> (yes: bool)
    ensures
        yes == renderable(code@),
{
    let mut run: usize = 0;
    for c in chars: code.chars()
        invariant
            chars.seq() == code@,
            run == line_run(code@, chars.index() as int),
            forall|at: int|
                0 <= at <= chars.index() ==> #[trigger] line_run(code@, at) <= MAX_LINE_LENGTH,
    {
        if c == LINE_BREAK {
            run = 0;
        } else {
            if run == MAX_LINE_LENGTH {
                assert(line_run(code@, chars.index() + 1) == run + 1);
                return false;
            }
            run = run + 1;
        }
    }
    true
}

/// The error of `syntect`, which the highlighter hands back when it gives up.
#[verifier::external_type_specification]
#[verifier::external_body]
pub struct ExHighlightingError(syntect::Error);

/// Whether the bundled syntax set holds a definition for the file extension
/// `lang`: whether `SyntaxSet::find_syntax_by_extension` finds one in the set
/// of `SyntaxSet::load_defaults_newlines`.
pub uninterp spec fn supported_language(lang: Seq<char>) -> bool;

/// The markup that `highlighted_html_for_string` makes of `code` with the
/// bundled definition for `lang` and the bundled theme named `theme`, or
/// nothing where it gives up.
pub uninterp spec fn highlighted_markup(
    code: Seq<char>,
    lang: Seq<char>,
    theme: Seq<char>,
) -> Option<Seq<char>>;

/// The names of the themes that `syntect` bundles.
pub open spec fn bundled_theme(theme: Seq<char>) -> bool {
    ||| theme == "base16-ocean.dark"@
    ||| theme == "base16-eighties.dark"@
    ||| theme == "base16-mocha.dark"@
    ||| theme == "base16-ocean.light"@
    ||| theme == "InspiredGitHub"@
    ||| theme == "Solarized (dark)"@
    ||| theme == "Solarized (light)"@
}

/// `syntect`'s highlighter on its bundled syntaxes and themes:
/// `SyntaxSet::find_syntax_by_extension` looks the language up, and
/// `highlighted_html_for_string` colours the code where a definition is found.
/// The contract claims that the answer is there exactly for the supported
/// languages, and that it is then the named markup, or the highlighter's error
/// where the named markup is nothing. Two inputs are left out because the
/// call can panic on them. The theme has to be a bundled one: the theme set
/// is indexed by its name. And no line of the code may be longer than
/// `MAX_LINE_LENGTH`: where a rule refers back to what an earlier rule
/// captured from a line, the parser compiles a pattern that holds the
/// captured piece (`MatchPattern::regex_with_refs`) and panics where the
/// compile fails, as it does once the pattern outgrows the 10 MiB that the
/// regex engine allows. A piece of a line within the limit has at most
/// 32 KiB.
#[verifier::external_body]
fn highlight(code: &str, lang: &str, theme: &str) -> (answer: Option<
    Result<String, syntect::Error>,
>)
    requires
        bundled_theme(theme@),
        renderable(code@),
    ensures
        answer is Some <==> supported_language(lang@),
        answer matches Some(Ok(markup)) ==> highlighted_markup(code@, lang@, theme@) == Some(
            markup@,
        ),
        answer matches Some(Err(_)) ==> highlighted_markup(code@, lang@, theme@) is None,
{
    let syntaxes = SyntaxSet::load_defaults_newlines();
    let themes = ThemeSet::load_defaults();
    syntaxes.find_syntax_by_extension(lang).map(
        |syntax| highlighted_html_for_string(code, &syntaxes, syntax, &themes.themes[theme]),
    )
}

/// What there is to show of one paste.
#[derive(Debug, PartialEq, Eq)]
pub enum Highlight {
    /// No syntax definition is known for the language.
    Unsupported,
    /// The language is known, and the highlighter gave up on the code.
    Failed,
    /// Markup that shows the code.
    Markup(String),
}

/// A `Highlight` with its markup as a sequence of characters.
pub enum HighlightView {
    Unsupported,
    Failed,
    Markup(Seq<char>),
}

impl View for Highlight {
    type V = HighlightView;

    open spec fn view(&self) -> HighlightView {
        match self {
            Highlight::Unsupported => HighlightView::Unsupported,
            Highlight::Failed => HighlightView::Failed,
            Highlight::Markup(markup) => HighlightView::Markup(markup@),
        }
    }
}

/// The page, or the failure, that follows from what there is to show of a
/// paste in the language `lang`.
pub open spec fn page_for(highlight: HighlightView, lang: Seq<char>) -> Result<
    Seq<char>,
    PasteErrorView,
> {
    match highlight {
        HighlightView::Unsupported => Err(PasteErrorView::UnsupportedLanguage(lang)),
        HighlightView::Failed => Err(PasteErrorView::RenderingFailed(lang)),
        HighlightView::Markup(markup) => Ok(page_of(markup, lang)),
    }
}

/// What is handed to the highlighter for `code`: the code itself where no
/// line of it is too long, else the empty text, which still tells whether the
/// language is known.
pub open spec fn handed_over(code: Seq<char>) -> Seq<char> {
    if renderable(code) {
        code
    } else {
        Seq::empty()
    }
}

/// What the highlighter answers when asked for `code` as `lang`: nothing for
/// an unsupported language, else the markup that it makes of what is handed
/// over or, where it gives up, nothing in its place.
pub open spec fn highlighter_answer(code: Seq<char>, lang: Seq<char>) -> Option<
    Option<Seq<char>>,
> {
    if supported_language(lang) {
        Some(highlighted_markup(handed_over(code), lang, THEME@))
    } else {
        None
    }
}

/// What there is to show of `code` once the highlighter has answered. No
/// answer means that the language is unsupported. Code that was kept from the
/// highlighter is shown uncoloured. Else the code is shown as the highlighter
/// coloured it, or uncoloured where its markup does not show the code whole;
/// only where the highlighter gave up is there nothing to show.
pub open spec fn settled(answer: Option<Option<Seq<char>>>, code: Seq<char>) -> HighlightView {
    match answer {
        None => HighlightView::Unsupported,
        Some(made) => if !renderable(code) {
            HighlightView::Markup(plain_markup(code))
        } else {
            match made {
                None => HighlightView::Failed,
                Some(markup) => if shows(markup, code) {
                    HighlightView::Markup(markup)
                } else {
                    HighlightView::Markup(plain_markup(code))
                },
            }
        },
    }
}

/// What there is to show of `code` as `lang`.
pub open spec fn highlight_outcome(code: Seq<char>, lang: Seq<char>) -> HighlightView {
    settled(highlighter_answer(code, lang), code)
}

/// What rendering `code` as `lang` comes to: the page around markup that
/// shows the code, or the failure that names the language. An unsupported
/// language fails as such whatever the code holds. For a supported language
/// rendering fails only where the highlighter gives up on the code.
pub open spec fn render_outcome(code: Seq<char>, lang: Seq<char>) -> Result<
    Seq<char>,
    PasteErrorView,
> {
    page_for(highlight_outcome(code, lang), lang)
}

/// Whatever the highlighter answers, markup that is handed on shows the code
/// whole.
pub proof fn lemma_settled_shows(answer: Option<Option<Seq<char>>>, code: Seq<char>)
    ensures
        settled(answer, code) matches HighlightView::Markup(markup) ==> shows(markup, code),
{
    lemma_plain_markup_shows(code);
}

/// Turns what there is to show of a paste into its page, or into the failure
/// that carries the language tag.
pub fn page_from_highlight(highlight: Highlight, lang: String) -> (page: Result<
    String,
    PasteError,
>)
    ensures
        view_result(page) == page_for(highlight@, lang@),
{
    match highlight {
        Highlight::Unsupported => Err(PasteError::UnsupportedLanguage(lang)),
        Highlight::Failed => Err(PasteError::RenderingFailed(lang)),
        Highlight::Markup(markup) => {
            let context = CodeTemplateContext { code: markup, lang };
            Ok(render_code_template(&context))
        },
    }
}

/// Settles what to show of `code`, given the highlighter's answer: nothing
/// for an unsupported language, else its markup or nothing where it gave up.
pub fn highlight_from_answer(answer: Option<Option<String>>, code: &str) -> (highlight: Highlight)
    ensures
        highlight@ == settled(answer.deep_view(), code@),
{
    match answer {
        None => Highlight::Unsupported,
        Some(made) => {
            if !is_renderable(code) {
                return Highlight::Markup(plain(code));
            }
            match made {
                None => Highlight::Failed,
                Some(markup) => {
                    if markup_shows(markup.as_str(), code) {
                        Highlight::Markup(markup)
                    } else {
                        Highlight::Markup(plain(code))
                    }
                },
            }
        },
    }
}

/// Asks the highlighter for the markup of `code` as `lang` and settles what
/// to show. Code with a line that is too long is kept from the highlighter:
/// the empty text is handed over in its place.
pub fn ask_highlighter(code: &str, lang: &str) -> (highlight: Highlight)
    ensures
        highlight@ == highlight_outcome(code@, lang@),
{
    let handed = if is_renderable(code) {
        code
    } else {
        proof {
            reveal_strlit("");
            assert(""@ =~= Seq::<char>::empty());
        }
        ""
    };
    let answer = match highlight(handed, lang, THEME) {
        None => None,
        Some(Ok(markup)) => Some(Some(markup)),
        Some(Err(_)) => Some(None),
    };
    highlight_from_answer(answer, code)
}

/// Renders `code` as a page in the language `lang`: highlighted markup, or
/// the code uncoloured where it cannot be highlighted as it is. An unknown
/// language is an error of its own, never a fallback to plain text; the code
/// itself is not changed.
pub fn syntax_highlight_code(code: String, lang: String) -> (page: Result<String, PasteError>)
    ensures
        view_result(page) == render_outcome(code@, lang@),
{
    let highlight = ask_highlighter(code.as_str(), lang.as_str());
    page_from_highlight(highlight, lang)
}

/// The page with the paste form.
pub fn get_web_template() -> (page: String)
    ensures
        page@ == WEB_TEMPLATE@,
{
    String::from_str(WEB_TEMPLATE)
}

} // verus!
