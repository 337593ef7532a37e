use codepaste::error::PasteError;
use codepaste::form::WEB_TEMPLATE;
use codepaste::types::CodeTemplateContext;
use codepaste::utils::{
    highlight_from_answer, is_renderable, get_code_template, get_web_template, page_from_highlight, render_code_template,
    syntax_highlight_code, Highlight, CODE_SLOT, LANG_SLOT, PAGE_HEAD, PAGE_MIDDLE, PAGE_TAIL,
    THEME,
};

#[test]
fn code_template_is_the_page_with_both_slots() {
    let expected = "\n      <html>\n        <head>\n            <title> {lang} code </title>\n        </head>\n        <body>\n            {code}\n        </body>\n    </html>\n    ";
    assert_eq!(get_code_template(), expected);
    assert_eq!(get_code_template(), format!("{}{}{}{}{}", PAGE_HEAD, LANG_SLOT, PAGE_MIDDLE, CODE_SLOT, PAGE_TAIL));
}

#[test]
fn render_code_template_puts_tag_in_title_and_markup_in_body() {
    let context = CodeTemplateContext { code: "<pre>x</pre>".to_string(), lang: "rs".to_string() };
    let expected = "\n      <html>\n        <head>\n            <title> rs code </title>\n        </head>\n        <body>\n            <pre>x</pre>\n        </body>\n    </html>\n    ";
    assert_eq!(render_code_template(&context), expected);
}

#[test]
fn render_code_template_leaves_slot_names_in_the_markup_alone() {
    let context = CodeTemplateContext { code: "{lang} and {code}".to_string(), lang: "py".to_string() };
    let page = render_code_template(&context);
    assert_eq!(page, format!("{}py{}{{lang}} and {{code}}{}", PAGE_HEAD, PAGE_MIDDLE, PAGE_TAIL));
}

#[test]
fn page_from_highlight_maps_each_answer() {
    assert_eq!(
        page_from_highlight(Highlight::Unsupported, "nope".to_string()),
        Err(PasteError::UnsupportedLanguage("nope".to_string()))
    );
    assert_eq!(
        page_from_highlight(Highlight::Failed, "rs".to_string()),
        Err(PasteError::RenderingFailed("rs".to_string()))
    );
    assert_eq!(
        page_from_highlight(Highlight::Markup("<b>m</b>".to_string()), "rs".to_string()),
        Ok(format!("{}rs{}<b>m</b>{}", PAGE_HEAD, PAGE_MIDDLE, PAGE_TAIL))
    );
}

#[test]
fn theme_is_solarized_dark() {
    assert_eq!(THEME, "Solarized (dark)");
}

#[test]
fn highlights_rust_into_a_whole_page() {
    let code = "fn main() {}";
    let page = syntax_highlight_code(code.to_string(), "rs".to_string()).unwrap();
    assert_ne!(page, code);
    let head = format!("{}rs{}", PAGE_HEAD, PAGE_MIDDLE);
    assert!(page.starts_with(&head));
    assert!(page.ends_with(PAGE_TAIL));
    let markup = &page[head.len()..page.len() - PAGE_TAIL.len()];
    assert!(markup.starts_with("<pre style=\"background-color:#002b36;\">"), "{}", markup);
    assert!(markup.ends_with("</pre>\n"), "{}", markup);
    assert!(markup.contains("<span"));
    assert!(markup.contains("fn"));
    assert!(markup.contains("main"));
}

#[test]
fn highlighting_escapes_and_keeps_the_content() {
    let page = syntax_highlight_code("if a < b { c(\"&\") }".to_string(), "rs".to_string()).unwrap();
    assert!(page.contains("&lt;"));
    assert!(page.contains("&amp;"));
    assert!(!page.contains("a < b"));
}

#[test]
fn highlighting_is_the_same_each_time() {
    let first = syntax_highlight_code("print('x')\n".to_string(), "py".to_string());
    let second = syntax_highlight_code("print('x')\n".to_string(), "py".to_string());
    assert!(first.is_ok());
    assert_eq!(first, second);
}

#[test]
fn highlighting_depends_on_the_language() {
    let rust = syntax_highlight_code("let x = 1;".to_string(), "rs".to_string()).unwrap();
    let text = syntax_highlight_code("let x = 1;".to_string(), "txt".to_string()).unwrap();
    assert_ne!(rust, text);
}

#[test]
fn unknown_language_is_unsupported() {
    assert_eq!(
        syntax_highlight_code("x".to_string(), "no-such-language".to_string()),
        Err(PasteError::UnsupportedLanguage("no-such-language".to_string()))
    );
    assert_eq!(
        syntax_highlight_code("x".to_string(), "".to_string()),
        Err(PasteError::UnsupportedLanguage("".to_string()))
    );
}

#[test]
fn empty_code_still_gives_a_page() {
    let page = syntax_highlight_code("".to_string(), "rs".to_string()).unwrap();
    assert!(page.starts_with(PAGE_HEAD));
    assert!(page.contains("</pre>"));
}

#[test]
fn web_template_is_the_paste_form() {
    let page = get_web_template();
    assert_eq!(page, WEB_TEMPLATE);
    assert!(page.starts_with("\n<form method=\"post\" action=\"/\">"));
    assert!(page.contains("<textarea name=\"content\""));
    assert!(page.contains("<select name=\"language\">"));
    assert!(page.contains("<option value=\"rs\">"));
    assert!(page.contains("<option selected=\"\" value=\"txt\">"));
    assert!(page.contains("<input type=\"submit\" value=\"Paste!\">"));
    assert!(page.ends_with("</form>\n\n    "));
    assert_eq!(page.matches("<option ").count(), 200);
}

#[test]
fn line_limit_is_stated() {
    assert_eq!(codepaste::utils::MAX_LINE_LENGTH, 8192);
}

#[test]
fn is_renderable_counts_the_characters_of_each_line() {
    assert!(is_renderable(""));
    assert!(is_renderable("fn main() {}\n"));
    assert!(is_renderable(&"a".repeat(8192)));
    assert!(!is_renderable(&"a".repeat(8193)));
    assert!(is_renderable(&format!("{}\n{}", "a".repeat(8192), "b".repeat(8192))));
    assert!(is_renderable(&format!("{}\n", "a".repeat(8192)).repeat(5)));
    assert!(!is_renderable(&format!("{}\n{}", "a".repeat(10), "b".repeat(8193))));
    assert!(!is_renderable(&format!("{}\nshort\n", "a".repeat(8193))));
    assert!(is_renderable(&"\u{1f600}".repeat(8192)));
    assert!(!is_renderable(&"\u{1f600}".repeat(8193)));
    assert!(is_renderable(&"\n".repeat(100_000)));
}

#[test]
fn a_line_at_the_limit_is_rendered() {
    let code = format!("// {}\n", "x".repeat(8189));
    assert_eq!(code.chars().count(), 8193);
    let page = syntax_highlight_code(code, "rs".to_string()).unwrap();
    assert!(page.contains(&"x".repeat(8189)));
}

#[test]
fn a_line_over_the_limit_is_shown_uncoloured() {
    let line = format!("// {} <&>", "x".repeat(8190));
    let code = format!("{}\nfn main() {{}}\n", line);
    let page = syntax_highlight_code(code, "rs".to_string()).unwrap();
    let expected = format!(
        "{}rs{}<pre>\n// {} &lt;&amp;&gt;\nfn main() {{}}\n</pre>\n{}",
        PAGE_HEAD,
        PAGE_MIDDLE,
        "x".repeat(8190),
        PAGE_TAIL
    );
    assert_eq!(page, expected);
}

#[test]
fn a_huge_raw_string_opener_is_shown_uncoloured() {
    let code = format!("r{}\"", "#".repeat(400_000));
    let page = syntax_highlight_code(code, "rs".to_string()).unwrap();
    let expected = format!(
        "{}rs{}<pre>\nr{}&quot;</pre>\n{}",
        PAGE_HEAD,
        PAGE_MIDDLE,
        "#".repeat(400_000),
        PAGE_TAIL
    );
    assert_eq!(page, expected);
}

#[test]
fn every_size_of_the_form_is_rendered() {
    let code = "a".repeat(393_216);
    let page = syntax_highlight_code(code.clone(), "txt".to_string()).unwrap();
    assert!(page.contains(&code));
}

#[test]
fn many_lines_are_rendered() {
    let lines = "let x = 1;\n".repeat(2_000);
    let page = syntax_highlight_code(lines, "rs".to_string()).unwrap();
    assert_eq!(page.matches("<span style=").count() >= 2_000, true);
}

#[test]
fn highlight_from_answer_settles_each_answer() {
    let good = "<pre style=\"background-color:#002b36;\">\n<span style=\"color:#839496;\">a &lt; b</span></pre>\n";
    assert_eq!(highlight_from_answer(None, "a < b"), Highlight::Unsupported);
    assert_eq!(highlight_from_answer(Some(None), "a < b"), Highlight::Failed);
    assert_eq!(
        highlight_from_answer(Some(Some(good.to_string())), "a < b"),
        Highlight::Markup(good.to_string())
    );
}

#[test]
fn highlight_from_answer_replaces_markup_that_does_not_show_the_code() {
    let plain = "<pre>\na &lt; b</pre>\n".to_string();
    for bad in ["<pre>\na  b</pre>\n", "<pre>\na &lt; c</pre>\n", "", "a < b", "<pre>\na &lt; b!</pre>\n"] {
        assert_eq!(
            highlight_from_answer(Some(Some(bad.to_string())), "a < b"),
            Highlight::Markup(plain.clone()),
            "{}",
            bad
        );
    }
}

#[test]
fn highlight_from_answer_shows_an_overlong_line_uncoloured_whatever_was_made() {
    let code = "y".repeat(8193);
    let plain = format!("<pre>\n{}</pre>\n", code);
    assert_eq!(highlight_from_answer(None, &code), Highlight::Unsupported);
    assert_eq!(highlight_from_answer(Some(None), &code), Highlight::Markup(plain.clone()));
    assert_eq!(
        highlight_from_answer(Some(Some("<pre>\n</pre>\n".to_string())), &code),
        Highlight::Markup(plain.clone())
    );
    assert_eq!(
        highlight_from_answer(Some(Some(plain.clone())), &code),
        Highlight::Markup(plain)
    );
}

#[test]
fn an_unknown_language_is_unsupported_whatever_the_code() {
    let code = "y".repeat(20_000);
    assert_eq!(
        syntax_highlight_code(code, "no-such-language".to_string()),
        Err(PasteError::UnsupportedLanguage("no-such-language".to_string()))
    );
}

#[test]
fn the_longest_raw_string_fence_is_rendered() {
    let fence = "#".repeat(4000);
    let code = format!("let s = r{}\"x\"{};\n", fence, fence);
    assert!(code.chars().count() <= 8192);
    let page = syntax_highlight_code(code, "rs".to_string()).unwrap();
    assert!(page.contains(&fence));
}

#[test]
fn the_longest_heredoc_word_is_rendered() {
    let word = "\u{1d49c}".repeat(8000);
    assert_eq!(word.len(), 32_000);
    let code = format!("cat <<{}\nsome text\n{}\n", word, word);
    for language in ["sh", "rb", "pl", "php"] {
        let page = syntax_highlight_code(code.clone(), language.to_string()).unwrap();
        assert!(page.contains("some text"), "{}", language);
    }
}

#[test]
fn the_longest_fence_of_other_languages_is_rendered() {
    let ticks = "`".repeat(8000);
    let markdown = format!("{}\ncode\n{}\n", ticks, ticks);
    assert!(syntax_highlight_code(markdown, "md".to_string()).is_ok());
    let equals = "=".repeat(8000);
    let lua = format!("x = [{}[\ntext\n]{}]\n", equals, equals);
    assert!(syntax_highlight_code(lua, "lua".to_string()).is_ok());
    let delimiter = "d".repeat(4000);
    let cpp = format!("auto s = R\"{}(text){}\";\n", delimiter, delimiter);
    assert!(syntax_highlight_code(cpp, "cpp".to_string()).is_ok());
}

fn shown_text(markup: &str) -> String {
    let mut text = String::new();
    let mut in_tag = false;
    for c in markup.chars() {
        if in_tag {
            in_tag = c != '>';
        } else if c == '<' {
            in_tag = true;
        } else {
            text.push(c);
        }
    }
    let mut decoded = String::new();
    let mut rest = text.as_str();
    while let Some(c) = rest.chars().next() {
        let mut step = c.len_utf8();
        let mut out = c;
        for (entity, plain) in [("&lt;", '<'), ("&gt;", '>'), ("&amp;", '&'), ("&#39;", '\''), ("&quot;", '"')] {
            if rest.starts_with(entity) {
                step = entity.len();
                out = plain;
            }
        }
        decoded.push(out);
        rest = &rest[step..];
    }
    decoded
}

fn assert_page_shows_contents(language: &str) {
    let contents = [
        "fn main() {}",
        "fn main() {\n    println!(\"<&>'\");\n}\n",
        "a < b && c > d || e == \"&lt;\" // &amp; 'q'\n",
        "<html><body class=\"x\">&nbsp;</body></html>\n",
        "h\u{e9}llo \u{4e2d}\u{6587} \u{1f600}\n\ttab\r\nlast line without break",
        "{lang} {code}\n",
        "\n\n\n",
    ];
    for content in contents {
        let page = syntax_highlight_code(content.to_string(), language.to_string()).unwrap();
        let head = format!("{}{}{}", PAGE_HEAD, language, PAGE_MIDDLE);
        let markup = &page[head.len()..page.len() - PAGE_TAIL.len()];
        assert_eq!(shown_text(markup), format!("\n{}\n", content), "{}", language);
    }
}

#[test]
fn the_page_shows_every_character_of_rust() {
    assert_page_shows_contents("rs");
}

#[test]
fn the_page_shows_every_character_of_python() {
    assert_page_shows_contents("py");
}

#[test]
fn the_page_shows_every_character_of_html() {
    assert_page_shows_contents("html");
}

#[test]
fn the_page_shows_every_character_of_plain_text() {
    assert_page_shows_contents("txt");
}

#[test]
fn the_page_shows_every_character_of_markdown() {
    assert_page_shows_contents("md");
}

#[test]
fn the_page_shows_every_character_of_shell() {
    assert_page_shows_contents("sh");
}
