//! What highlighted markup shows to its reader: its text without the tags,
//! with each entity read as the character it stands for.

use vstd::prelude::*;
use vstd::string::*;

verus! {

/// The character that ends a line.
pub const LINE_BREAK: char = '\n';

/// The text of `markup` from position `at` on with the tags left out. A tag
/// runs from `<` to the next `>`; `in_tag` says whether `at` stands in one.
pub open spec fn strip_tags(markup: Seq<char>, at: int, in_tag: bool) -> Seq<char>
    decreases markup.len() - at,
{
    if at < 0 || at >= markup.len() {
        Seq::empty()
    } else if in_tag {
        strip_tags(markup, at + 1, markup[at] != '>')
    } else if markup[at] == '<' {
        strip_tags(markup, at + 1, true)
    } else {
        seq![markup[at]] + strip_tags(markup, at + 1, false)
    }
}

/// Whether `text` reads `word` at position `at`.
pub open spec fn reads(text: Seq<char>, at: int, word: Seq<char>) -> bool {
    &&& 0 <= at
    &&& at + word.len() <= text.len()
    &&& text.subrange(at, at + word.len()) == word
}

/// The entity that stands for `<`.
pub open spec fn entity_lt() -> Seq<char> {
    seq!['&', 'l', 't', ';']
}

/// The entity that stands for `>`.
pub open spec fn entity_gt() -> Seq<char> {
    seq!['&', 'g', 't', ';']
}

/// The entity that stands for `&`.
pub open spec fn entity_amp() -> Seq<char> {
    seq!['&', 'a', 'm', 'p', ';']
}

/// The entity that stands for `'`.
pub open spec fn entity_apos() -> Seq<char> {
    seq!['&', '#', '3', '9', ';']
}

/// The entity that stands for `"`.
pub open spec fn entity_quot() -> Seq<char> {
    seq!['&', 'q', 'u', 'o', 't', ';']
}

/// The text from position `at` on with each of the five entities read as the
/// character it stands for, from left to right, each character of the text
/// read once.
pub open spec fn decode_entities(text: Seq<char>, at: int) -> Seq<char>
    decreases text.len() - at,
{
    if at < 0 || at >= text.len() {
        Seq::empty()
    } else if reads(text, at, entity_lt()) {
        seq!['<'] + decode_entities(text, at + 4)
    } else if reads(text, at, entity_gt()) {
        seq!['>'] + decode_entities(text, at + 4)
    } else if reads(text, at, entity_amp()) {
        seq!['&'] + decode_entities(text, at + 5)
    } else if reads(text, at, entity_apos()) {
        seq!['\''] + decode_entities(text, at + 5)
    } else if reads(text, at, entity_quot()) {
        seq!['"'] + decode_entities(text, at + 6)
    } else {
        seq![text[at]] + decode_entities(text, at + 1)
    }
}

/// What `markup` shows: its text without the tags, the entities decoded.
pub open spec fn shown_text(markup: Seq<char>) -> Seq<char> {
    decode_entities(strip_tags(markup, 0, false), 0)
}

/// `markup` shows `code`, every character of it, in order, none dropped or
/// replaced, and nothing else but one line break before it and one after it:
/// the two that highlighted markup sets around what it colours.
pub open spec fn shows(markup: Seq<char>, code: Seq<char>) -> bool {
    shown_text(markup) == seq![LINE_BREAK] + code + seq![LINE_BREAK]
}

/// The text of `markup` with the tags left out.
fn without_tags(markup: &str) -> (text: Vec<char>)
    ensures
        text@ == strip_tags(markup@, 0, false),
{
    let mut text: Vec<char> = Vec::new();
    let mut in_tag = false;
    for c in chars: markup.chars()
        invariant
            chars.seq() == markup@,
            text@ + strip_tags(markup@, chars.index() as int, in_tag) == strip_tags(
                markup@,
                0,
                false,
            ),
    {
        let ghost before = text@;
        let ghost at = chars.index() as int;
        if in_tag {
            in_tag = c != '>';
        } else if c == '<' {
            in_tag = true;
        } else {
            text.push(c);
            proof {
                let rest = strip_tags(markup@, at + 1, false);
                assert(text@ + rest =~= before + (seq![c] + rest));
            }
        }
    }
    proof {
        assert(text@ + Seq::<char>::empty() =~= text@);
    }
    text
}

/// Whether `text` reads `word` at position `at`.
fn reads_at(text: &Vec<char>, at: usize, word: &Vec<char>) -> (yes: bool)
    requires
        at <= text.len(),
    ensures
        yes == reads(text@, at as int, word@),
{
    if word.len() > text.len() - at {
        return false;
    }
    let mut n: usize = 0;
    while n < word.len()
        invariant
            n <= word.len(),
            at + word.len() <= text.len(),
            forall|j: int| 0 <= j < n ==> text@[at + j] == word@[j],
        decreases word.len() - n,
    {
        if text[at + n] != word[n] {
            proof {
                let part = text@.subrange(at as int, at + word.len());
                assert(part[n as int] == text@[at + n]);
            }
            return false;
        }
        n = n + 1;
    }
    proof {
        assert(text@.subrange(at as int, at + word.len()) =~= word@);
    }
    true
}

/// The text with each entity read as the character it stands for.
fn decoded(text: &Vec<char>) -> (plain: Vec<char>)
    ensures
        plain@ == decode_entities(text@, 0),
{
    let lt: Vec<char> = vec!['&', 'l', 't', ';'];
    let gt: Vec<char> = vec!['&', 'g', 't', ';'];
    let amp: Vec<char> = vec!['&', 'a', 'm', 'p', ';'];
    let apos: Vec<char> = vec!['&', '#', '3', '9', ';'];
    let quot: Vec<char> = vec!['&', 'q', 'u', 'o', 't', ';'];
    proof {
        assert(lt@ =~= entity_lt());
        assert(gt@ =~= entity_gt());
        assert(amp@ =~= entity_amp());
        assert(apos@ =~= entity_apos());
        assert(quot@ =~= entity_quot());
    }
    let mut plain: Vec<char> = Vec::new();
    let mut at: usize = 0;
    while at < text.len()
        invariant
            at <= text.len(),
            lt@ == entity_lt(),
            gt@ == entity_gt(),
            amp@ == entity_amp(),
            apos@ == entity_apos(),
            quot@ == entity_quot(),
            plain@ + decode_entities(text@, at as int) == decode_entities(text@, 0),
        decreases text.len() - at,
    {
        let ghost before = plain@;
        let ghost here = at as int;
        let c: char;
        let step: usize;
        if reads_at(text, at, &lt) {
            c = '<';
            step = 4;
        } else if reads_at(text, at, &gt) {
            c = '>';
            step = 4;
        } else if reads_at(text, at, &amp) {
            c = '&';
            step = 5;
        } else if reads_at(text, at, &apos) {
            c = '\'';
            step = 5;
        } else if reads_at(text, at, &quot) {
            c = '"';
            step = 6;
        } else {
            c = text[at];
            step = 1;
        }
        plain.push(c);
        at = at + step;
        proof {
            let rest = decode_entities(text@, here + step);
            assert(decode_entities(text@, here) == seq![c] + rest);
            assert(plain@ + rest =~= before + (seq![c] + rest));
        }
    }
    proof {
        assert(plain@ + Seq::<char>::empty() =~= plain@);
    }
    plain
}

/// Whether `text` is `code` with one line break before it and one after it.
fn frames(text: &Vec<char>, code: &str) -> (yes: bool)
    ensures
        yes == (text@ == seq![LINE_BREAK] + code@ + seq![LINE_BREAK]),
{
    let ghost framed = seq![LINE_BREAK] + code@ + seq![LINE_BREAK];
    let len = code.unicode_len();
    if text.len() < 2 || text.len() - 2 != len {
        return false;
    }
    if text[0] != LINE_BREAK || text[len + 1] != LINE_BREAK {
        proof {
            assert(framed[0] == LINE_BREAK);
            assert(framed[len + 1] == LINE_BREAK);
        }
        return false;
    }
    let mut n: usize = 0;
    for c in chars: code.chars()
        invariant
            chars.seq() == code@,
            n == chars.index(),
            len == code@.len(),
            text.len() == len + 2,
            framed == seq![LINE_BREAK] + code@ + seq![LINE_BREAK],
            forall|j: int| 0 <= j < n ==> text@[j + 1] == code@[j],
    {
        if text[n + 1] != c {
            proof {
                assert(framed[n + 1] == code@[n as int]);
            }
            return false;
        }
        n = n + 1;
    }
    proof {
        assert(text@ =~= framed);
    }
    true
}

/// Whether `markup` shows `code` whole: whether its text, with the tags left
/// out and the entities decoded, is `code` between two line breaks.
pub fn markup_shows(markup: &str, code: &str) -> (yes: bool)
    ensures
        yes == shows(markup@, code@),
{
    let text = without_tags(markup);
    let plain = decoded(&text);
    frames(&plain, code)
}

/// How one character is written in markup: as its entity where it has one,
/// else as itself.
pub open spec fn escape_char(c: char) -> Seq<char> {
    if c == '<' {
        entity_lt()
    } else if c == '>' {
        entity_gt()
    } else if c == '&' {
        entity_amp()
    } else if c == '\'' {
        entity_apos()
    } else if c == '"' {
        entity_quot()
    } else {
        seq![c]
    }
}

/// The text from position `at` on, each character written as markup writes
/// it.
pub open spec fn escaped(text: Seq<char>, at: int) -> Seq<char>
    decreases text.len() - at,
{
    if at < 0 || at >= text.len() {
        Seq::empty()
    } else {
        escape_char(text[at]) + escaped(text, at + 1)
    }
}

/// What opens uncoloured markup: the tag of preformatted text and a line
/// break.
pub open spec fn plain_open() -> Seq<char> {
    seq!['<', 'p', 'r', 'e', '>', LINE_BREAK]
}

/// What closes uncoloured markup: the closing tag and a line break.
pub open spec fn plain_close() -> Seq<char> {
    seq!['<', '/', 'p', 'r', 'e', '>', LINE_BREAK]
}

/// Uncoloured markup of `code`: the text itself, escaped, as preformatted
/// text.
pub open spec fn plain_markup(code: Seq<char>) -> Seq<char> {
    plain_open() + escaped(code, 0) + plain_close()
}

/// Stripping tags from a position on looks at nothing before that position.
proof fn lemma_strip_skip(markup: Seq<char>, from: int, at: int, in_tag: bool)
    requires
        0 <= from <= markup.len(),
        0 <= at,
    ensures
        strip_tags(markup.skip(from), at, in_tag) == strip_tags(markup, from + at, in_tag),
    decreases markup.len() - from - at,
{
    let tail = markup.skip(from);
    if at < tail.len() {
        assert(tail[at] == markup[from + at]);
        lemma_strip_skip(markup, from, at + 1, true);
        lemma_strip_skip(markup, from, at + 1, false);
    }
}

/// Text without an opening bracket passes the stripping of tags unchanged.
proof fn lemma_strip_passes(text: Seq<char>, rest: Seq<char>)
    requires
        forall|i: int| 0 <= i < text.len() ==> text[i] != '<',
    ensures
        strip_tags(text + rest, 0, false) == text + strip_tags(rest, 0, false),
    decreases text.len(),
{
    let whole = text + rest;
    if text.len() == 0 {
        assert(whole =~= rest);
        assert(text + strip_tags(rest, 0, false) =~= strip_tags(rest, 0, false));
    } else {
        assert(whole[0] == text[0]);
        lemma_strip_skip(whole, 1, 0, false);
        assert(whole.skip(1) =~= text.skip(1) + rest);
        assert forall|i: int| 0 <= i < text.skip(1).len() implies text.skip(1)[i] != '<' by {
            assert(text.skip(1)[i] == text[i + 1]);
        }
        lemma_strip_passes(text.skip(1), rest);
        assert(seq![text[0]] + (text.skip(1) + strip_tags(rest, 0, false)) =~= text + strip_tags(
            rest,
            0,
            false,
        ));
    }
}

/// Escaped text holds no opening bracket.
proof fn lemma_escaped_has_no_bracket(text: Seq<char>, at: int)
    requires
        0 <= at,
    ensures
        forall|i: int| 0 <= i < escaped(text, at).len() ==> escaped(text, at)[i] != '<',
    decreases text.len() - at,
{
    if at < text.len() {
        lemma_escaped_has_no_bracket(text, at + 1);
        let head = escape_char(text[at]);
        let tail = escaped(text, at + 1);
        assert forall|i: int| 0 <= i < (head + tail).len() implies (head + tail)[i] != '<' by {
            if i < head.len() {
                assert((head + tail)[i] == head[i]);
            } else {
                assert((head + tail)[i] == tail[i - head.len()]);
            }
        }
    }
}

/// Uncoloured markup without its tags is the escaped text between two line
/// breaks.
proof fn lemma_strip_plain_markup(code: Seq<char>)
    ensures
        strip_tags(plain_markup(code), 0, false) == seq![LINE_BREAK] + escaped(code, 0)
            + seq![LINE_BREAK],
{
    let body = escaped(code, 0);
    let markup = plain_markup(code);
    let after_open = body + plain_close();
    assert(markup =~= plain_open() + after_open);
    assert(strip_tags(markup, 0, false) == seq![LINE_BREAK] + strip_tags(markup, 6, false)) by {
        reveal_with_fuel(strip_tags, 7);
    }
    lemma_strip_skip(markup, 6, 0, false);
    assert(markup.skip(6) =~= after_open);
    lemma_escaped_has_no_bracket(code, 0);
    lemma_strip_passes(body, plain_close());
    assert(strip_tags(plain_close(), 0, false) =~= seq![LINE_BREAK]) by {
        reveal_with_fuel(strip_tags, 8);
    }
    assert(seq![LINE_BREAK] + (body + seq![LINE_BREAK]) =~= seq![LINE_BREAK] + body
        + seq![LINE_BREAK]);
}

/// Decoding entities from a position on looks at nothing before that
/// position.
proof fn lemma_decode_skip(text: Seq<char>, from: int, at: int)
    requires
        0 <= from <= text.len(),
        0 <= at,
    ensures
        decode_entities(text.skip(from), at) == decode_entities(text, from + at),
    decreases text.len() - from - at,
{
    let tail = text.skip(from);
    if at < tail.len() {
        assert(tail[at] == text[from + at]);
        assert forall|word: Seq<char>| reads(tail, at, word) == reads(text, from + at, word) by {
            if at + word.len() <= tail.len() {
                assert(tail.subrange(at, at + word.len()) =~= text.subrange(
                    from + at,
                    from + at + word.len(),
                ));
            }
        }
        lemma_decode_skip(text, from, at + 1);
        if at + 4 <= tail.len() {
            lemma_decode_skip(text, from, at + 4);
        }
        if at + 5 <= tail.len() {
            lemma_decode_skip(text, from, at + 5);
        }
        if at + 6 <= tail.len() {
            lemma_decode_skip(text, from, at + 6);
        }
    }
}

/// Decoding reads an escaped character as the character itself.
proof fn lemma_decode_escape_char(c: char, rest: Seq<char>)
    ensures
        decode_entities(escape_char(c) + rest, 0) == seq![c] + decode_entities(rest, 0),
{
    let word = escape_char(c);
    let text = word + rest;
    assert(text.skip(word.len() as int) =~= rest);
    lemma_decode_skip(text, word.len() as int, 0);
    assert(text.subrange(0, word.len() as int) =~= word);
    if c == '<' || c == '>' || c == '&' || c == '\'' || c == '"' {
        assert(reads(text, 0, word));
        assert(text[1] == word[1]);
        assert(!reads(text, 0, entity_lt()) || word == entity_lt()) by {
            if reads(text, 0, entity_lt()) {
                assert(text.subrange(0, 4)[1] == text[1]);
            }
        }
        assert(!reads(text, 0, entity_gt()) || word == entity_gt()) by {
            if reads(text, 0, entity_gt()) {
                assert(text.subrange(0, 4)[1] == text[1]);
            }
        }
        assert(!reads(text, 0, entity_amp()) || word == entity_amp()) by {
            if reads(text, 0, entity_amp()) {
                assert(text.subrange(0, 5)[1] == text[1]);
            }
        }
        assert(!reads(text, 0, entity_apos()) || word == entity_apos()) by {
            if reads(text, 0, entity_apos()) {
                assert(text.subrange(0, 5)[1] == text[1]);
            }
        }
    } else {
        assert(text[0] == c);
        assert forall|entity: Seq<char>| entity.len() > 0 && entity[0] == '&' implies !reads(
            text,
            0,
            entity,
        ) by {
            if reads(text, 0, entity) {
                assert(text.subrange(0, entity.len() as int)[0] == text[0]);
            }
        }
        assert(!reads(text, 0, entity_lt()));
        assert(!reads(text, 0, entity_gt()));
        assert(!reads(text, 0, entity_amp()));
        assert(!reads(text, 0, entity_apos()));
        assert(!reads(text, 0, entity_quot()));
    }
}

/// Decoding escaped text gives the text back.
proof fn lemma_decode_escaped(text: Seq<char>, at: int, rest: Seq<char>)
    requires
        0 <= at <= text.len(),
    ensures
        decode_entities(escaped(text, at) + rest, 0) == text.skip(at) + decode_entities(rest, 0),
    decreases text.len() - at,
{
    if at == text.len() {
        assert(escaped(text, at) + rest =~= rest);
        assert(text.skip(at) + decode_entities(rest, 0) =~= decode_entities(rest, 0));
    } else {
        let head = escape_char(text[at]);
        let tail = escaped(text, at + 1);
        assert((head + tail) + rest =~= head + (tail + rest));
        lemma_decode_escape_char(text[at], tail + rest);
        lemma_decode_escaped(text, at + 1, rest);
        assert(seq![text[at]] + (text.skip(at + 1) + decode_entities(rest, 0)) =~= text.skip(at)
            + decode_entities(rest, 0));
    }
}

/// Uncoloured markup shows its code whole, whatever the code holds.
pub proof fn lemma_plain_markup_shows(code: Seq<char>)
    ensures
        shows(plain_markup(code), code),
{
    let body = escaped(code, 0);
    let line = seq![LINE_BREAK];
    lemma_strip_plain_markup(code);
    assert(line + body + line =~= escape_char(LINE_BREAK) + (body + line));
    lemma_decode_escape_char(LINE_BREAK, body + line);
    lemma_decode_escaped(code, 0, line);
    assert(code.skip(0) =~= code);
    assert(decode_entities(line, 0) =~= line) by {
        assert(line =~= escape_char(LINE_BREAK) + Seq::<char>::empty());
        lemma_decode_escape_char(LINE_BREAK, Seq::<char>::empty());
        assert(line + decode_entities(Seq::<char>::empty(), 0) =~= line);
    }
    assert(line + (code + line) =~= line + code + line);
}

/// Uncoloured markup of `code`: the text itself, escaped, as preformatted
/// text. It shows every character of the code and colours none.
pub fn plain(code: &str) -> (markup: String)
    ensures
        markup@ == plain_markup(code@),
        shows(markup@, code@),
{
    let mut markup = String::from_str("<pre>\n");
    proof {
        reveal_strlit("<pre>\n");
        reveal_strlit("</pre>\n");
        reveal_strlit("&lt;");
        reveal_strlit("&gt;");
        reveal_strlit("&amp;");
        reveal_strlit("&#39;");
        reveal_strlit("&quot;");
        assert("<pre>\n"@ =~= plain_open());
        assert("</pre>\n"@ =~= plain_close());
        assert("&lt;"@ =~= entity_lt());
        assert("&gt;"@ =~= entity_gt());
        assert("&amp;"@ =~= entity_amp());
        assert("&#39;"@ =~= entity_apos());
        assert("&quot;"@ =~= entity_quot());
        assert(markup@ + escaped(code@, 0) =~= plain_open() + escaped(code@, 0));
    }
    for c in chars: code.chars()
        invariant
            chars.seq() == code@,
            "&lt;"@ == entity_lt(),
            "&gt;"@ == entity_gt(),
            "&amp;"@ == entity_amp(),
            "&#39;"@ == entity_apos(),
            "&quot;"@ == entity_quot(),
            markup@ + escaped(code@, chars.index() as int) == plain_open() + escaped(code@, 0),
    {
        let ghost before = markup@;
        let ghost rest = escaped(code@, chars.index() + 1);
        if c == '<' {
            markup.append("&lt;");
        } else if c == '>' {
            markup.append("&gt;");
        } else if c == '&' {
            markup.append("&amp;");
        } else if c == '\'' {
            markup.append("&#39;");
        } else if c == '"' {
            markup.append("&quot;");
        } else {
            markup.push(c);
            proof {
                assert(markup@ =~= before + seq![c]);
            }
        }
        proof {
            assert(markup@ =~= before + escape_char(c));
            assert(markup@ + rest =~= before + (escape_char(c) + rest));
        }
    }
    proof {
        assert(markup@ + Seq::<char>::empty() =~= markup@);
        lemma_plain_markup_shows(code@);
    }
    markup.append("</pre>\n");
    markup
}

} // verus!
