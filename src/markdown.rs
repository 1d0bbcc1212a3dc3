//! Markdown to plain readable text, for speech.
//!
//! The markdown is parsed by pulldown-cmark; what is read aloud is decided
//! here: the text and code spans, a space for each line break and after each
//! closed element, and then every run of whitespace squeezed to one space.

use vstd::prelude::*;
use pulldown_cmark::{Event, Parser};

verus! {

/// One parser event, reduced to what matters for the readable text.
pub enum MarkdownEvent {
    Text(String),
    Code(String),
    SoftBreak,
    HardBreak,
    End,
    Other,
}

/// The view of a `MarkdownEvent`.
pub enum MarkdownPiece {
    Text(Seq<char>),
    Code(Seq<char>),
    SoftBreak,
    HardBreak,
    End,
    Other,
}

impl View for MarkdownEvent {
    type V = MarkdownPiece;

    open spec fn view(&self) -> MarkdownPiece {
        match self {
            MarkdownEvent::Text(t) => MarkdownPiece::Text(t@),
            MarkdownEvent::Code(t) => MarkdownPiece::Code(t@),
            MarkdownEvent::SoftBreak => MarkdownPiece::SoftBreak,
            MarkdownEvent::HardBreak => MarkdownPiece::HardBreak,
            MarkdownEvent::End => MarkdownPiece::End,
            MarkdownEvent::Other => MarkdownPiece::Other,
        }
    }
}

/// The events that pulldown-cmark's parser yields for a markdown text.
pub uninterp spec fn markdown_events(md: Seq<char>) -> Seq<MarkdownPiece>;

/// Relies on `pulldown_cmark::Parser::new` with default options, whose events
/// depend on the text alone; each is converted variant for variant.
#[verifier::external_body]
fn parse_markdown(md: &str) -> (r: Vec<MarkdownEvent>)
    ensures
        r@.map_values(|e: MarkdownEvent| e@) == markdown_events(md@),
{
    Parser::new(md).map(|e| match e {
        Event::Text(t) => MarkdownEvent::Text(t.to_string()),
        Event::Code(t) => MarkdownEvent::Code(t.to_string()),
        Event::SoftBreak => MarkdownEvent::SoftBreak,
        Event::HardBreak => MarkdownEvent::HardBreak,
        Event::End(_) => MarkdownEvent::End,
        _ => MarkdownEvent::Other,
    }).collect()
}

/// Relies on collecting a `str::chars` iterator: the characters of `s` in order.
#[verifier::external_body]
fn chars_of(s: &str) -> (r: Vec<char>)
    ensures
        r@ == s@,
{
    s.chars().collect()
}

/// Relies on collecting characters into a `String`: the string of exactly those characters.
#[verifier::external_body]
fn string_of(v: &Vec<char>) -> (r: String)
    ensures
        r@ == v@,
{
    v.iter().collect()
}

/// Unicode White_Space, which `char::is_whitespace` tests.
pub open spec fn is_white(c: char) -> bool {
    ('\u{9}' <= c <= '\u{d}') || c == ' ' || c == '\u{85}' || c == '\u{a0}' || c == '\u{1680}'
        || ('\u{2000}' <= c <= '\u{200a}') || c == '\u{2028}' || c == '\u{2029}' || c
        == '\u{202f}' || c == '\u{205f}' || c == '\u{3000}'
}

pub fn is_white_space(c: char) -> (r: bool)
    ensures
        r == is_white(c),
{
    ('\u{9}' <= c && c <= '\u{d}') || c == ' ' || c == '\u{85}' || c == '\u{a0}' || c
        == '\u{1680}' || ('\u{2000}' <= c && c <= '\u{200a}') || c == '\u{2028}' || c
        == '\u{2029}' || c == '\u{202f}' || c == '\u{205f}' || c == '\u{3000}'
}

/// The readable parts gathered so far: their concatenation, whether there
/// is any part, and whether the last part ends with a space.
pub struct Gathered {
    pub text: Seq<char>,
    pub any: bool,
    pub ends_space: bool,
}

pub open spec fn with_part(g: Gathered, p: Seq<char>) -> Gathered {
    Gathered { text: g.text + p, any: true, ends_space: p.len() > 0 && p.last() == ' ' }
}

/// One event's contribution: text and code as they are, a space for a line
/// break, and a space after a closed element unless the last part ends in one.
pub open spec fn gather_step(g: Gathered, e: MarkdownPiece) -> Gathered {
    match e {
        MarkdownPiece::Text(t) => with_part(g, t),
        MarkdownPiece::Code(t) => with_part(g, t),
        MarkdownPiece::SoftBreak => with_part(g, seq![' ']),
        MarkdownPiece::HardBreak => with_part(g, seq![' ']),
        MarkdownPiece::End => if g.any && !g.ends_space {
            with_part(g, seq![' '])
        } else {
            g
        },
        MarkdownPiece::Other => g,
    }
}

pub open spec fn gathered(events: Seq<MarkdownPiece>) -> Gathered
    decreases events.len(),
{
    if events.len() == 0 {
        Gathered { text: seq![], any: false, ends_space: false }
    } else {
        gather_step(gathered(events.drop_last()), events.last())
    }
}

/// Whitespace squeezing so far: the output, and whether whitespace was seen
/// since its last character.
pub struct Squeezed {
    pub out: Seq<char>,
    pub gap: bool,
}

pub open spec fn squeeze_step(st: Squeezed, c: char) -> Squeezed {
    if is_white(c) {
        Squeezed { out: st.out, gap: st.out.len() > 0 }
    } else {
        Squeezed {
            out: (if st.gap {
                st.out.push(' ')
            } else {
                st.out
            }).push(c),
            gap: false,
        }
    }
}

pub open spec fn squeezed(s: Seq<char>) -> Squeezed
    decreases s.len(),
{
    if s.len() == 0 {
        Squeezed { out: seq![], gap: false }
    } else {
        squeeze_step(squeezed(s.drop_last()), s.last())
    }
}

/// The words of `s` (its maximal runs without whitespace), separated by single spaces.
pub open spec fn collapse_whitespace(s: Seq<char>) -> Seq<char> {
    squeezed(s).out
}

/// The readable text of a sequence of markdown events.
pub open spec fn plain_text(events: Seq<MarkdownPiece>) -> Seq<char> {
    collapse_whitespace(gathered(events).text)
}

fn collapse(s: &Vec<char>) -> (r: Vec<char>)
    ensures
        r@ == collapse_whitespace(s@),
{
    let mut out: Vec<char> = Vec::new();
    let mut gap = false;
    let mut i: usize = 0;
    while i < s.len()
        invariant
            i <= s@.len(),
            squeezed(s@.take(i as int)) == (Squeezed { out: out@, gap }),
        decreases s@.len() - i,
    {
        let c = s[i];
        assert(s@.take(i + 1).drop_last() =~= s@.take(i as int));
        if is_white_space(c) {
            gap = out.len() > 0;
        } else {
            if gap {
                out.push(' ');
            }
            out.push(c);
            gap = false;
        }
        i += 1;
    }
    assert(s@.take(s@.len() as int) =~= s@);
    out
}

fn append_chars(out: &mut Vec<char>, t: &String)
    ensures
        final(out)@ == old(out)@ + t@,
{
    let cs = chars_of(t.as_str());
    let mut i: usize = 0;
    while i < cs.len()
        invariant
            i <= cs@.len(),
            cs@ == t@,
            out@ =~= old(out)@ + cs@.take(i as int),
        decreases cs@.len() - i,
    {
        out.push(cs[i]);
        i += 1;
    }
    assert(cs@.take(cs@.len() as int) =~= cs@);
}

/// The readable text of parsed markdown events.
pub fn plain_text_of_events(events: &Vec<MarkdownEvent>) -> (r: String)
    ensures
        r@ == plain_text(events@.map_values(|e: MarkdownEvent| e@)),
{
    let ghost ev = events@.map_values(|e: MarkdownEvent| e@);
    let mut text: Vec<char> = Vec::new();
    let mut any = false;
    let mut ends_space = false;
    let mut i: usize = 0;
    while i < events.len()
        invariant
            i <= events@.len(),
            ev == events@.map_values(|e: MarkdownEvent| e@),
            gathered(ev.take(i as int)) == (Gathered { text: text@, any, ends_space }),
        decreases events@.len() - i,
    {
        assert(ev.take(i + 1).drop_last() =~= ev.take(i as int));
        assert(ev.take(i + 1).last() == events@[i as int]@);
        let ghost before = text@;
        match &events[i] {
            MarkdownEvent::Text(t) | MarkdownEvent::Code(t) => {
                let cs = chars_of(t.as_str());
                append_chars(&mut text, t);
                any = true;
                ends_space = cs.len() > 0 && cs[cs.len() - 1] == ' ';
                assert(text@ == before + t@);
            },
            MarkdownEvent::SoftBreak | MarkdownEvent::HardBreak => {
                text.push(' ');
                any = true;
                ends_space = true;
                assert(text@ =~= before + seq![' ']);
            },
            MarkdownEvent::End => {
                if any && !ends_space {
                    text.push(' ');
                    ends_space = true;
                    assert(text@ =~= before + seq![' ']);
                }
            },
            MarkdownEvent::Other => {},
        }
        i += 1;
    }
    assert(ev.take(ev.len() as int) =~= ev);
    let out = collapse(&text);
    string_of(&out)
}

/// Plain readable text of a markdown document: formatting dropped, text and
/// code kept, elements and lines separated by single spaces.
pub fn markdown_to_plain_text(markdown: &str) -> (r: String)
    ensures
        r@ == plain_text(markdown_events(markdown@)),
{
    let events = parse_markdown(markdown);
    plain_text_of_events(&events)
}

} // verus!
