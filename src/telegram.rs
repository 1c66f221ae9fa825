use vstd::prelude::*;
use vstd::string::{StrSliceExecFns, StringExecFns};

use crate::text::push_char;

verus! {

/// Whether MarkdownV2 reserves `c`, so that it must be escaped in plain text.
pub open spec fn is_reserved(c: char) -> bool {
    c == '_' || c == '*' || c == '[' || c == ']' || c == '(' || c == ')' || c == '~' || c == '`'
        || c == '>' || c == '#' || c == '+' || c == '-' || c == '=' || c == '|' || c == '{' || c
        == '}' || c == '.' || c == '!'
}

/// `s` with a backslash before each reserved character.
pub open spec fn escaped(s: Seq<char>) -> Seq<char>
    decreases s.len(),
{
    if s.len() == 0 {
        Seq::empty()
    } else if is_reserved(s.last()) {
        escaped(s.drop_last()) + seq!['\\', s.last()]
    } else {
        escaped(s.drop_last()).push(s.last())
    }
}

fn reserved(c: char) -> (r: bool)
    ensures
        r == is_reserved(c),
{
    c == '_' || c == '*' || c == '[' || c == ']' || c == '(' || c == ')' || c == '~' || c == '`'
        || c == '>' || c == '#' || c == '+' || c == '-' || c == '=' || c == '|' || c == '{' || c
        == '}' || c == '.' || c == '!'
}

/// Appends `text` escaped for MarkdownV2.
fn push_escaped(out: &mut String, text: &str)
    ensures
        final(out)@ == old(out)@ + escaped(text@),
{
    let n = text.unicode_len();
    let mut i: usize = 0;
    let ghost start = out@;
    while i < n
        invariant
            n == text@.len(),
            i <= n,
            out@ == start + escaped(text@.subrange(0, i as int)),
        decreases n - i,
    {
        let c = text.get_char(i);
        let ghost prefix = text@.subrange(0, i + 1);
        assert(prefix.drop_last() =~= text@.subrange(0, i as int));
        assert(prefix.last() == c);
        if reserved(c) {
            push_char(out, '\\');
        }
        push_char(out, c);
        i = i + 1;
        assert(out@ =~= start + escaped(text@.subrange(0, i as int)));
    }
    assert(text@.subrange(0, n as int) =~= text@);
}

/// `text` with a backslash before each character that MarkdownV2 reserves.
pub fn escape_markdown_v2(text: &str) -> (r: String)
    ensures
        r@ == escaped(text@),
{
    let mut out = String::new();
    push_escaped(&mut out, text);
    out
}

/// A notification: a title, a body and an optional block of extra data.
#[derive(Debug, Default)]
pub struct TelegramMessage {
    pub title: Option<String>,
    pub body: Option<String>,
    pub extra_data: Option<String>,
}

/// The characters of an optional text, empty when absent.
pub open spec fn text_or_empty(s: Option<String>) -> Seq<char> {
    match s {
        Some(t) => t@,
        None => Seq::empty(),
    }
}

/// The MarkdownV2 text of a message: the escaped title in bold, a blank line, the escaped body,
/// and the escaped extra data in a code block when there is any.
pub open spec fn telegram_text(m: TelegramMessage) -> Seq<char> {
    let head = "*"@ + escaped(text_or_empty(m.title)) + "*\n\n"@ + escaped(text_or_empty(m.body));
    match m.extra_data {
        Some(extra) => head + "\n\n```\n"@ + escaped(extra@) + "\n```"@,
        None => head,
    }
}

fn push_optional_escaped(out: &mut String, s: &Option<String>)
    ensures
        final(out)@ == old(out)@ + escaped(text_or_empty(*s)),
{
    match s {
        Some(t) => push_escaped(out, t.as_str()),
        None => {
            assert(escaped(Seq::<char>::empty()) =~= Seq::<char>::empty());
            assert(old(out)@ + Seq::<char>::empty() =~= old(out)@);
        },
    }
}

impl TelegramMessage {
    /// A message with no title, body or extra data.
    pub fn new() -> (r: TelegramMessage)
        ensures
            r.title is None,
            r.body is None,
            r.extra_data is None,
    {
        TelegramMessage { title: None, body: None, extra_data: None }
    }

    /// The message with `title` as its title.
    pub fn with_title(self, title: String) -> (r: TelegramMessage)
        ensures
            r.title == Some(title),
            r.body == self.body,
            r.extra_data == self.extra_data,
    {
        TelegramMessage { title: Some(title), ..self }
    }

    /// The message with `body` as its body.
    pub fn with_body(self, body: String) -> (r: TelegramMessage)
        ensures
            r.body == Some(body),
            r.title == self.title,
            r.extra_data == self.extra_data,
    {
        TelegramMessage { body: Some(body), ..self }
    }

    /// The message with `extra_data` as its extra data.
    pub fn with_extra_data(self, extra_data: String) -> (r: TelegramMessage)
        ensures
            r.extra_data == Some(extra_data),
            r.title == self.title,
            r.body == self.body,
    {
        TelegramMessage { extra_data: Some(extra_data), ..self }
    }

    /// The MarkdownV2 text that the chat bridge sends for this message.
    pub fn to_telegram_text(&self) -> (r: String)
        ensures
            r@ == telegram_text(*self),
    {
        let mut text = String::from_str("*");
        push_optional_escaped(&mut text, &self.title);
        text.append("*\n\n");
        push_optional_escaped(&mut text, &self.body);
        let ghost head = text@;
        match &self.extra_data {
            Some(extra) => {
                text.append("\n\n```\n");
                push_escaped(&mut text, extra.as_str());
                text.append("\n```");
                assert(text@ =~= head + "\n\n```\n"@ + escaped(extra@) + "\n```"@);
            },
            None => {},
        }
        text
    }
}

/// Collects the parts of a message before it is built.
#[derive(Debug, Default)]
pub struct TelegramMessageBuilder {
    pub title: Option<String>,
    pub message: Option<String>,
    pub extra_data: Option<String>,
}

impl TelegramMessageBuilder {
    /// A builder with no parts.
    pub fn new() -> (r: TelegramMessageBuilder)
        ensures
            r.title is None,
            r.message is None,
            r.extra_data is None,
    {
        TelegramMessageBuilder { title: None, message: None, extra_data: None }
    }

    /// Sets the title.
    pub fn title(self, title: &str) -> (r: TelegramMessageBuilder)
        ensures
            r.title matches Some(t) && t@ == title@,
            r.message == self.message,
            r.extra_data == self.extra_data,
    {
        TelegramMessageBuilder { title: Some(String::from_str(title)), ..self }
    }

    /// Sets the body.
    pub fn message(self, message: &str) -> (r: TelegramMessageBuilder)
        ensures
            r.message matches Some(m) && m@ == message@,
            r.title == self.title,
            r.extra_data == self.extra_data,
    {
        TelegramMessageBuilder { message: Some(String::from_str(message)), ..self }
    }

    /// Sets the extra data.
    pub fn extra_data(self, extra_data: &str) -> (r: TelegramMessageBuilder)
        ensures
            r.extra_data matches Some(e) && e@ == extra_data@,
            r.title == self.title,
            r.message == self.message,
    {
        TelegramMessageBuilder { extra_data: Some(String::from_str(extra_data)), ..self }
    }

    /// The message: a missing title or body becomes empty text.
    pub fn build(self) -> (r: TelegramMessage)
        ensures
            r.title matches Some(t) && t@ == text_or_empty(self.title),
            r.body matches Some(b) && b@ == text_or_empty(self.message),
            r.extra_data == self.extra_data,
    {
        let title = match self.title {
            Some(t) => t,
            None => String::new(),
        };
        let body = match self.message {
            Some(m) => m,
            None => String::new(),
        };
        TelegramMessage { title: Some(title), body: Some(body), extra_data: self.extra_data }
    }
}

} // verus!
