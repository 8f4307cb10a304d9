//! Chat components, as the status response carries one.

use vstd::prelude::*;

verus! {

/// `text` with every `from` replaced by the characters of `to`.
pub open spec fn substituted(text: Seq<char>, from: char, to: Seq<char>) -> Seq<char>
    decreases text.len(),
{
    if text.len() == 0 {
        Seq::<char>::empty()
    } else if text[0] == from {
        to + substituted(text.drop_first(), from, to)
    } else {
        seq![text[0]] + substituted(text.drop_first(), from, to)
    }
}

/// The characters that introduce a style code in a formatted text.
pub open spec fn style_mark() -> Seq<char> {
    "\u{e22}\u{e07}"@
}

/// A text as a user writes it, turned into the form that clients display:
/// every `&` gives way to the style mark.
pub open spec fn formatted(text: Seq<char>) -> Seq<char> {
    substituted(text, '&', style_mark())
}

/// `str::replace` of std with a single character as the pattern: every
/// occurrence of `from` gives way to `to`, and the other characters stay
/// where they are.
#[verifier::external_body]
pub(crate) fn replace_char(text: &str, from: char, to: &str) -> (r: String)
    ensures
        r@ == substituted(text@, from, to@),
{
    text.replace(from, to)
}

/// A chat component.
#[derive(Debug)]
pub struct ChatMessage {
    /// The component's text.
    pub text: String,
    /// The bold style: empty while it was never set.
    pub bold: String,
    /// The child components.
    pub extra: Vec<ChatMessage>,
}

impl ChatMessage {
    /// A component with the formatted form of `text`, no style and no child.
    pub fn text(text: String) -> (message: ChatMessage)
        ensures
            message.text@ == formatted(text@),
            message.bold@ == Seq::<char>::empty(),
            message.extra@ == Seq::<ChatMessage>::empty(),
    {
        ChatMessage {
            text: replace_char(text.as_str(), '&', "\u{e22}\u{e07}"),
            bold: String::new(),
            extra: Vec::new(),
        }
    }

    /// Sets the bold style to the word for `value`.
    pub fn set_bold(&mut self, value: bool)
        ensures
            final(self).bold@ == (if value {
                "true"@
            } else {
                "false"@
            }),
            final(self).text == old(self).text,
            final(self).extra == old(self).extra,
    {
        self.bold = if value {
            "true".to_string()
        } else {
            "false".to_string()
        };
    }

    /// A component made from a string slice, with the formatted form of
    /// `text`. The text is formatted on the way in and once more by `text`,
    /// which changes nothing the second time.
    pub fn str(text: &str) -> (message: ChatMessage)
        ensures
            message.text@ == formatted(text@),
            message.bold@ == Seq::<char>::empty(),
            message.extra@ == Seq::<ChatMessage>::empty(),
    {
        proof {
            law_formatting_idempotent(text@);
        }
        ChatMessage::text(replace_char(text, '&', "\u{e22}\u{e07}"))
    }
}

/// Substitution goes through a concatenation part by part.
pub proof fn lemma_substituted_concat(a: Seq<char>, b: Seq<char>, from: char, to: Seq<char>)
    ensures
        substituted(a + b, from, to) == substituted(a, from, to) + substituted(b, from, to),
    decreases a.len(),
{
    if a.len() == 0 {
        assert(a + b =~= b);
        assert(substituted(a, from, to) + substituted(b, from, to) =~= substituted(b, from, to));
    } else {
        assert((a + b).drop_first() =~= a.drop_first() + b);
        lemma_substituted_concat(a.drop_first(), b, from, to);
        let rest = substituted(a.drop_first(), from, to);
        let tail = substituted(b, from, to);
        assert((to + rest) + tail =~= to + (rest + tail));
        assert((seq![a[0]] + rest) + tail =~= seq![a[0]] + (rest + tail));
    }
}

/// A text without `from` is left as it is.
pub proof fn lemma_substituted_without(text: Seq<char>, from: char, to: Seq<char>)
    requires
        !text.contains(from),
    ensures
        substituted(text, from, to) == text,
    decreases text.len(),
{
    if text.len() > 0 {
        assert(text[0] != from);
        assert forall|i: int| 0 <= i < text.drop_first().len() implies text.drop_first()[i]
            != from by {
            assert(text.drop_first()[i] == text[i + 1]);
        }
        lemma_substituted_without(text.drop_first(), from, to);
        assert(seq![text[0]] + text.drop_first() =~= text);
    }
}

/// Where the replacement holds no `from`, to substitute a second time
/// changes nothing.
pub proof fn lemma_substituted_idempotent(text: Seq<char>, from: char, to: Seq<char>)
    requires
        !to.contains(from),
    ensures
        substituted(substituted(text, from, to), from, to) == substituted(text, from, to),
    decreases text.len(),
{
    if text.len() > 0 {
        let rest = substituted(text.drop_first(), from, to);
        lemma_substituted_idempotent(text.drop_first(), from, to);
        if text[0] == from {
            lemma_substituted_concat(to, rest, from, to);
            lemma_substituted_without(to, from, to);
        } else {
            let head = seq![text[0]];
            lemma_substituted_concat(head, rest, from, to);
            assert(!head.contains(from));
            lemma_substituted_without(head, from, to);
        }
    }
}

/// Formatting is idempotent: a formatted text holds no `&`, so to format it
/// again changes nothing.
pub proof fn law_formatting_idempotent(text: Seq<char>)
    ensures
        formatted(formatted(text)) == formatted(text),
{
    reveal_strlit("\u{e22}\u{e07}");
    assert(!style_mark().contains('&'));
    lemma_substituted_idempotent(text, '&', style_mark());
}

} // verus!
