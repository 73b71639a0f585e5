//! Markup as text: escaping, done by the `maud` crate, and the assembly of
//! the attributes of an element.

use vstd::prelude::*;

verus! {

/// A block of HTML that needs no further escaping.
#[derive(Debug, Clone, PartialEq, Eq)]
pub struct Markup {
    html: String,
}

impl View for Markup {
    type V = Seq<char>;

    closed spec fn view(&self) -> Seq<char> {
        self.html@
    }
}

impl Markup {
    /// Takes `html` as markup, as it stands.
    pub fn new(html: String) -> (markup: Markup)
        ensures
            markup@ == html@,
    {
        Markup { html }
    }

    /// Markup that shows `text`: the text with its special characters
    /// escaped.
    pub fn text(text: &str) -> (markup: Markup)
        ensures
            markup@ == escaped(text@),
    {
        let mut html = String::new();
        push_escaped(&mut html, text);
        Markup { html }
    }

    /// The HTML of the markup.
    pub fn as_str(&self) -> (html: &str)
        ensures
            html@ == self@,
    {
        self.html.as_str()
    }

    /// The HTML of the markup.
    pub fn into_string(self) -> (html: String)
        ensures
            html@ == self@,
    {
        self.html
    }
}

/// What stands for the character `c` in escaped text: an entity for `&`,
/// `<`, `>` and `"`, the character itself otherwise.
pub open spec fn escaped_char(c: char) -> Seq<char> {
    if c == '&' {
        "&amp;"@
    } else if c == '<' {
        "&lt;"@
    } else if c == '>' {
        "&gt;"@
    } else if c == '"' {
        "&quot;"@
    } else {
        seq![c]
    }
}

/// The text `text` with each of its characters escaped.
pub open spec fn escaped(text: Seq<char>) -> Seq<char>
    decreases text.len(),
{
    if text.len() == 0 {
        Seq::empty()
    } else {
        escaped(text.drop_last()) + escaped_char(text.last())
    }
}

/// Whether `c` is one of the characters that escaping replaces.
pub open spec fn is_special(c: char) -> bool {
    c == '&' || c == '<' || c == '>' || c == '"'
}

/// Escaped text holds none of `<`, `>` and `"`: it cannot end the attribute
/// value or the element that it stands in.
pub proof fn lemma_escaped_is_inert(text: Seq<char>)
    ensures
        forall|i: int|
            0 <= i < escaped(text).len() ==> {
                let c = #[trigger] escaped(text)[i];
                c != '<' && c != '>' && c != '"'
            },
    decreases text.len(),
{
    reveal_strlit("&amp;");
    reveal_strlit("&lt;");
    reveal_strlit("&gt;");
    reveal_strlit("&quot;");
    if text.len() > 0 {
        let init = escaped(text.drop_last());
        let tail = escaped_char(text.last());
        lemma_escaped_is_inert(text.drop_last());
        assert forall|k: int| 0 <= k < tail.len() implies tail[k] != '<' && tail[k] != '>'
            && tail[k] != '"' by {}
        assert forall|i: int| 0 <= i < escaped(text).len() implies {
            let c = #[trigger] escaped(text)[i];
            c != '<' && c != '>' && c != '"'
        } by {
            if i < init.len() {
                assert(escaped(text)[i] == init[i]);
            } else {
                assert(escaped(text)[i] == tail[i - init.len()]);
            }
        }
    }
}

/// Text without any special character is escaped to itself.
pub proof fn lemma_escaped_plain(text: Seq<char>)
    requires
        forall|i: int| 0 <= i < text.len() ==> !is_special(#[trigger] text[i]),
    ensures
        escaped(text) == text,
    decreases text.len(),
{
    if text.len() > 0 {
        lemma_escaped_plain(text.drop_last());
        assert(text.drop_last().push(text.last()) =~= text);
    }
}

/// Escaping goes character by character: the escaped form of two texts put
/// together is their escaped forms put together.
pub proof fn lemma_escaped_concat(a: Seq<char>, b: Seq<char>)
    ensures
        escaped(a + b) == escaped(a) + escaped(b),
    decreases b.len(),
{
    if b.len() == 0 {
        assert(a + b =~= a);
    } else {
        lemma_escaped_concat(a, b.drop_last());
        assert((a + b).drop_last() =~= a + b.drop_last());
        assert((a + b).last() == b.last());
    }
}

/// An attribute with a value: ` name="value"`, the value escaped.
pub open spec fn attr(name: Seq<char>, value: Seq<char>) -> Seq<char> {
    " "@ + name + "=\""@ + escaped(value) + "\""@
}

/// An attribute that is left out where it has no value.
pub open spec fn optional_attr(name: Seq<char>, value: Option<Seq<char>>) -> Seq<char> {
    match value {
        Some(v) => attr(name, v),
        None => Seq::empty(),
    }
}

/// An attribute without a value, present or not: ` name` or nothing.
pub open spec fn flag(name: Seq<char>, on: bool) -> Seq<char> {
    if on {
        " "@ + name
    } else {
        Seq::empty()
    }
}

/// Mathematical value of an optional text.
pub open spec fn text_of(value: Option<&str>) -> Option<Seq<char>> {
    match value {
        Some(v) => Some(v@),
        None => None,
    }
}

/// Appends `text` to `buffer` through `maud::Render::render_to` for `str`.
///
/// Trusted: the call appends the text with `&`, `<`, `>` and `"` replaced
/// by `&amp;`, `&lt;`, `&gt;` and `&quot;`, and every other character as it
/// is.
#[verifier::external_body]
fn push_escaped(buffer: &mut String, text: &str)
    ensures
        final(buffer)@ == old(buffer)@ + escaped(text@),
{
    maud::Render::render_to(text, buffer);
}

/// Appends the attribute `name` with the value `value` to `buffer`.
pub fn push_attr(buffer: &mut String, name: &str, value: &str)
    ensures
        final(buffer)@ == old(buffer)@ + attr(name@, value@),
{
    buffer.append(" ");
    buffer.append(name);
    buffer.append("=\"");
    push_escaped(buffer, value);
    buffer.append("\"");
    assert(buffer@ =~= old(buffer)@ + attr(name@, value@));
}

/// Appends the attribute `name` to `buffer` if it has a value.
pub fn push_optional_attr(buffer: &mut String, name: &str, value: Option<&str>)
    ensures
        final(buffer)@ == old(buffer)@ + optional_attr(name@, text_of(value)),
{
    match value {
        Some(v) => push_attr(buffer, name, v),
        None => {
            assert(buffer@ =~= old(buffer)@ + optional_attr(name@, text_of(value)));
        },
    }
}

/// Appends the attribute `name`, which has no value, to `buffer` if `on`.
pub fn push_flag(buffer: &mut String, name: &str, on: bool)
    ensures
        final(buffer)@ == old(buffer)@ + flag(name@, on),
{
    if on {
        buffer.append(" ");
        buffer.append(name);
    }
    assert(buffer@ =~= old(buffer)@ + flag(name@, on));
}

} // verus!
