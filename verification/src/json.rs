//! The JSON text of a page, as the creation endpoint takes it.
//!
//! The shape of the text is fixed here, field by field. How a string is
//! quoted and escaped is left to `serde_json`.

use crate::property_map::PropertyMap;
use crate::schema::{
    NotionPage, NotionPageProperty, NotionParent, NotionText, NotionTitle, PageModel,
    PagePropertyModel, ParentModel, TextModel, TitleModel,
};
use vstd::prelude::*;

verus! {

/// `serde_json::Error`, the error of the serializer. Nothing is read from
/// it: the one call that could return it never does.
#[verifier::external_type_specification]
#[verifier::external_body]
pub struct ExJsonError(serde_json::Error);

/// The sixteen digits that escapes are written with.
pub open spec fn hex_digits() -> Seq<char> {
    seq!['0', '1', '2', '3', '4', '5', '6', '7', '8', '9', 'a', 'b', 'c', 'd', 'e', 'f']
}

/// What stands for one character inside a JSON string: a two-letter escape
/// for the quote, the backslash and five control characters, a `\u00..`
/// escape for every other character below the space, and the character
/// itself otherwise.
pub open spec fn escape(c: char) -> Seq<char> {
    if c == '"' {
        seq!['\\', '"']
    } else if c == '\\' {
        seq!['\\', '\\']
    } else if c == '\u{8}' {
        seq!['\\', 'b']
    } else if c == '\t' {
        seq!['\\', 't']
    } else if c == '\n' {
        seq!['\\', 'n']
    } else if c == '\u{c}' {
        seq!['\\', 'f']
    } else if c == '\r' {
        seq!['\\', 'r']
    } else if (c as u32) < 0x20 {
        seq!['\\', 'u', '0', '0', hex_digits()[c as int / 16], hex_digits()[c as int % 16]]
    } else {
        seq![c]
    }
}

/// The characters of `s`, each escaped.
pub open spec fn escaped(s: Seq<char>) -> Seq<char>
    decreases s.len(),
{
    if s.len() == 0 {
        Seq::empty()
    } else {
        escaped(s.drop_last()) + escape(s.last())
    }
}

/// The JSON string that holds `s`: its escaped characters between quotes.
pub open spec fn json_literal(s: Seq<char>) -> Seq<char> {
    seq!['"'] + escaped(s) + seq!['"']
}

/// Calls `serde_json::to_string` on a string slice.
///
/// The contract claims two things of it. The result is the slice between
/// double quotes with the escapes of [`escape`], which is what the
/// serializer's escape table and its writer of escapes produce: `\"`, `\\`,
/// `\b`, `\t`, `\n`, `\f`, `\r`, `\u00` with two lower-case hex digits for the
/// other characters below the space, and every other character unchanged.
/// And the call succeeds. `to_string` documents two ways to fail, a value
/// that refuses to be serialized and a map with a key that is no string;
/// a string slice is neither. What is left is the writer: the serializer
/// writes a string with `format_escaped_str`, whose only errors are those
/// of the writer, and `to_string` writes into a byte vector, which accepts
/// every write.
#[verifier::external_body]
fn quote(text: &str) -> (literal: Result<String, serde_json::Error>)
    ensures
        literal is Ok,
        literal matches Ok(quoted) ==> quoted@ == json_literal(text@),
{
    serde_json::to_string(text)
}

/// Appends the JSON string that holds `text` to `out`.
pub fn write_string(out: &mut String, text: &str)
    ensures
        final(out)@ == old(out)@ + json_literal(text@),
{
    match quote(text) {
        Ok(quoted) => {
            out.append(quoted.as_str());
        },
        Err(_) => {
            assert(false);
        },
    }
}

/// The JSON string that holds `text`.
pub fn json_string(text: &str) -> (literal: String)
    ensures
        literal@ == json_literal(text@),
{
    let mut out = String::new();
    write_string(&mut out, text);
    out
}

/// A string that may be absent: its literal, or `null`.
pub open spec fn optional_string_json(text: Option<Seq<char>>) -> Seq<char> {
    match text {
        Some(s) => json_literal(s),
        None => "null"@,
    }
}

/// The object of a segment's text.
pub open spec fn text_json(text: TextModel) -> Seq<char> {
    "{\"content\":"@ + optional_string_json(text.content) + "}"@
}

/// A segment's text that may be absent.
pub open spec fn optional_text_json(text: Option<TextModel>) -> Seq<char> {
    match text {
        Some(t) => text_json(t),
        None => "null"@,
    }
}

/// The object of one title segment.
pub open spec fn title_json(title: TitleModel) -> Seq<char> {
    "{\"type\":"@ + json_literal(title.type_tag) + ",\"text\":"@ + optional_text_json(title.text)
        + "}"@
}

/// The objects of the segments, separated by commas.
pub open spec fn titles_json(titles: Seq<TitleModel>) -> Seq<char>
    decreases titles.len(),
{
    if titles.len() == 0 {
        Seq::empty()
    } else if titles.len() == 1 {
        title_json(titles[0])
    } else {
        titles_json(titles.drop_last()) + ","@ + title_json(titles.last())
    }
}

/// A list of segments that may be absent: the array, or `null`.
pub open spec fn optional_titles_json(titles: Option<Seq<TitleModel>>) -> Seq<char> {
    match titles {
        Some(items) => "["@ + titles_json(items) + "]"@,
        None => "null"@,
    }
}

/// The object of one page property.
pub open spec fn page_property_json(property: PagePropertyModel) -> Seq<char> {
    "{\"type\":"@ + json_literal(property.type_tag) + ",\"title\":"@ + optional_titles_json(
        property.title,
    ) + "}"@
}

/// One member of the properties object: the key, a colon, the property.
pub open spec fn member_json(entry: (Seq<char>, PagePropertyModel)) -> Seq<char> {
    json_literal(entry.0) + ":"@ + page_property_json(entry.1)
}

/// The members of the properties object in order, separated by commas.
pub open spec fn members_json(entries: Seq<(Seq<char>, PagePropertyModel)>) -> Seq<char>
    decreases entries.len(),
{
    if entries.len() == 0 {
        Seq::empty()
    } else if entries.len() == 1 {
        member_json(entries[0])
    } else {
        members_json(entries.drop_last()) + ","@ + member_json(entries.last())
    }
}

/// The object of the reference to the parent database.
pub open spec fn parent_json(parent: ParentModel) -> Seq<char> {
    "{\"type\":"@ + json_literal(parent.type_tag) + ",\"database_id\":"@ + json_literal(
        parent.database_id,
    ) + "}"@
}

/// The whole text of a page: the parent, then the properties.
pub open spec fn page_json(page: PageModel) -> Seq<char> {
    "{\"parent\":"@ + parent_json(page.parent) + ",\"properties\":{"@ + members_json(
        page.properties,
    ) + "}}"@
}

fn write_optional_string(out: &mut String, text: &Option<String>)
    ensures
        final(out)@ == old(out)@ + optional_string_json(text.deep_view()),
{
    match text {
        Some(s) => write_string(out, s.as_str()),
        None => out.append("null"),
    }
}

fn write_text(out: &mut String, text: &NotionText)
    ensures
        final(out)@ == old(out)@ + text_json(text@),
{
    out.append("{\"content\":");
    write_optional_string(out, &text.content);
    out.append("}");
}

fn write_optional_text(out: &mut String, text: &Option<NotionText>)
    ensures
        final(out)@ == old(out)@ + optional_text_json(text.deep_view()),
{
    match text {
        Some(t) => write_text(out, t),
        None => out.append("null"),
    }
}

fn write_title(out: &mut String, title: &NotionTitle)
    ensures
        final(out)@ == old(out)@ + title_json(title@),
{
    out.append("{\"type\":");
    write_string(out, title._type.as_str());
    out.append(",\"text\":");
    write_optional_text(out, &title.text);
    out.append("}");
}

fn write_titles(out: &mut String, titles: &Vec<NotionTitle>)
    ensures
        final(out)@ == old(out)@ + titles_json(titles.deep_view()),
{
    let ghost before = out@;
    let ghost models = titles.deep_view();
    let mut i: usize = 0;
    while i < titles.len()
        invariant
            i <= titles@.len(),
            models == titles.deep_view(),
            out@ == before + titles_json(models.take(i as int)),
        decreases titles@.len() - i,
    {
        if i > 0 {
            out.append(",");
        }
        write_title(out, &titles[i]);
        proof {
            let next = models.take(i + 1);
            assert(next.drop_last() =~= models.take(i as int));
        }
        i += 1;
    }
    assert(models.take(i as int) =~= models);
}

fn write_optional_titles(out: &mut String, titles: &Option<Vec<NotionTitle>>)
    ensures
        final(out)@ == old(out)@ + optional_titles_json(titles.deep_view()),
{
    match titles {
        Some(items) => {
            out.append("[");
            write_titles(out, items);
            out.append("]");
        },
        None => out.append("null"),
    }
}

fn write_page_property(out: &mut String, property: &NotionPageProperty)
    ensures
        final(out)@ == old(out)@ + page_property_json(property@),
{
    out.append("{\"type\":");
    write_string(out, property._type.as_str());
    out.append(",\"title\":");
    write_optional_titles(out, &property.title);
    out.append("}");
}

fn write_members(out: &mut String, properties: &PropertyMap<NotionPageProperty>)
    ensures
        final(out)@ == old(out)@ + members_json(properties.deep_view()),
{
    let ghost before = out@;
    let ghost models = properties.deep_view();
    let count = properties.len();
    let mut i: usize = 0;
    while i < count
        invariant
            i <= count,
            count == properties@.len(),
            models == properties.deep_view(),
            out@ == before + members_json(models.take(i as int)),
        decreases count - i,
    {
        match properties.entry(i) {
            Some((key, property)) => {
                if i > 0 {
                    out.append(",");
                }
                write_string(out, key.as_str());
                out.append(":");
                write_page_property(out, property);
                proof {
                    let next = models.take(i + 1);
                    assert(next.drop_last() =~= models.take(i as int));
                }
            },
            None => {},
        }
        i += 1;
    }
    assert(models.take(i as int) =~= models);
}

fn write_parent(out: &mut String, parent: &NotionParent)
    ensures
        final(out)@ == old(out)@ + parent_json(parent@),
{
    out.append("{\"type\":");
    write_string(out, parent._type.as_str());
    out.append(",\"database_id\":");
    write_string(out, parent.database_id.as_str());
    out.append("}");
}

impl NotionPage {
    /// The JSON text of this page, as it goes into the body of a creation
    /// request: compact, the parent first, the properties in their order.
    pub fn to_json(&self) -> (text: String)
        ensures
            text@ == page_json(self@),
    {
        let mut out = String::new();
        out.append("{\"parent\":");
        write_parent(&mut out, &self.parent);
        out.append(",\"properties\":{");
        write_members(&mut out, &self.properties);
        out.append("}}");
        out
    }
}

} // verus!
