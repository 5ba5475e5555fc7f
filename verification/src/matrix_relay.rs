//! The one-shot relay's reading of the generated message out of a tool
//! call's result.

use crate::relay::{non_empty, opt_view};
use crate::text::{chars_of, join_lines, join_with_newlines, views};
use vstd::prelude::*;

verus! {

/// One member of a JSON object: its key, and its value's text where that
/// value is a JSON string (`None` for any other value).
#[derive(Clone, Debug, PartialEq, Eq)]
pub struct JsonMember {
    pub key: String,
    pub string_value: Option<String>,
}

/// The structured content of a tool result, as far as the relay reads it:
/// the members of a JSON object, in order and each key once, or any other
/// JSON value.
#[derive(Clone, Debug, PartialEq, Eq)]
pub enum JsonValue {
    Object(Vec<JsonMember>),
    NotObject,
}

/// The first member named `key`, if any.
pub open spec fn member(entries: Seq<JsonMember>, key: Seq<char>) -> Option<JsonMember>
    decreases entries.len(),
{
    if entries.len() == 0 {
        None
    } else if entries[0].key@ == key {
        Some(entries[0])
    } else {
        member(entries.drop_first(), key)
    }
}

/// The `"text"` member of a JSON object where it is a string; nothing for
/// any other value, for an object without that member, or for a member that
/// is not a string.
pub open spec fn text_member(value: JsonValue) -> Option<Seq<char>> {
    match value {
        JsonValue::Object(entries) => match member(entries@, "text"@) {
            Some(m) => opt_view(m.string_value),
            None => None,
        },
        JsonValue::NotObject => None,
    }
}

/// Reads the `"text"` member of a JSON object, where it is a string.
pub fn structured_text(value: &JsonValue) -> (r: Option<String>)
    ensures
        opt_view(r) == text_member(*value),
{
    match value {
        JsonValue::Object(entries) => {
            let key = "text";
            let mut i: usize = 0;
            assert(entries@.skip(0) =~= entries@);
            while i < entries.len()
                invariant
                    i <= entries.len(),
                    key@ == "text"@,
                    *value == JsonValue::Object(*entries),
                    member(entries@, key@) == member(entries@.skip(i as int), key@),
                decreases entries.len() - i,
            {
                let ghost rest = entries@.skip(i as int);
                proof {
                    assert(rest[0] == entries@[i as int]);
                    assert(rest.drop_first() =~= entries@.skip(i + 1));
                }
                if str_equal(entries[i].key.as_str(), key) {
                    assert(member(rest, key@) == Some(entries@[i as int]));
                    return match &entries[i].string_value {
                        Some(t) => Some(t.clone()),
                        None => None,
                    };
                }
                i = i + 1;
            }
            proof {
                assert(entries@.skip(i as int).len() == 0);
            }
            None
        },
        _ => None,
    }
}

/// Whether two texts are equal, character by character.
fn str_equal(a: &str, b: &str) -> (r: bool)
    ensures
        r == (a@ == b@),
{
    let x = chars_of(a);
    let y = chars_of(b);
    if x.len() != y.len() {
        return false;
    }
    let mut i: usize = 0;
    while i < x.len()
        invariant
            x@ == a@,
            y@ == b@,
            x.len() == y.len(),
            i <= x.len(),
            forall|k: int| 0 <= k < i ==> x@[k] == y@[k],
        decreases x.len() - i,
    {
        if x[i] != y[i] {
            return false;
        }
        i = i + 1;
    }
    assert(x@ =~= y@);
    true
}

/// What a tool call gave back, as far as the relay reads it.
#[derive(Clone, Debug, PartialEq, Eq)]
pub struct ToolReply {
    /// The structured content, where the tool gave one.
    pub structured: Option<JsonValue>,
    /// The content blocks in order: the text of each text block, `None` for
    /// any other block.
    pub blocks: Vec<Option<String>>,
}

/// The texts of the text blocks, in order.
pub open spec fn block_texts(blocks: Seq<Option<String>>) -> Seq<Seq<char>>
    decreases blocks.len(),
{
    if blocks.len() == 0 {
        Seq::empty()
    } else {
        let init = block_texts(blocks.drop_last());
        match blocks.last() {
            Some(t) => init.push(t@),
            None => init,
        }
    }
}

/// The generated message: the structured `"text"` string where there is
/// one, otherwise all text blocks joined by newlines, `None` where that is
/// empty.
pub open spec fn tool_text(structured: Option<JsonValue>, blocks: Seq<Option<String>>) -> Option<
    Seq<char>,
> {
    match structured {
        Some(v) if text_member(v) is Some => text_member(v),
        _ => non_empty(join_lines(block_texts(blocks))),
    }
}

/// Pulls the generated message out of a tool result, preferring the
/// structured content and falling back to the plain text blocks.
pub fn extract_text(result: &ToolReply) -> (r: Option<String>)
    ensures
        opt_view(r) == tool_text(result.structured, result.blocks@),
{
    if let Some(v) = &result.structured {
        let t = structured_text(v);
        if t.is_some() {
            return t;
        }
    }
    let blocks = &result.blocks;
    let mut texts: Vec<String> = Vec::new();
    let mut i: usize = 0;
    while i < blocks.len()
        invariant
            i <= blocks.len(),
            views(texts@) == block_texts(blocks@.take(i as int)),
        decreases blocks.len() - i,
    {
        proof {
            assert(blocks@.take(i + 1).drop_last() =~= blocks@.take(i as int));
        }
        match &blocks[i] {
            Some(t) => {
                let ghost old_texts = texts@;
                texts.push(t.clone());
                proof {
                    assert(views(texts@) =~= views(old_texts).push(t@));
                }
            },
            None => {},
        }
        i = i + 1;
    }
    proof {
        assert(blocks@.take(blocks@.len() as int) =~= blocks@);
    }
    let joined = join_with_newlines(&texts);
    if joined.as_str().is_empty() {
        None
    } else {
        Some(joined)
    }
}

/// The member found for a key is the first member with that key.
proof fn lemma_member_is_first(entries: Seq<JsonMember>, key: Seq<char>, i: int)
    requires
        0 <= i < entries.len(),
        entries[i].key@ == key,
        forall|j: int| 0 <= j < i ==> entries[j].key@ != key,
    ensures
        member(entries, key) == Some(entries[i]),
    decreases i,
{
    if i > 0 {
        let rest = entries.drop_first();
        assert forall|j: int| 0 <= j < i - 1 implies rest[j].key@ != key by {
            assert(rest[j] == entries[j + 1]);
        }
        lemma_member_is_first(rest, key, i - 1);
    }
}

/// Where the structured content is a JSON object whose `"text"` member is a
/// string, that string is the generated message, whatever the content
/// blocks hold.
pub proof fn lemma_structured_text_wins(
    entries: Vec<JsonMember>,
    i: int,
    t: String,
    blocks: Seq<Option<String>>,
)
    requires
        0 <= i < entries@.len(),
        entries@[i].key@ == "text"@,
        entries@[i].string_value == Some(t),
        forall|j: int| 0 <= j < i ==> entries@[j].key@ != "text"@,
    ensures
        tool_text(Some(JsonValue::Object(entries)), blocks) == Some(t@),
{
    lemma_member_is_first(entries@, "text"@, i);
}

/// Without a structured `"text"` string (no structured content, a value
/// that is not an object, or an object whose `"text"` member is missing or
/// not a string), the message is the text blocks joined by newlines, and
/// nothing where that is empty.
pub proof fn lemma_blocks_without_structured_text(
    structured: Option<JsonValue>,
    blocks: Seq<Option<String>>,
)
    requires
        structured matches Some(JsonValue::Object(entries)) ==> forall|j: int|
            0 <= j < entries@.len() && (#[trigger] entries@[j]).key@ == "text"@ ==> entries@[j].string_value is None,
    ensures
        tool_text(structured, blocks) == (if join_lines(block_texts(blocks)).len() == 0 {
            None
        } else {
            Some(join_lines(block_texts(blocks)))
        }),
{
    if let Some(JsonValue::Object(entries)) = structured {
        lemma_member_none_or_nonstring(entries@, "text"@);
    }
}

/// A key whose members all hold no string finds no string.
proof fn lemma_member_none_or_nonstring(entries: Seq<JsonMember>, key: Seq<char>)
    requires
        forall|j: int|
            0 <= j < entries.len() && (#[trigger] entries[j]).key@ == key ==> entries[j].string_value is None,
    ensures
        member(entries, key) matches Some(m) ==> m.string_value is None,
    decreases entries.len(),
{
    if entries.len() > 0 {
        let rest = entries.drop_first();
        assert forall|j: int|
            0 <= j < rest.len() && (#[trigger] rest[j]).key@ == key implies rest[j].string_value is None by {
            assert(rest[j] == entries[j + 1]);
        }
        lemma_member_none_or_nonstring(rest, key);
    }
}

/// The text of a block: a text block's text, nothing for any other block.
pub open spec fn block_text(b: Option<String>) -> Seq<char> {
    match b {
        Some(t) => t@,
        None => Seq::empty(),
    }
}

/// The message's parts are exactly the text blocks, every one of them and
/// in their order.
pub proof fn lemma_block_texts_are_all_text_blocks(blocks: Seq<Option<String>>)
    ensures
        block_texts(blocks) == blocks.filter(|b: Option<String>| b is Some).map_values(
            |b: Option<String>| block_text(b),
        ),
        block_texts(blocks).len() == blocks.filter(|b: Option<String>| b is Some).len(),
    decreases blocks.len(),
{
    let is_text = |b: Option<String>| b is Some;
    if blocks.len() == 0 {
        reveal(Seq::filter);
        assert(blocks.filter(is_text) =~= Seq::<Option<String>>::empty());
        assert(blocks.filter(is_text).map_values(|b: Option<String>| block_text(b))
            =~= Seq::<Seq<char>>::empty());
    } else {
        let init = blocks.drop_last();
        lemma_block_texts_are_all_text_blocks(init);
        reveal(Seq::filter);
        assert(blocks.filter(is_text) == if is_text(blocks.last()) {
            init.filter(is_text).push(blocks.last())
        } else {
            init.filter(is_text)
        });
        if is_text(blocks.last()) {
            assert(blocks.filter(is_text).map_values(|b: Option<String>| block_text(b))
                =~= init.filter(is_text).map_values(|b: Option<String>| block_text(b)).push(
                block_text(blocks.last()),
            ));
        }
    }
}

} // verus!
