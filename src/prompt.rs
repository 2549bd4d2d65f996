//! The fill-in-the-middle prompt sent to the model, and the cleaning of what
//! the model sends back.
use vstd::prelude::*;
use crate::text::{ltrim, remove_all, rtrim, trim, trim_both, trim_end, trim_start, without};

verus! {

/// The tag that closes the text before the cursor.
pub open spec fn prefix_tag() -> Seq<char> {
    "<fim_prefix>"@
}

/// The tag that closes the text after the cursor.
pub open spec fn suffix_tag() -> Seq<char> {
    "<fim_suffix>"@
}

/// The tag that marks the gap the model is asked to fill.
pub open spec fn middle_tag() -> Seq<char> {
    "<fim_middle>"@
}

/// The prompt for `text` with the cursor before character `cursor`: the text
/// before the cursor right-trimmed, the prefix tag, the text after the cursor
/// left-trimmed, the suffix tag, and the middle tag with nothing after it.
pub open spec fn prompt_of(text: Seq<char>, cursor: int) -> Seq<char> {
    rtrim(text.subrange(0, cursor)) + prefix_tag() + ltrim(
        text.subrange(cursor, text.len() as int),
    ) + suffix_tag() + middle_tag()
}

/// The model's answer with every tag removed (middle tag first, then prefix,
/// then suffix) and surrounding whitespace trimmed.
pub open spec fn cleaned(content: Seq<char>) -> Seq<char> {
    trim(without(without(without(content, middle_tag()), prefix_tag()), suffix_tag()))
}

/// Builds the fill-in-the-middle prompt for `text`, split at the character
/// offset `cursor`.
pub fn build_prompt(text: &str, cursor: usize) -> (r: String)
    requires
        cursor <= text@.len(),
    ensures
        r@ == prompt_of(text@, cursor as int),
{
    proof {
        reveal_strlit("<fim_prefix>");
        reveal_strlit("<fim_suffix>");
    }
    let len = text.unicode_len();
    let before = text.substring_char(0, cursor);
    let after = text.substring_char(cursor, len);
    let mut r = String::from_str(trim_end(before));
    r.append("<fim_prefix>");
    r.append(trim_start(after));
    r.append("<fim_suffix>");
    r.append("<fim_middle>");
    assert(r@ =~= prompt_of(text@, cursor as int));
    r
}

/// Strips the fill-in-the-middle tags from the model's answer and trims it.
pub fn clean_completion(content: &str) -> (r: String)
    ensures
        r@ == cleaned(content@),
{
    proof {
        reveal_strlit("<fim_middle>");
        reveal_strlit("<fim_prefix>");
        reveal_strlit("<fim_suffix>");
    }
    let a = remove_all(content, "<fim_middle>");
    let b = remove_all(a.as_str(), "<fim_prefix>");
    let c = remove_all(b.as_str(), "<fim_suffix>");
    String::from_str(trim_both(c.as_str()))
}

} // verus!
