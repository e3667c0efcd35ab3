//! Text helpers with the meaning that the rest of the library relies on.
use vstd::prelude::*;
use vstd::string::*;

verus! {

/// What is left of `text` once `prefix` no longer stands at its front, with every leading
/// occurrence of `prefix` cut off.
pub open spec fn trimmed_start(text: Seq<char>, prefix: Seq<char>) -> Seq<char>
    decreases text.len(),
{
    if 0 < prefix.len() <= text.len() && prefix.is_prefix_of(text) {
        trimmed_start(text.skip(prefix.len() as int), prefix)
    } else {
        text
    }
}

/// The truth value that a text spells: `true` and `false` are the only two spellings.
pub open spec fn bool_of(text: Seq<char>) -> Option<bool> {
    if text == "true"@ {
        Some(true)
    } else if text == "false"@ {
        Some(false)
    } else {
        None
    }
}

/// The two spellings differ.
pub proof fn lemma_bool_spellings()
    ensures
        "true"@ != "false"@,
        bool_of("true"@) == Some(true),
        bool_of("false"@) == Some(false),
{
    reveal_strlit("true");
    reveal_strlit("false");
    assert("true"@.len() != "false"@.len());
}

/// Whether two texts hold the same characters.
pub fn same_text(left: &str, right: &str) -> (same: bool)
    ensures
        same == (left@ == right@),
{
    left.to_owned() == right.to_owned()
}

/// Whether `text` begins with `prefix`.
pub fn starts_with(text: &str, prefix: &str) -> (yes: bool)
    ensures
        yes == prefix@.is_prefix_of(text@),
{
    let prefix_len: usize = prefix.unicode_len();
    if text.unicode_len() < prefix_len {
        return false;
    }
    let front = text.substring_char(0, prefix_len);
    assert(prefix@.is_prefix_of(text@) ==> front@ =~= prefix@);
    same_text(front, prefix)
}

/// Cuts every leading occurrence of `prefix` off `text`.
pub fn trim_start_matches<'a>(text: &'a str, prefix: &str) -> (rest: &'a str)
    ensures
        rest@ == trimmed_start(text@, prefix@),
{
    let prefix_len: usize = prefix.unicode_len();
    let mut rest = text;
    if prefix_len == 0 {
        return rest;
    }
    while starts_with(rest, prefix)
        invariant
            prefix_len == prefix@.len(),
            prefix_len > 0,
            trimmed_start(rest@, prefix@) == trimmed_start(text@, prefix@),
        decreases rest@.len(),
    {
        let rest_len: usize = rest.unicode_len();
        let ghost before = rest@;
        rest = rest.substring_char(prefix_len, rest_len);
        assert(rest@ =~= before.skip(prefix_len as int));
    }
    rest
}

/// Reads a truth value.
pub fn parse_bool(text: &str) -> (value: Option<bool>)
    ensures
        value == bool_of(text@),
{
    if same_text(text, "true") {
        Some(true)
    } else if same_text(text, "false") {
        Some(false)
    } else {
        None
    }
}

/// The two texts, one after the other.
pub fn joined(front: &str, back: &str) -> (whole: String)
    ensures
        whole@ == front@ + back@,
{
    front.to_owned().concat(back)
}

} // verus!
