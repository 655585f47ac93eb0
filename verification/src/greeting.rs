//! The `greet` operation: a fixed template around the caller's name.

use vstd::prelude::*;

verus! {

/// The text that stands before the name in every greeting.
pub open spec fn greeting_prefix() -> Seq<char> {
    "Hello, "@
}

/// The text that stands behind the name in every greeting.
pub open spec fn greeting_suffix() -> Seq<char> {
    "! Welcome to MAYA!"@
}

/// The greeting for `name`: prefix, then the name as it was given, then suffix.
pub open spec fn greeting(name: Seq<char>) -> Seq<char> {
    greeting_prefix() + name + greeting_suffix()
}

/// Builds the greeting for `name`.
///
/// Every name is accepted, the empty one and one with control characters
/// included, and goes into the greeting unchanged.
pub fn greet(name: &str) -> (text: String)
    ensures
        text@ == greeting(name@),
{
    let mut text = String::from_str("Hello, ");
    text.append(name);
    text.append("! Welcome to MAYA!");
    text
}

/// The template alone has 25 characters: 7 before the name and 18 behind it.
pub proof fn lemma_template_len()
    ensures
        greeting_prefix().len() == 7,
        greeting_suffix().len() == 18,
{
    reveal_strlit("Hello, ");
    reveal_strlit("! Welcome to MAYA!");
}

/// The name stands in its greeting verbatim: the greeting is the prefix, the
/// name at offset 7 and the suffix, and nothing else.
pub proof fn lemma_greeting_embeds_name(name: Seq<char>)
    ensures
        greeting(name).len() == name.len() + 25,
        greeting(name).subrange(0, 7) == greeting_prefix(),
        greeting(name).subrange(7, 7 + name.len() as int) == name,
        greeting(name).subrange(7 + name.len() as int, 25 + name.len() as int)
            == greeting_suffix(),
{
    lemma_template_len();
    let text = greeting(name);
    let end = 7 + name.len() as int;
    assert(text.subrange(0, 7) =~= greeting_prefix());
    assert(text.subrange(7, end) =~= name);
    assert(text.subrange(end, end + 18) =~= greeting_suffix());
}

/// Greeting is repeatable: two greetings made for the same name are the same
/// text, so a second call of `greet` tells nothing that the first did not.
pub proof fn lemma_greeting_repeatable(
    first_name: Seq<char>,
    first_text: Seq<char>,
    second_name: Seq<char>,
    second_text: Seq<char>,
)
    requires
        first_text == greeting(first_name),
        second_text == greeting(second_name),
        first_name == second_name,
    ensures
        first_text == second_text,
{
}

/// Different names never share a greeting.
pub proof fn lemma_greeting_injective(a: Seq<char>, b: Seq<char>)
    requires
        greeting(a) == greeting(b),
    ensures
        a == b,
{
    lemma_greeting_embeds_name(a);
    lemma_greeting_embeds_name(b);
}

} // verus!
