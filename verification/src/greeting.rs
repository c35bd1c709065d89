use vstd::prelude::*;

verus! {

/// The text of the greeting for `name`.
pub open spec fn greeting_text(name: Seq<char>) -> Seq<char> {
    "Hello, "@ + name + "! You've been greeted from Rust!"@
}

/// The command that the web view invokes: greets `name`.
pub fn greet(name: &str) -> (text: String)
    ensures
        text@ == greeting_text(name@),
{
    let mut text = String::from_str("Hello, ");
    text.append(name);
    text.append("! You've been greeted from Rust!");
    text
}

} // verus!

verus! {

/// The greeting is "Hello, ", then the whole name, then
/// "! You've been greeted from Rust!": its length is the name's plus the
/// 39 characters around it, and the name stands unchanged from the eighth
/// character on.
pub proof fn lemma_greeting_holds_whole_name(name: Seq<char>)
    ensures
        greeting_text(name).len() == 7 + name.len() + 32,
        greeting_text(name).subrange(0, 7) == "Hello, "@,
        greeting_text(name).subrange(7, 7 + name.len() as int) == name,
        greeting_text(name).subrange(7 + name.len() as int, 7 + name.len() as int + 32)
            == "! You've been greeted from Rust!"@,
{
    reveal_strlit("Hello, ");
    reveal_strlit("! You've been greeted from Rust!");
    let t = greeting_text(name);
    assert(t.subrange(0, 7) =~= "Hello, "@);
    assert(t.subrange(7, 7 + name.len() as int) =~= name);
    assert(t.subrange(7 + name.len() as int, 7 + name.len() as int + 32)
        =~= "! You've been greeted from Rust!"@);
}

} // verus!
