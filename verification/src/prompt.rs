//! The text sent to the completion endpoint.

use crate::text::{ends_with, occurs_at, occurs_in};
use vstd::prelude::*;
use vstd::string::*;

verus! {

/// The operating system the command is meant for, as far as it is recognised.
#[derive(Clone, Copy, Debug, PartialEq, Eq, Structural)]
pub enum OsHint {
    MacOs,
    Linux,
    Unknown,
}

/// The parenthetical that names the operating system; empty where it is unknown.
pub open spec fn hint_text(os: OsHint) -> Seq<char> {
    match os {
        OsHint::MacOs => " (on macOS)"@,
        OsHint::Linux => " (on Linux)"@,
        OsHint::Unknown => Seq::empty(),
    }
}

/// What separates the description from the script.
pub open spec fn colon_line() -> Seq<char> {
    ":\n"@
}

/// The fence that opens the script fragment.
pub open spec fn opening_fence() -> Seq<char> {
    "```bash\n"@
}

/// The fence that closes the script fragment; generation stops there.
pub open spec fn closing_fence() -> Seq<char> {
    "```"@
}

/// The interpreter line the script starts with.
pub open spec fn shebang_line() -> Seq<char> {
    "#!/bin/bash\n"@
}

/// The prompt for a task description: the description, the hint, a colon, and
/// the start of a fenced bash script for the endpoint to continue.
pub open spec fn prompt_text(description: Seq<char>, os: OsHint) -> Seq<char> {
    description + hint_text(os) + colon_line() + opening_fence() + shebang_line()
}

/// The hint for `os` as a string slice.
pub fn os_hint(os: OsHint) -> (r: &'static str)
    ensures
        r@ == hint_text(os),
{
    match os {
        OsHint::MacOs => " (on macOS)",
        OsHint::Linux => " (on Linux)",
        OsHint::Unknown => {
            proof {
                reveal_strlit("");
                assert(""@ =~= Seq::<char>::empty());
            }
            ""
        },
    }
}

/// Builds the prompt for `prompt`, the task as the user described it.
pub fn build_prompt(prompt: &str, os: OsHint) -> (r: String)
    ensures
        r@ == prompt_text(prompt@, os),
        ends_with(r@, opening_fence() + shebang_line()),
{
    let mut text = String::from_str(prompt);
    text.append(os_hint(os));
    text.append(":\n");
    text.append("```bash\n");
    text.append("#!/bin/bash\n");
    proof {
        lemma_prompt_ends_with_script_start(prompt@, os);
    }
    text
}

/// Every prompt ends with the opening fence followed at once by the
/// interpreter line, whatever the description and the operating system.
pub proof fn lemma_prompt_ends_with_script_start(description: Seq<char>, os: OsHint)
    ensures
        ends_with(prompt_text(description, os), opening_fence() + shebang_line()),
{
    let head = description + hint_text(os) + colon_line();
    let tail = opening_fence() + shebang_line();
    let whole = prompt_text(description, os);
    assert(whole =~= head + tail);
    assert(whole.subrange(whole.len() - tail.len(), whole.len() as int) =~= tail);
}

/// What follows the description in a prompt: the hint and the start of the
/// script.
spec fn after_description(os: OsHint) -> Seq<char> {
    hint_text(os) + (colon_line() + opening_fence() + shebang_line())
}

/// The shape of a hint: eleven characters, a space and an opening bracket
/// first, the closing bracket last, the system's initial in the sixth place.
proof fn lemma_hint_shape(named: OsHint)
    requires
        named != OsHint::Unknown,
    ensures
        hint_text(named).len() == 11,
        hint_text(named)[0] == ' ',
        hint_text(named)[1] == '(',
        hint_text(named)[10] == ')',
        hint_text(named)[5] == (if named == OsHint::MacOs { 'm' } else { 'L' }),
{
    reveal_strlit(" (on macOS)");
    reveal_strlit(" (on Linux)");
}

/// The start of the script holds neither a space nor a closing bracket.
proof fn lemma_script_start_shape(i: int)
    requires
        0 <= i < 22,
    ensures
        (colon_line() + opening_fence() + shebang_line()).len() == 22,
        (colon_line() + opening_fence() + shebang_line())[i] != ' ',
        (colon_line() + opening_fence() + shebang_line())[i] != ')',
{
    reveal_strlit(":\n");
    reveal_strlit("```bash\n");
    reveal_strlit("#!/bin/bash\n");
    let a = colon_line();
    let b = opening_fence();
    let c = shebang_line();
    let all = a + b + c;
    if i < 2 {
        assert(all[i] == a[i]);
    } else if i < 10 {
        assert(all[i] == b[i - 2]);
    } else {
        assert(all[i] == c[i - 10]);
    }
}

/// Inside a hint a space stands first and fifth only, and before the last
/// character there is no closing bracket.
proof fn lemma_hint_inside(named: OsHint, i: int)
    requires
        named != OsHint::Unknown,
        0 <= i < 11,
    ensures
        hint_text(named)[i] == ' ' ==> i == 0 || i == 4,
        hint_text(named)[i] == ')' ==> i == 10,
{
    reveal_strlit(" (on macOS)");
    reveal_strlit(" (on Linux)");
}

/// Where the hint of a recognised system `named` stands in a prompt built for
/// `os`, given that the description itself does not hold it: after the
/// description if `named` is `os`, and nowhere otherwise.
proof fn lemma_hint_positions(description: Seq<char>, os: OsHint, named: OsHint, at: int)
    requires
        named != OsHint::Unknown,
        !occurs_in(description, hint_text(named)),
    ensures
        occurs_at(prompt_text(description, os), hint_text(named), at) <==> (named == os && at
            == description.len()),
{
    let whole = prompt_text(description, os);
    let script = colon_line() + opening_fence() + shebang_line();
    let own = hint_text(os);
    let rest = after_description(os);
    let hint = hint_text(named);
    let start = description.len() as int;
    lemma_hint_shape(named);
    lemma_script_start_shape(0);
    assert(whole =~= description + rest);
    if os != OsHint::Unknown {
        lemma_hint_shape(os);
    }
    if occurs_at(whole, hint, at) {
        let found = whole.subrange(at, at + 11);
        assert(found == hint);
        if at + 11 <= start {
            assert(description.subrange(at, at + 11) =~= found);
            assert(occurs_at(description, hint, at));
        } else if at < start {
            // the closing bracket of the hint would stand among the ten
            // characters after the description
            let i = at + 10 - start;
            assert(found[10] == rest[i]);
            if i < own.len() {
                lemma_hint_inside(os, i);
            } else {
                lemma_script_start_shape(i - own.len());
            }
        } else if at > start {
            // the hint would start at a space after the first character
            let i = at - start;
            assert(found[0] == rest[i]);
            assert(found[1] == rest[i + 1]);
            if i < own.len() {
                lemma_hint_inside(os, i);
                reveal_strlit(" (on macOS)");
                reveal_strlit(" (on Linux)");
            } else {
                lemma_script_start_shape(i - own.len());
            }
        } else {
            assert(found[0] == rest[0]);
            assert(found[5] == rest[5]);
        }
    }
    if named == os && at == start {
        assert(whole.subrange(at, at + 11) =~= hint);
    }
}

/// For a recognised operating system the hint stands in the prompt exactly
/// once, right after the description, provided the description does not hold
/// that very text already.
pub proof fn lemma_hint_appears_once(description: Seq<char>, os: OsHint)
    requires
        os != OsHint::Unknown,
        !occurs_in(description, hint_text(os)),
    ensures
        forall|at: int|
            occurs_at(prompt_text(description, os), hint_text(os), at) <==> at
                == description.len(),
{
    assert forall|at: int|
        occurs_at(prompt_text(description, os), hint_text(os), at) <==> at
            == description.len() by {
        lemma_hint_positions(description, os, os, at);
    }
}

/// The hint of another system than the one the prompt was built for stands
/// nowhere in it, provided the description does not hold it: a prompt for an
/// unknown system carries no hint, and one for a known system only its own.
pub proof fn lemma_other_hint_absent(description: Seq<char>, os: OsHint, other: OsHint)
    requires
        other != OsHint::Unknown,
        other != os,
        !occurs_in(description, hint_text(other)),
    ensures
        !occurs_in(prompt_text(description, os), hint_text(other)),
{
    assert forall|at: int| !occurs_at(prompt_text(description, os), hint_text(other), at) by {
        lemma_hint_positions(description, os, other, at);
    }
}

} // verus!
