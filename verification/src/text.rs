//! Borrowed text: choosing between two borrows, holding one in a struct, and
//! reading through shared borrows before writing through an exclusive one.

use vstd::prelude::*;

verus! {

/// Returns the longer of two borrowed strings, measured in bytes as
/// `str::len` counts them; when both are equally long the second one is
/// returned.
pub fn longest<'a>(x: &'a str, y: &'a str) -> (r: &'a str)
    ensures
        r == (if y.len() >= x.len() { y } else { x }),
{
    if y.len() >= x.len() {
        y
    } else {
        x
    }
}

/// Holds a shared borrow of some text; the borrow cannot outlive the text.
pub struct Wrapper<'a> {
    pub inner: &'a str,
}

/// The line that reports what two readers saw.
pub open spec fn reads_report(first: Seq<char>, second: Seq<char>) -> Seq<char> {
    "reads: "@ + first + " & "@ + second
}

/// Reads `s` through two shared borrows, reports what both saw, and only then
/// appends `suffix` through an exclusive borrow.
///
/// The report is built from the text as it was before the append.
pub fn read_twice_then_append(s: &mut String, suffix: &str) -> (msg: String)
    ensures
        msg@ == reads_report(old(s)@, old(s)@),
        final(s)@ == old(s)@ + suffix@,
{
    let a: &String = &*s;
    let b: &String = &*s;
    let mut msg = String::from_str("reads: ");
    msg.append(a.as_str());
    msg.append(" & ");
    msg.append(b.as_str());
    let m: &mut String = s;
    m.append(suffix);
    msg
}

/// Runs [`read_twice_then_append`] on `"hello"` with the suffix `", world"`
/// and returns the report.
pub fn borrow_scopes_ok() -> (msg: String)
    ensures
        msg@ == "reads: hello & hello"@,
{
    let mut s = String::from_str("hello");
    let msg = read_twice_then_append(&mut s, ", world");
    proof {
        reveal_strlit("reads: ");
        reveal_strlit(" & ");
        reveal_strlit("hello");
        reveal_strlit(", world");
        reveal_strlit("hello, world");
        reveal_strlit("reads: hello & hello");
        // the text has grown, the report still shows what the readers saw
        assert(s@ =~= "hello, world"@);
        assert(msg@ =~= "reads: hello & hello"@);
    }
    msg
}

} // verus!
