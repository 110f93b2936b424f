//! The greeting template and the operation that delivers it.
use vstd::prelude::*;
use crate::sink::Sink;

verus! {

/// The line sent for `to` and `from`: the literal `hello to `, then `to`, then
/// the separator ` — ` (space, em dash, space) and the word `from `, then
/// `from`, with nothing escaped and nothing after it.
pub open spec fn greeting_text(to: Seq<char>, from: Seq<char>) -> Seq<char> {
    "hello to "@ + to + " — from "@ + from
}

/// Builds the greeting line for `to` and `from`.
pub fn greeting(to: &str, from: &str) -> (r: String)
    ensures
        r@ == greeting_text(to@, from@),
{
    let mut line = String::from_str("hello to ");
    line.append(to);
    line.append(" — from ");
    line.append(from);
    line
}

/// Greets `to` on behalf of `from`: the sink receives the greeting line once,
/// and nothing else happens to it. Any two names are accepted.
pub fn hello<S: Sink>(sink: &mut S, to: &str, from: &str)
    ensures
        final(sink).received() == old(sink).received().push(greeting_text(to@, from@)),
{
    let line = greeting(to, from);
    sink.write(line.as_str());
}

/// Greeting twice with the same names gives the sink two lines, one per call,
/// after what it already held, and the two lines are identical: a repeated
/// greeting is neither merged with the first nor dropped.
pub proof fn lemma_hello_twice(
    to: Seq<char>,
    from: Seq<char>,
    before: Seq<Seq<char>>,
    middle: Seq<Seq<char>>,
    after: Seq<Seq<char>>,
)
    requires
        middle == before.push(greeting_text(to, from)),
        after == middle.push(greeting_text(to, from)),
    ensures
        after.len() == before.len() + 2,
        after.subrange(0, before.len() as int) == before,
        after[before.len() as int] == greeting_text(to, from),
        after[before.len() + 1int] == after[before.len() as int],
{
    assert(after.subrange(0, before.len() as int) =~= before);
}

} // verus!
