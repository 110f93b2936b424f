//! The one capability the greeter consumes: a place that takes a line of text.
use vstd::prelude::*;

verus! {

/// A host capability that records or displays one line of text per call.
///
/// `received` is the sequence of lines handed to the sink so far, oldest
/// first; each `write` appends exactly the text it was given.
pub trait Sink {
    spec fn received(&self) -> Seq<Seq<char>>;

    fn write(&mut self, text: &str)
        ensures
            final(self).received() == old(self).received().push(text@),
    ;
}

/// An in-memory sink that keeps every line it receives, in order.
pub struct Transcript {
    entries: Vec<String>,
}

impl View for Transcript {
    type V = Seq<Seq<char>>;

    closed spec fn view(&self) -> Seq<Seq<char>> {
        self.entries@.map_values(|s: String| s@)
    }
}

impl Transcript {
    /// A transcript that has received nothing yet.
    pub fn new() -> (r: Transcript)
        ensures
            r@ == Seq::<Seq<char>>::empty(),
    {
        let r = Transcript { entries: Vec::new() };
        assert(r@ =~= Seq::<Seq<char>>::empty());
        r
    }

    /// How many lines the transcript holds.
    pub fn len(&self) -> (r: usize)
        ensures
            r == self@.len(),
    {
        self.entries.len()
    }

    /// The line received at position `i`, counting from the oldest.
    pub fn line(&self, i: usize) -> (r: &str)
        requires
            i < self@.len(),
        ensures
            r@ == self@[i as int],
    {
        self.entries[i].as_str()
    }
}

impl Sink for Transcript {
    open spec fn received(&self) -> Seq<Seq<char>> {
        self@
    }

    fn write(&mut self, text: &str) {
        self.entries.push(String::from_str(text));
        assert(self@ =~= old(self)@.push(text@));
    }
}

} // verus!
