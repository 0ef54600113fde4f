//! An append-only list of commands.
use vstd::prelude::*;
use crate::text::texts;

verus! {

pub struct History {
    entries: Vec<String>,
}

impl View for History {
    type V = Seq<Seq<char>>;

    closed spec fn view(&self) -> Seq<Seq<char>> {
        texts(self.entries@)
    }
}

impl History {
    pub fn new() -> (r: History)
        ensures
            r@ == Seq::<Seq<char>>::empty(),
    {
        History { entries: Vec::new() }
    }

    pub fn add(&mut self, command: String)
        ensures
            final(self)@ == old(self)@.push(command@),
    {
        let ghost before = self.entries@;
        self.entries.push(command);
        proof {
            assert(texts(self.entries@) =~= texts(before).push(command@));
        }
    }

    pub fn get_all(&self) -> (r: &[String])
        ensures
            texts(r@) == self@,
    {
        self.entries.as_slice()
    }
}

} // verus!
