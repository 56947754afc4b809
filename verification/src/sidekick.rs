//! Assistants: the optional collaborator a villain owns and consults.

use crate::gadget::Gadget;
use vstd::prelude::*;
use vstd::string::*;

verus! {

/// The assistant capability. An assistant answers a loyalty check, derives
/// an ordered list of weak-target identifiers from a piece of equipment, and
/// records every message relayed to it.
///
/// `loyal` and `weak_targets` are fixed data of the assistant: the exec
/// calls return them unchanged and mutate nothing. `messages` is the ordered
/// history of relayed texts; `tell` appends exactly one entry.
pub trait Assistant: Sized {
    spec fn loyal(&self) -> bool;

    spec fn weak_targets(&self) -> Seq<Seq<char>>;

    spec fn messages(&self) -> Seq<Seq<char>>;

    fn agree(&self) -> (answer: bool)
        ensures
            answer == self.loyal(),
    ;

    fn get_weak_targets<G: Gadget>(&self, gadget: &G) -> (targets: Vec<String>)
        ensures
            targets@.len() == self.weak_targets().len(),
            forall|i: int| 0 <= i < targets@.len() ==> targets@[i]@ == self.weak_targets()[i],
    ;

    fn tell(&mut self, message: &str)
        ensures
            final(self).messages() == old(self).messages().push(message@),
            final(self).loyal() == old(self).loyal(),
            final(self).weak_targets() == old(self).weak_targets(),
    ;
}

/// The stock assistant: unconditionally loyal, aware of no weak targets,
/// holding on to the one gadget it was given and to every message it was
/// told.
pub struct Sidekick<G: Gadget> {
    gadget: G,
    received: Vec<String>,
}

impl<G: Gadget> Sidekick<G> {
    pub fn new(gadget: G) -> (sidekick: Sidekick<G>)
        ensures
            sidekick.loyal(),
            sidekick.weak_targets() == Seq::<Seq<char>>::empty(),
            sidekick.messages() == Seq::<Seq<char>>::empty(),
    {
        let sidekick = Sidekick { gadget, received: Vec::new() };
        proof {
            assert(sidekick.messages() =~= Seq::<Seq<char>>::empty());
        }
        sidekick
    }
}

impl<G: Gadget> Assistant for Sidekick<G> {
    open spec fn loyal(&self) -> bool {
        true
    }

    open spec fn weak_targets(&self) -> Seq<Seq<char>> {
        Seq::empty()
    }

    closed spec fn messages(&self) -> Seq<Seq<char>> {
        Seq::new(self.received@.len(), |i: int| self.received@[i]@)
    }

    fn agree(&self) -> (answer: bool) {
        true
    }

    fn get_weak_targets<G2: Gadget>(&self, _gadget: &G2) -> (targets: Vec<String>) {
        Vec::new()
    }

    fn tell(&mut self, message: &str) {
        self.received.push(message.to_owned());
        proof {
            assert(self.messages() =~= old(self).messages().push(message@));
        }
    }
}

} // verus!
