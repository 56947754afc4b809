//! The subordinate agent that carries out fire-and-forget commands.

use vstd::prelude::*;

verus! {

/// One command accepted by a henchman, in the order it was given.
pub enum Command {
    BuildBase(Seq<char>),
    FightEnemies,
    DoHardThings,
}

/// A subordinate agent. `commands` is the ordered history of everything the
/// agent has been told to do; each operation appends exactly one entry, so
/// contracts over `commands` pin down both counts and ordering.
pub trait Henchman: Sized {
    spec fn commands(&self) -> Seq<Command>;

    fn build_secret_hq(&mut self, location: String)
        ensures
            final(self).commands() == old(self).commands().push(
                Command::BuildBase(location@),
            ),
    ;

    fn fight_enemies(&mut self)
        ensures
            final(self).commands() == old(self).commands().push(Command::FightEnemies),
    ;

    fn do_hard_things(&mut self)
        ensures
            final(self).commands() == old(self).commands().push(Command::DoHardThings),
    ;
}

} // verus!
