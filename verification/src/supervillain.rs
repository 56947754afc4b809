//! The principal villain and its staged orchestration operations.

use crate::cipher::Cipher;
use crate::gadget::Gadget;
use crate::henchman::Command;
use crate::henchman::Henchman;
use crate::sidekick::Assistant;
use crate::tokens::tokens_of;
use crate::tokens::split_tokens;
use vstd::prelude::*;
use vstd::string::*;

verus! {

/// A villain: a two-token identity, an optional owned assistant, and the
/// key shared with whoever receives its ciphered plans.
pub struct SuperVillain<S: Assistant> {
    pub first_name: String,
    pub last_name: String,
    pub sidekick: Option<S>,
    pub shared_key: String,
}

/// A recoverable domain error: what failed (`purpose`) and why (`reason`).
#[derive(Debug)]
pub enum EvilError {
    ParseError { purpose: String, reason: String },
}

/// A weapon capability. `shots` counts the discharges so far; each `shoot`
/// adds exactly one.
pub trait MegaWeapon: Sized {
    spec fn shots(&self) -> nat;

    fn shoot(&mut self)
        ensures
            final(self).shots() == old(self).shots() + 1,
    ;
}

/// Relies on rand: `rand::rng` hands out the thread-local generator, and
/// `RngExt::random_range` over the non-empty range `1..3` returns a
/// uniformly drawn integer that is 1 or 2.
#[verifier::external_body]
fn draw_extra_shots() -> (n: u32)
    ensures
        1 <= n <= 2,
{
    rand::RngExt::random_range(&mut rand::rng(), 1u32..3u32)
}

impl<S: Assistant> SuperVillain<S> {
    /// The villain's full name: first name, one space, last name.
    pub fn full_name(&self) -> (name: String)
        ensures
            name@ == self.first_name@ + seq![' '] + self.last_name@,
    {
        let mut name = self.first_name.clone();
        name.append(" ");
        name.append(self.last_name.as_str());
        proof {
            reveal_strlit(" ");
            assert(" "@ =~= seq![' ']);
        }
        name
    }

    /// Replaces the villain's identity with the exactly two whitespace
    /// tokens of `name`. A caller must not pass anything else: with any
    /// other token count the operation has no defined outcome, unlike
    /// `try_from`, which accepts extra tokens.
    pub fn set_full_name(&mut self, name: &str)
        requires
            tokens_of(name@).len() == 2,
        ensures
            final(self).first_name@ == tokens_of(name@)[0],
            final(self).last_name@ == tokens_of(name@)[1],
            final(self).sidekick == old(self).sidekick,
            final(self).shared_key == old(self).shared_key,
    {
        let components = split_tokens(name);
        self.first_name = components[0].clone();
        self.last_name = components[1].clone();
    }

    /// Parses an identity string into a fresh villain: at least two
    /// whitespace tokens are required, the first two become the name and
    /// any further ones are ignored; with fewer the parse error reports
    /// its purpose and reason.
    pub fn try_from(name: &str) -> (result: Result<SuperVillain<S>, EvilError>)
        ensures
            tokens_of(name@).len() >= 2 ==> (result matches Ok(v)
                && v.first_name@ == tokens_of(name@)[0]
                && v.last_name@ == tokens_of(name@)[1]
                && v.sidekick is None
                && v.shared_key@ == Seq::<char>::empty()),
            tokens_of(name@).len() < 2 ==> (result matches Err(e)
                && (e matches EvilError::ParseError { purpose, reason }
                    && purpose@ == "full_name"@
                    && reason@ == "Too few arguments"@)),
    {
        let components = split_tokens(name);
        if components.len() < 2 {
            Err(
                EvilError::ParseError {
                    purpose: "full_name".to_owned(),
                    reason: "Too few arguments".to_owned(),
                },
            )
        } else {
            Ok(
                SuperVillain {
                    first_name: components[0].clone(),
                    last_name: components[1].clone(),
                    sidekick: None,
                    shared_key: String::new(),
                },
            )
        }
    }

    /// Discharges the weapon once, and, for an intense attack, a further
    /// randomly drawn one or two times: one shot in all, or two or three.
    pub fn attack<W: MegaWeapon>(&self, weapon: &mut W, intense: bool)
        ensures
            !intense ==> final(weapon).shots() == old(weapon).shots() + 1,
            intense ==> old(weapon).shots() + 2 <= final(weapon).shots() <= old(weapon).shots()
                + 3,
    {
        weapon.shoot();
        if intense {
            let extra = draw_extra_shots();
            let mut fired: u32 = 0;
            while fired < extra
                invariant
                    extra <= 2,
                    fired <= extra,
                    weapon.shots() == old(weapon).shots() + 1 + fired,
                decreases extra - fired,
            {
                weapon.shoot();
                fired = fired + 1;
            }
        }
    }

    /// The villain's plan, which never varies.
    pub fn plan_message(&self) -> (plan: String)
        ensures
            plan@ == "Take over the world!"@,
    {
        "Take over the world!".to_owned()
    }

    /// Checks the assistant's loyalty, once, and lets a disloyal one go:
    /// afterwards a loyal assistant is still attached, a disloyal one is
    /// gone, and a villain without one is left unchanged.
    pub fn conspire(&mut self)
        ensures
            final(self).first_name == old(self).first_name,
            final(self).last_name == old(self).last_name,
            final(self).shared_key == old(self).shared_key,
            old(self).sidekick is None ==> final(self).sidekick is None,
            (old(self).sidekick matches Some(sk) && sk.loyal()) ==> final(self).sidekick == old(
                self,
            ).sidekick,
            (old(self).sidekick matches Some(sk) && !sk.loyal()) ==> final(self).sidekick
                is None,
    {
        let disloyal = match &self.sidekick {
            Some(sidekick) => !sidekick.agree(),
            None => false,
        };
        if disloyal {
            self.sidekick = None;
        }
    }

    /// Asks the assistant, if any, for its weak targets and has the
    /// henchman build a secret base at the first one; with no assistant or
    /// no targets the henchman is given nothing.
    pub fn start_world_domination_stage1<H: Henchman, G: Gadget>(
        &self,
        henchman: &mut H,
        gadget: &G,
    )
        ensures
            self.sidekick is None ==> final(henchman).commands() == old(henchman).commands(),
            (self.sidekick matches Some(sk) && sk.weak_targets().len() == 0)
                ==> final(henchman).commands() == old(henchman).commands(),
            self.sidekick matches Some(sk) ==> (sk.weak_targets().len() > 0
                ==> final(henchman).commands() == old(henchman).commands().push(
                Command::BuildBase(sk.weak_targets()[0]),
            )),
    {
        if let Some(sidekick) = &self.sidekick {
            let targets = sidekick.get_weak_targets(gadget);
            if targets.len() > 0 {
                henchman.build_secret_hq(targets[0].clone());
            }
        }
    }

    /// Sends the henchman to fight enemies and then to do the hard things:
    /// both exactly once, in that order.
    pub fn start_world_domination_stage2<H: Henchman>(&self, henchman: &mut H)
        ensures
            final(henchman).commands() == old(henchman).commands().push(
                Command::FightEnemies,
            ).push(Command::DoHardThings),
    {
        henchman.fight_enemies();
        henchman.do_hard_things();
    }

    /// Ciphers `secret` with the shared key and relays the ciphertext — and
    /// only the ciphertext — to the assistant, if one is attached; a
    /// villain without an assistant relays nothing and is left unchanged.
    pub fn tell_plans<C: Cipher>(&mut self, secret: &str, cipher: &C)
        ensures
            final(self).first_name == old(self).first_name,
            final(self).last_name == old(self).last_name,
            final(self).shared_key == old(self).shared_key,
            old(self).sidekick is None ==> *final(self) == *old(self),
            old(self).sidekick matches Some(sk) ==> (final(self).sidekick matches Some(after)
                && after.messages() == sk.messages().push(
                    cipher.spec_transform(secret@, old(self).shared_key@),
                )
                && after.loyal() == sk.loyal()
                && after.weak_targets() == sk.weak_targets()),
    {
        match &mut self.sidekick {
            Some(sidekick) => {
                let ciphered_message = cipher.transform(secret, self.shared_key.as_str());
                sidekick.tell(ciphered_message.as_str());
            },
            None => {},
        }
    }
}

/// The relay never hands out the plaintext. `tell_plans` ensures that the
/// assistant's received messages grow by exactly the ciphertext; whenever
/// that ciphertext differs from the secret, a history that did not contain
/// the secret still does not contain it afterwards.
pub proof fn lemma_tell_plans_never_relays_secret(
    before: Seq<Seq<char>>,
    after: Seq<Seq<char>>,
    ciphertext: Seq<char>,
    secret: Seq<char>,
)
    requires
        after == before.push(ciphertext),
        ciphertext != secret,
        !before.contains(secret),
    ensures
        !after.contains(secret),
{
    assert forall|i: int| 0 <= i < after.len() implies after[i] != secret by {
        if i < before.len() {
            assert(after[i] == before[i]);
            assert(!(exists|j: int| 0 <= j < before.len() && before[j] == secret));
        } else {
            assert(after[i] == ciphertext);
        }
    }
}

} // verus!
