use vstd::prelude::*;

use crate::action::{AttributeId, TmgEvent};
use crate::identity::{require_owner, ActorId, TmgError};
use crate::ledger::{after_decay, apply_decay_and_refill, decay_refill};

verus! {

/// How much satiation is lost per tick.
pub const HUNGER_PER_BLOCK: u64 = 1;

/// How much energy is lost per tick; sleeping does not apply it yet.
pub const ENERGY_PER_BLOCK: u64 = 2;

/// How much happiness is lost per tick.
pub const BOREDOM_PER_BLOCK: u64 = 2;

/// How much energy one sleep restores; sleeping does not apply it yet.
pub const FILL_PER_SLEEP: u64 = 1000;

/// How much satiation one feeding restores.
pub const FILL_PER_FEED: u64 = 1000;

/// How much happiness one play session restores.
pub const FILL_PER_ENTERTAINMENT: u64 = 1000;

/// The value every vital starts at.
pub const FULL: u64 = 10000;

/// The pet: its identity, its three vitals with their update stamps, and the
/// identities that control it.
pub struct Tamagotchi {
    name: String,
    date_of_birth: u64,
    pub owner: ActorId,
    pub fed: u64,
    pub fed_block: u64,
    pub entertained: u64,
    pub entertained_block: u64,
    pub rested: u64,
    pub rested_block: u64,
    pub allowed_account: Option<ActorId>,
    pub ft_contract_id: Option<ActorId>,
}

/// The pet as a mathematical value.
pub struct PetView {
    pub name: Seq<char>,
    pub date_of_birth: u64,
    pub owner: ActorId,
    pub fed: u64,
    pub fed_block: u64,
    pub entertained: u64,
    pub entertained_block: u64,
    pub rested: u64,
    pub rested_block: u64,
    pub allowed_account: Option<ActorId>,
    pub ft_contract_id: Option<ActorId>,
}

impl PetView {
    /// The pet after a feeding at `now`.
    pub open spec fn fed_at(self, now: u64) -> PetView {
        let (v, t) = decay_refill(self.fed, self.fed_block, now, HUNGER_PER_BLOCK, FILL_PER_FEED);
        PetView { fed: v, fed_block: t, ..self }
    }

    /// The pet after a play session at `now`.
    pub open spec fn played_at(self, now: u64) -> PetView {
        let (v, t) = decay_refill(
            self.entertained,
            self.entertained_block,
            now,
            BOREDOM_PER_BLOCK,
            FILL_PER_ENTERTAINMENT,
        );
        PetView { entertained: v, entertained_block: t, ..self }
    }

    /// The pet after sleeping at `now`: energy is neither decayed nor refilled
    /// yet, only its stamp moves forward.
    pub open spec fn slept_at(self, now: u64) -> PetView {
        let (v, t) = decay_refill(self.rested, self.rested_block, now, 0, 0);
        PetView { rested: v, rested_block: t, ..self }
    }
}

impl View for Tamagotchi {
    type V = PetView;

    closed spec fn view(&self) -> PetView {
        PetView {
            name: self.name@,
            date_of_birth: self.date_of_birth,
            owner: self.owner,
            fed: self.fed,
            fed_block: self.fed_block,
            entertained: self.entertained,
            entertained_block: self.entertained_block,
            rested: self.rested,
            rested_block: self.rested_block,
            allowed_account: self.allowed_account,
            ft_contract_id: self.ft_contract_id,
        }
    }
}

impl Tamagotchi {
    /// A new pet named `name`, born at `date_of_birth`, owned by `creator`, who is
    /// also its first approved delegate. All vitals start full, stamped at birth.
    pub fn new(name: String, date_of_birth: u64, creator: ActorId) -> (r: Tamagotchi)
        ensures
            r@ == (PetView {
                name: name@,
                date_of_birth,
                owner: creator,
                fed: FULL,
                fed_block: date_of_birth,
                entertained: FULL,
                entertained_block: date_of_birth,
                rested: FULL,
                rested_block: date_of_birth,
                allowed_account: Some(creator),
                ft_contract_id: None,
            }),
    {
        Tamagotchi {
            name,
            date_of_birth,
            owner: creator,
            fed: FULL,
            fed_block: date_of_birth,
            entertained: FULL,
            entertained_block: date_of_birth,
            rested: FULL,
            rested_block: date_of_birth,
            allowed_account: Some(creator),
            ft_contract_id: None,
        }
    }

    /// The pet's name.
    pub fn get_name(&self) -> (r: String)
        ensures
            r@ == self@.name,
    {
        self.name.clone()
    }

    /// The pet's creation timestamp.
    pub fn get_age(&self) -> (r: u64)
        ensures
            r == self@.date_of_birth,
    {
        self.date_of_birth
    }

    /// Anyone may feed the pet: satiation decays for the ticks since it was last
    /// updated, then one feeding is added. A timestamp equal to or older than the
    /// last update changes nothing, so a second feeding at one timestamp is void.
    pub fn feed(&mut self, now: u64)
        ensures
            final(self)@ == old(self)@.fed_at(now),
            now <= old(self)@.fed_block ==> final(self)@ == old(self)@,
            old(self)@.fed_block <= now ==> final(self)@.fed <= after_decay(
                old(self)@.fed,
                now - old(self)@.fed_block,
                HUNGER_PER_BLOCK,
            ) + FILL_PER_FEED,
    {
        let (v, t) = apply_decay_and_refill(
            self.fed,
            self.fed_block,
            now,
            HUNGER_PER_BLOCK,
            FILL_PER_FEED,
        );
        self.fed = v;
        self.fed_block = t;
    }

    /// Anyone may play with the pet: happiness decays for the ticks since it was
    /// last updated, then one session is added. A timestamp equal to or older than
    /// the last update changes nothing, so a second session at one timestamp is
    /// void.
    pub fn play(&mut self, now: u64)
        ensures
            final(self)@ == old(self)@.played_at(now),
            now <= old(self)@.entertained_block ==> final(self)@ == old(self)@,
    {
        let (v, t) = apply_decay_and_refill(
            self.entertained,
            self.entertained_block,
            now,
            BOREDOM_PER_BLOCK,
            FILL_PER_ENTERTAINMENT,
        );
        self.entertained = v;
        self.entertained_block = t;
    }

    /// Anyone may put the pet to sleep. Energy is not decayed or refilled yet;
    /// only its stamp moves forward. A timestamp equal to or older than the last
    /// update changes nothing.
    pub fn sleep(&mut self, now: u64)
        ensures
            final(self)@ == old(self)@.slept_at(now),
            final(self)@.rested == old(self)@.rested,
            now <= old(self)@.rested_block ==> final(self)@ == old(self)@,
    {
        let (v, t) = apply_decay_and_refill(self.rested, self.rested_block, now, 0, 0);
        self.rested = v;
        self.rested_block = t;
    }
    /// The owner hands the pet to `actorid`. Anyone else is refused and nothing
    /// changes.
    pub fn transfer(&mut self, source: ActorId, actorid: ActorId) -> (r: Result<(), TmgError>)
        ensures
            r is Ok <==> source == old(self)@.owner,
            r is Ok ==> final(self)@ == (PetView { owner: actorid, ..old(self)@ }),
            r is Err ==> r == Err::<(), TmgError>(TmgError::Unauthorized) && final(self)@ == old(
                self,
            )@,
    {
        require_owner(source, self.owner)?;
        self.owner = actorid;
        Ok(())
    }

    /// The owner names `actorid` as the approved delegate, replacing any earlier
    /// one. Anyone else is refused and nothing changes.
    pub fn approve(&mut self, source: ActorId, actorid: ActorId) -> (r: Result<(), TmgError>)
        ensures
            r is Ok <==> source == old(self)@.owner,
            r is Ok ==> final(self)@ == (PetView { allowed_account: Some(actorid), ..old(self)@ }),
            r is Err ==> r == Err::<(), TmgError>(TmgError::Unauthorized) && final(self)@ == old(
                self,
            )@,
    {
        require_owner(source, self.owner)?;
        self.allowed_account = Some(actorid);
        Ok(())
    }

    /// The owner clears the approved delegate. Anyone else is refused and nothing
    /// changes.
    pub fn revokeapproval(&mut self, source: ActorId) -> (r: Result<(), TmgError>)
        ensures
            r is Ok <==> source == old(self)@.owner,
            r is Ok ==> final(self)@ == (PetView { allowed_account: None, ..old(self)@ }),
            r is Err ==> r == Err::<(), TmgError>(TmgError::Unauthorized) && final(self)@ == old(
                self,
            )@,
    {
        require_owner(source, self.owner)?;
        self.allowed_account = None;
        Ok(())
    }

    /// The owner asks for `account` to be allowed `amount` tokens of the linked
    /// token contract. Not implemented yet: after the owner check nothing is sent
    /// and nothing changes.
    pub fn approvetokens(&mut self, source: ActorId, account: ActorId, amount: u128) -> (r: Result<
        (),
        TmgError,
    >)
        ensures
            r is Ok <==> source == old(self)@.owner,
            r is Err ==> r == Err::<(), TmgError>(TmgError::Unauthorized),
            final(self)@ == old(self)@,
    {
        require_owner(source, self.owner)?;
        Ok(())
    }

    /// The owner links the token contract `actorid`, replacing any earlier one,
    /// and gets a confirmation. Anyone else is refused and nothing changes.
    pub fn setftokencontract(&mut self, source: ActorId, actorid: ActorId) -> (r: Result<
        TmgEvent,
        TmgError,
    >)
        ensures
            r is Ok <==> source == old(self)@.owner,
            r is Ok ==> r == Ok::<TmgEvent, TmgError>(TmgEvent::SetFTokenContract) && final(self)@
                == (PetView { ft_contract_id: Some(actorid), ..old(self)@ }),
            r is Err ==> r == Err::<TmgEvent, TmgError>(TmgError::Unauthorized) && final(self)@
                == old(self)@,
    {
        require_owner(source, self.owner)?;
        self.ft_contract_id = Some(actorid);
        Ok(TmgEvent::SetFTokenContract)
    }

    /// The owner asks the store `store_id` for the attribute `attribute_id`. Not
    /// implemented yet: after the owner check nothing is sent and nothing changes.
    pub fn buyattribute(&mut self, source: ActorId, store_id: ActorId, attribute_id: AttributeId) -> (r:
        Result<(), TmgError>)
        ensures
            r is Ok <==> source == old(self)@.owner,
            r is Err ==> r == Err::<(), TmgError>(TmgError::Unauthorized),
            final(self)@ == old(self)@,
    {
        require_owner(source, self.owner)?;
        Ok(())
    }
}

} // verus!
