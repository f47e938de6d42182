use vstd::prelude::*;

use crate::identity::{ActorId, TmgError};
use crate::pet::{PetView, Tamagotchi};

verus! {

/// Identifies an attribute sold by a store.
pub type AttributeId = u32;

/// The requests the pet accepts.
#[derive(Clone, Copy, Debug, PartialEq, Eq)]
pub enum TmgAction {
    Name,
    Age,
    Feed,
    Play,
    Sleep,
    Transfer(ActorId),
    Approve(ActorId),
    RevokeApproval,
    ApproveTokens { account: ActorId, amount: u128 },
    SetFTokenContract(ActorId),
    BuyAttribute { store_id: ActorId, attribute_id: AttributeId },
}

/// The replies the pet can give.
#[derive(Clone, Debug, PartialEq)]
pub enum TmgEvent {
    Name(String),
    Age(u64),
    Fed,
    Entertained,
    Slept,
    Transfer(ActorId),
    Approve(ActorId),
    RevokeApproval,
    ApproveTokens { account: ActorId, amount: u128 },
    ApprovalError,
    SetFTokenContract,
    AttributeBought(AttributeId),
    CompletePrevPurchase(AttributeId),
    ErrorDuringPurchase,
}

/// Requests that only the owner may make.
pub open spec fn owner_only(action: TmgAction) -> bool {
    match action {
        TmgAction::Name | TmgAction::Age | TmgAction::Feed | TmgAction::Play | TmgAction::Sleep => false,
        _ => true,
    }
}

/// The pet after `action`, made at `now`, has succeeded.
pub open spec fn next_view(pet: PetView, now: u64, action: TmgAction) -> PetView {
    match action {
        TmgAction::Feed => pet.fed_at(now),
        TmgAction::Play => pet.played_at(now),
        TmgAction::Sleep => pet.slept_at(now),
        TmgAction::Transfer(id) => PetView { owner: id, ..pet },
        TmgAction::Approve(id) => PetView { allowed_account: Some(id), ..pet },
        TmgAction::RevokeApproval => PetView { allowed_account: None, ..pet },
        TmgAction::SetFTokenContract(id) => PetView { ft_contract_id: Some(id), ..pet },
        _ => pet,
    }
}

/// Carries out one request from `source`, made at `now`, and gives the reply
/// to send, if the request has one. An owner-only request from anyone but the
/// owner is refused and changes nothing.
pub fn handle(pet: &mut Tamagotchi, source: ActorId, now: u64, action: TmgAction) -> (r: Result<
    Option<TmgEvent>,
    TmgError,
>)
    ensures
        r is Err <==> owner_only(action) && source != old(pet)@.owner,
        r is Err ==> r == Err::<Option<TmgEvent>, TmgError>(TmgError::Unauthorized) && final(pet)@
            == old(pet)@,
        r is Ok ==> final(pet)@ == next_view(old(pet)@, now, action),
        r is Ok ==> match action {
            TmgAction::Name => r matches Ok(Some(TmgEvent::Name(n))) && n@ == old(pet)@.name,
            TmgAction::Age => r == Ok::<Option<TmgEvent>, TmgError>(
                Some(TmgEvent::Age(old(pet)@.date_of_birth)),
            ),
            TmgAction::SetFTokenContract(_) => r == Ok::<Option<TmgEvent>, TmgError>(
                Some(TmgEvent::SetFTokenContract),
            ),
            _ => r == Ok::<Option<TmgEvent>, TmgError>(None),
        },
{
    match action {
        TmgAction::Name => Ok(Some(TmgEvent::Name(pet.get_name()))),
        TmgAction::Age => Ok(Some(TmgEvent::Age(pet.get_age()))),
        TmgAction::Feed => {
            pet.feed(now);
            Ok(None)
        },
        TmgAction::Play => {
            pet.play(now);
            Ok(None)
        },
        TmgAction::Sleep => {
            pet.sleep(now);
            Ok(None)
        },
        TmgAction::Transfer(id) => {
            pet.transfer(source, id)?;
            Ok(None)
        },
        TmgAction::Approve(id) => {
            pet.approve(source, id)?;
            Ok(None)
        },
        TmgAction::RevokeApproval => {
            pet.revokeapproval(source)?;
            Ok(None)
        },
        TmgAction::ApproveTokens { account, amount } => {
            pet.approvetokens(source, account, amount)?;
            Ok(None)
        },
        TmgAction::SetFTokenContract(id) => {
            let event = pet.setftokencontract(source, id)?;
            Ok(Some(event))
        },
        TmgAction::BuyAttribute { store_id, attribute_id } => {
            pet.buyattribute(source, store_id, attribute_id)?;
            Ok(None)
        },
    }
}

} // verus!
