//! Laws of the proof-of-existence pallet, stated over the spec functions that the
//! dispatchables' contracts use.
use vstd::prelude::*;
use crate::claim::{Claim, claim_bytes};
use crate::store::{AccountId, BlockNumber, Proof};
use crate::service::{
    NodeSettings, PartialPlan, FullPlan, ServiceError, AuraPlan, GrandpaPlan, plan_partial_spec,
    plan_full_spec,
};
use crate::pallet::{
    Origin, Error, DispatchError, Event, create_claim_result, owner_call_result,
    create_claim_proofs, revoke_claim_proofs, transfer_claim_proofs, create_claim_events,
    revoke_claim_events, Effect, RecordChange, Deposit, create_effect_spec, revoke_effect_spec,
    transfer_effect_spec,
};

verus! {

/// A claim that is not on record can be created by any signed account; afterwards the
/// records name that account as its owner, with the block of creation, and the creation is
/// announced by a `ClaimCreated` event, except in the genesis block, where no event is kept.
pub proof fn lemma_create_then_read(
    proofs: Map<Seq<u8>, Proof>,
    events: Seq<Event>,
    who: AccountId,
    claim: Claim,
    now: BlockNumber,
)
    requires
        !proofs.contains_key(claim_bytes(claim)),
    ensures
        create_claim_result(proofs, Origin::Signed(who), claim_bytes(claim)) == Ok::<(), DispatchError>(()),
        create_claim_proofs(proofs, Origin::Signed(who), claim_bytes(claim), now).contains_key(claim_bytes(claim)),
        create_claim_proofs(proofs, Origin::Signed(who), claim_bytes(claim), now)[claim_bytes(claim)] == (who, now),
        now != 0 ==> create_claim_events(events, proofs, Origin::Signed(who), claim, now)
            == events.push(Event::ClaimCreated(who, claim)),
        now == 0 ==> create_claim_events(events, proofs, Origin::Signed(who), claim, now) == events,
{
}

/// A claim exists at most once: creating a claim that is on record fails with
/// `ProofAlreadyExist`, whoever signs, and the existing record stays as it was.
pub proof fn lemma_claim_is_unique(
    proofs: Map<Seq<u8>, Proof>,
    who: AccountId,
    key: Seq<u8>,
    now: BlockNumber,
)
    requires
        proofs.contains_key(key),
    ensures
        create_claim_result(proofs, Origin::Signed(who), key) == Err::<(), DispatchError>(
            DispatchError::Module(Error::ProofAlreadyExist),
        ),
        create_claim_proofs(proofs, Origin::Signed(who), key, now) == proofs,
{
}

/// A call that fails leaves the records and the event log as they were.
pub proof fn lemma_failed_call_changes_nothing(
    proofs: Map<Seq<u8>, Proof>,
    events: Seq<Event>,
    origin: Origin,
    claim: Claim,
    to: AccountId,
    now: BlockNumber,
)
    ensures
        create_claim_result(proofs, origin, claim_bytes(claim)) is Err ==> {
            &&& create_claim_proofs(proofs, origin, claim_bytes(claim), now) == proofs
            &&& create_claim_events(events, proofs, origin, claim, now) == events
        },
        owner_call_result(proofs, origin, claim_bytes(claim)) is Err ==> {
            &&& revoke_claim_proofs(proofs, origin, claim_bytes(claim)) == proofs
            &&& revoke_claim_events(events, proofs, origin, claim, now) == events
            &&& transfer_claim_proofs(proofs, origin, claim_bytes(claim), to, now) == proofs
        },
{
}

/// Calls that are not signed are refused with `BadOrigin`.
pub proof fn lemma_unsigned_refused(proofs: Map<Seq<u8>, Proof>, origin: Origin, key: Seq<u8>)
    requires
        !(origin is Signed),
    ensures
        create_claim_result(proofs, origin, key) == Err::<(), DispatchError>(DispatchError::BadOrigin),
        owner_call_result(proofs, origin, key) == Err::<(), DispatchError>(DispatchError::BadOrigin),
{
}

/// Only the owner of a claim may revoke it or hand it on: anyone else gets `NotClaimOwner`
/// and the records stay as they were; a claim that is not on record gives `ClaimNotExist`.
pub proof fn lemma_only_owner(
    proofs: Map<Seq<u8>, Proof>,
    who: AccountId,
    key: Seq<u8>,
    to: AccountId,
    now: BlockNumber,
)
    ensures
        !proofs.contains_key(key) ==> owner_call_result(proofs, Origin::Signed(who), key)
            == Err::<(), DispatchError>(DispatchError::Module(Error::ClaimNotExist)),
        proofs.contains_key(key) && proofs[key].0 != who ==> {
            &&& owner_call_result(proofs, Origin::Signed(who), key)
                == Err::<(), DispatchError>(DispatchError::Module(Error::NotClaimOwner))
            &&& revoke_claim_proofs(proofs, Origin::Signed(who), key) == proofs
            &&& transfer_claim_proofs(proofs, Origin::Signed(who), key, to, now) == proofs
        },
        proofs.contains_key(key) && proofs[key].0 == who ==> owner_call_result(
            proofs,
            Origin::Signed(who),
            key,
        ) == Ok::<(), DispatchError>(()),
{
}

/// Revoking undoes creating: when an account creates a claim that was not on record and then
/// revokes it in the same block, both calls succeed, the records are back where they started,
/// and, outside the genesis block, the two events are announced in order.
pub proof fn lemma_revoke_undoes_create(
    proofs: Map<Seq<u8>, Proof>,
    events: Seq<Event>,
    who: AccountId,
    claim: Claim,
    now: BlockNumber,
)
    requires
        !proofs.contains_key(claim_bytes(claim)),
    ensures
        ({
            let key = claim_bytes(claim);
            let after = create_claim_proofs(proofs, Origin::Signed(who), key, now);
            let log = create_claim_events(events, proofs, Origin::Signed(who), claim, now);
            &&& owner_call_result(after, Origin::Signed(who), key) == Ok::<(), DispatchError>(())
            &&& revoke_claim_proofs(after, Origin::Signed(who), key) == proofs
            &&& now != 0 ==> revoke_claim_events(log, after, Origin::Signed(who), claim, now)
                == events.push(Event::ClaimCreated(who, claim)).push(
                Event::ClaimnRevoked(who, claim),
            )
            &&& now == 0 ==> revoke_claim_events(log, after, Origin::Signed(who), claim, now)
                == events
        }),
{
    let key = claim_bytes(claim);
    let after = create_claim_proofs(proofs, Origin::Signed(who), key, now);
    assert(after.remove(key) =~= proofs);
}

/// A transfer hands the claim on: the new owner is on record with the block of the transfer,
/// the new owner may then revoke it, and the previous owner, if another account, no longer
/// may.
pub proof fn lemma_transfer_hands_on(
    proofs: Map<Seq<u8>, Proof>,
    who: AccountId,
    key: Seq<u8>,
    to: AccountId,
    now: BlockNumber,
)
    requires
        owner_call_result(proofs, Origin::Signed(who), key) is Ok,
    ensures
        ({
            let after = transfer_claim_proofs(proofs, Origin::Signed(who), key, to, now);
            &&& after.contains_key(key)
            &&& after[key] == (to, now)
            &&& owner_call_result(after, Origin::Signed(to), key) == Ok::<(), DispatchError>(())
            &&& who != to ==> owner_call_result(after, Origin::Signed(who), key)
                == Err::<(), DispatchError>(DispatchError::Module(Error::NotClaimOwner))
        }),
{
}

/// Each call touches only the record of its own claim: every other claim keeps its record.
pub proof fn lemma_other_claims_untouched(
    proofs: Map<Seq<u8>, Proof>,
    origin: Origin,
    key: Seq<u8>,
    other: Seq<u8>,
    to: AccountId,
    now: BlockNumber,
)
    requires
        other != key,
    ensures
        create_claim_proofs(proofs, origin, key, now).contains_key(other) == proofs.contains_key(other),
        revoke_claim_proofs(proofs, origin, key).contains_key(other) == proofs.contains_key(other),
        transfer_claim_proofs(proofs, origin, key, to, now).contains_key(other) == proofs.contains_key(
            other,
        ),
        proofs.contains_key(other) ==> {
            &&& create_claim_proofs(proofs, origin, key, now)[other] == proofs[other]
            &&& revoke_claim_proofs(proofs, origin, key)[other] == proofs[other]
            &&& transfer_claim_proofs(proofs, origin, key, to, now)[other] == proofs[other]
        },
{
}

/// GRANDPA holds the node's keystore exactly when the node authors blocks: a node that takes
/// no part in consensus needs no keystore.
pub proof fn lemma_keystore_only_for_authorities(s: NodeSettings)
    requires
        !s.keystore_remote,
        !s.disable_grandpa,
    ensures
        plan_full_spec(s) matches Ok(p) && p.grandpa matches Some(g) && g.with_keystore == (
        p.aura is Some),
{
}

/// A node configured with a remote keystore does not start.
pub proof fn lemma_remote_keystore_refused(s: NodeSettings)
    requires
        s.keystore_remote,
    ensures
        plan_partial_spec(s) == Err::<PartialPlan, ServiceError>(ServiceError::RemoteKeystoresUnsupported),
        plan_full_spec(s) == Err::<FullPlan, ServiceError>(ServiceError::RemoteKeystoresUnsupported),
{
}

/// What `create_claim` decides, case by case: an unsigned call is refused with `BadOrigin`; a
/// signed call on a claim already on record is refused with `ProofAlreadyExist`; otherwise the
/// claim is recorded for the signer in the current block, announced by `ClaimCreated` by the
/// signer outside the genesis block.
pub proof fn lemma_create_effect_cases(origin: Origin, on_record: bool, now: BlockNumber)
    ensures
        !(origin is Signed) ==> create_effect_spec(origin, on_record, now)
            == Err::<Effect, DispatchError>(DispatchError::BadOrigin),
        forall|who: AccountId|
            origin == Origin::Signed(who) && on_record ==> create_effect_spec(origin, on_record, now)
                == Err::<Effect, DispatchError>(DispatchError::Module(Error::ProofAlreadyExist)),
        forall|who: AccountId|
            origin == Origin::Signed(who) && !on_record && now != 0 ==> create_effect_spec(
                origin,
                on_record,
                now,
            ) == Ok::<Effect, DispatchError>(
                Effect {
                    change: RecordChange::Insert((who, now)),
                    deposit: Some(Deposit::ClaimCreated(who)),
                },
            ),
        forall|who: AccountId|
            origin == Origin::Signed(who) && !on_record && now == 0 ==> create_effect_spec(
                origin,
                on_record,
                now,
            ) == Ok::<Effect, DispatchError>(
                Effect { change: RecordChange::Insert((who, now)), deposit: None },
            ),
{
}

/// What `revoke_claim` decides, case by case: an unsigned call is refused with `BadOrigin`; a
/// claim not on record gives `ClaimNotExist`; a claim owned by another account gives
/// `NotClaimOwner`; only the owner removes the record, announced by `ClaimnRevoked` by the
/// owner outside the genesis block, whatever block the claim was recorded in.
pub proof fn lemma_revoke_effect_cases(origin: Origin, record: Option<Proof>, now: BlockNumber)
    ensures
        !(origin is Signed) ==> revoke_effect_spec(origin, record, now)
            == Err::<Effect, DispatchError>(DispatchError::BadOrigin),
        forall|who: AccountId|
            origin == Origin::Signed(who) && record is None ==> revoke_effect_spec(origin, record, now)
                == Err::<Effect, DispatchError>(DispatchError::Module(Error::ClaimNotExist)),
        forall|who: AccountId, p: Proof|
            origin == Origin::Signed(who) && record == Some(p) && p.0 != who ==> revoke_effect_spec(
                origin,
                record,
                now,
            ) == Err::<Effect, DispatchError>(DispatchError::Module(Error::NotClaimOwner)),
        forall|who: AccountId, p: Proof|
            origin == Origin::Signed(who) && record == Some(p) && p.0 == who && now != 0
                ==> revoke_effect_spec(origin, record, now) == Ok::<Effect, DispatchError>(
                Effect { change: RecordChange::Remove, deposit: Some(Deposit::ClaimnRevoked(who)) },
            ),
        forall|who: AccountId, p: Proof|
            origin == Origin::Signed(who) && record == Some(p) && p.0 == who && now == 0
                ==> revoke_effect_spec(origin, record, now) == Ok::<Effect, DispatchError>(
                Effect { change: RecordChange::Remove, deposit: None },
            ),
{
}

/// What `transfer_claim` decides, case by case: an unsigned call is refused with `BadOrigin`; a
/// claim not on record gives `ClaimNotExist`; a claim owned by another account gives
/// `NotClaimOwner`; only the owner hands the claim on, recorded for `to` in the current block,
/// with no event.
pub proof fn lemma_transfer_effect_cases(
    origin: Origin,
    record: Option<Proof>,
    to: AccountId,
    now: BlockNumber,
)
    ensures
        transfer_effect_spec(origin, record, to, now) is Ok ==> exists|who: AccountId, p: Proof|
            origin == Origin::Signed(who) && record == Some(p) && p.0 == who,
        !(origin is Signed) ==> transfer_effect_spec(origin, record, to, now)
            == Err::<Effect, DispatchError>(DispatchError::BadOrigin),
        forall|who: AccountId|
            origin == Origin::Signed(who) && record is None ==> transfer_effect_spec(
                origin,
                record,
                to,
                now,
            ) == Err::<Effect, DispatchError>(DispatchError::Module(Error::ClaimNotExist)),
        forall|who: AccountId, p: Proof|
            origin == Origin::Signed(who) && record == Some(p) && p.0 != who ==> transfer_effect_spec(
                origin,
                record,
                to,
                now,
            ) == Err::<Effect, DispatchError>(DispatchError::Module(Error::NotClaimOwner)),
        forall|who: AccountId, p: Proof|
            origin == Origin::Signed(who) && record == Some(p) && p.0 == who ==> transfer_effect_spec(
                origin,
                record,
                to,
                now,
            ) == Ok::<Effect, DispatchError>(
                Effect { change: RecordChange::Insert((to, now)), deposit: None },
            ),
{
    if transfer_effect_spec(origin, record, to, now) is Ok {
        let who = origin->Signed_0;
        let p = record->Some_0;
        assert(origin == Origin::Signed(who) && record == Some(p) && p.0 == who);
    }
}

/// The owner's revocation outside the genesis block is always announced by exactly one
/// `ClaimnRevoked` event naming the owner and the claim, whatever block the claim was
/// recorded in; the owner's creation of a new claim likewise by one `ClaimCreated` event.
pub proof fn lemma_events_announced(
    proofs: Map<Seq<u8>, Proof>,
    events: Seq<Event>,
    who: AccountId,
    claim: Claim,
    now: BlockNumber,
)
    requires
        now != 0,
    ensures
        proofs.contains_key(claim_bytes(claim)) && proofs[claim_bytes(claim)].0 == who
            ==> revoke_claim_events(events, proofs, Origin::Signed(who), claim, now) == events.push(
            Event::ClaimnRevoked(who, claim),
        ),
        !proofs.contains_key(claim_bytes(claim)) ==> create_claim_events(
            events,
            proofs,
            Origin::Signed(who),
            claim,
            now,
        ) == events.push(Event::ClaimCreated(who, claim)),
{
}

/// The first stage of start-up runs telemetry, with a buffer of 16 messages, exactly when
/// endpoints are configured and the list is not empty, whatever the node's role; the
/// transaction pool validates exactly on an authority.
pub proof fn lemma_partial_plan(s: NodeSettings)
    requires
        !s.keystore_remote,
    ensures
        plan_partial_spec(s) == Ok::<PartialPlan, ServiceError>(
            PartialPlan {
                telemetry_buffer: if s.telemetry_endpoints_set && !s.telemetry_endpoints_empty {
                    Some(16usize)
                } else {
                    None
                },
                pool_is_validator: s.is_authority,
            },
        ),
{
}

/// A full node runs offchain workers exactly when they are enabled; it authors blocks exactly
/// when it is an authority, with the configured `force_authoring` flag; and unless GRANDPA is
/// disabled it runs the full GRANDPA voter (never the observer protocol), gossiping every
/// 333 ms with a justification every 512 blocks, holding the keystore only on an authority.
pub proof fn lemma_full_plan(s: NodeSettings)
    requires
        !s.keystore_remote,
    ensures
        plan_full_spec(s) matches Ok(p) && {
            &&& Ok::<PartialPlan, ServiceError>(p.partial) == plan_partial_spec(s)
            &&& p.offchain_workers == s.offchain_worker_enabled
            &&& s.is_authority ==> p.aura == Some(AuraPlan { force_authoring: s.force_authoring })
            &&& !s.is_authority ==> p.aura is None
            &&& s.disable_grandpa ==> p.grandpa is None
            &&& !s.disable_grandpa ==> p.grandpa == Some(
                GrandpaPlan {
                    gossip_duration_ms: 333u64,
                    justification_period: 512u32,
                    observer_enabled: false,
                    with_keystore: s.is_authority,
                },
            )
        },
{
}

} // verus!
