//! The proof-of-existence pallet: accounts record claims, revoke them, and hand them on.
use vstd::prelude::*;
use crate::claim::{Claim, MAX_CLAIM_LENGTH, claim_bytes, bounded_try_from, bounded_clone};
use crate::store::{AccountId, BlockNumber, Proof, ProofStore};

verus! {

/// Who dispatched a call.
#[derive(Debug, Clone, Copy, PartialEq, Eq)]
pub enum Origin {
    /// The system itself.
    Root,
    /// A transaction signed by the given account.
    Signed(AccountId),
    /// An unsigned transaction (FRAME's `RawOrigin::None`).
    Unsigned,
}

/// The pallet's own errors.
#[derive(Debug, Clone, Copy, PartialEq, Eq)]
pub enum Error {
    /// The claim is already on record.
    ProofAlreadyExist,
    /// The claim is longer than `MAX_CLAIM_LENGTH` bytes.
    ClaimTooLong,
    /// The claim is not on record.
    ClaimNotExist,
    /// The sender does not own the claim.
    NotClaimOwner,
}

/// Why a dispatched call failed.
#[derive(Debug, Clone, Copy, PartialEq, Eq)]
pub enum DispatchError {
    /// The call needs a signed origin and did not get one.
    BadOrigin,
    /// The pallet refused the call.
    Module(Error),
}

/// What a dispatched call returns.
pub type DispatchResult = Result<(), DispatchError>;

/// What the pallet reports.
#[derive(Debug, PartialEq, Eq)]
pub enum Event {
    /// The account recorded the claim.
    ClaimCreated(AccountId, Claim),
    /// The account revoked the claim.
    ClaimnRevoked(AccountId, Claim),
}

/// The account that signed `origin`, when it is signed.
pub open spec fn signer(origin: Origin) -> AccountId {
    match origin {
        Origin::Signed(who) => who,
        _ => 0,
    }
}

/// Checks that `origin` is a signed transaction and gives back its signer.
pub fn ensure_signed(origin: Origin) -> (r: Result<AccountId, DispatchError>)
    ensures
        r == (match origin {
            Origin::Signed(who) => Ok(who),
            _ => Err(DispatchError::BadOrigin),
        }),
{
    match origin {
        Origin::Signed(who) => Ok(who),
        _ => Err(DispatchError::BadOrigin),
    }
}

/// Makes a claim of `bytes`; refuses a byte string longer than `MAX_CLAIM_LENGTH`.
pub fn new_claim(bytes: Vec<u8>) -> (r: Result<Claim, Error>)
    ensures
        r is Ok <==> bytes@.len() <= MAX_CLAIM_LENGTH,
        r matches Ok(c) ==> claim_bytes(c) == bytes@,
        r matches Err(e) ==> e == Error::ClaimTooLong,
{
    match bounded_try_from(bytes) {
        Ok(c) => Ok(c),
        Err(_) => Err(Error::ClaimTooLong),
    }
}

/// The record of `key` in `proofs`, if it is on record.
pub open spec fn record_of(proofs: Map<Seq<u8>, Proof>, key: Seq<u8>) -> Option<Proof> {
    if proofs.contains_key(key) {
        Some(proofs[key])
    } else {
        None
    }
}

/// The outcome of a decision, without the account it names.
pub open spec fn unit_result(r: Result<AccountId, DispatchError>) -> DispatchResult {
    match r {
        Ok(_) => Ok(()),
        Err(e) => Err(e),
    }
}

/// The decision on `create_claim`: a signed account may record a claim that is not yet on
/// record, and becomes its owner.
pub open spec fn create_decision(origin: Origin, on_record: bool) -> Result<AccountId, DispatchError> {
    match origin {
        Origin::Signed(who) => if on_record {
            Err(DispatchError::Module(Error::ProofAlreadyExist))
        } else {
            Ok(who)
        },
        _ => Err(DispatchError::BadOrigin),
    }
}

/// The decision on `revoke_claim` and `transfer_claim`, from the claim's record: only the
/// owner of a claim on record may go on.
pub open spec fn owner_decision(origin: Origin, record: Option<Proof>) -> Result<
    AccountId,
    DispatchError,
> {
    match origin {
        Origin::Signed(who) => match record {
            None => Err(DispatchError::Module(Error::ClaimNotExist)),
            Some(proof) => if proof.0 != who {
                Err(DispatchError::Module(Error::NotClaimOwner))
            } else {
                Ok(who)
            },
        },
        _ => Err(DispatchError::BadOrigin),
    }
}

/// Decides `create_claim`, given whether the claim is on record: the account to record as
/// owner, or why the call fails.
pub fn decide_create(origin: Origin, on_record: bool) -> (r: Result<AccountId, DispatchError>)
    ensures
        r == create_decision(origin, on_record),
{
    let sender = match ensure_signed(origin) {
        Ok(who) => who,
        Err(e) => return Err(e),
    };
    if on_record {
        return Err(DispatchError::Module(Error::ProofAlreadyExist));
    }
    Ok(sender)
}

/// Decides `revoke_claim` and `transfer_claim`, given the claim's record: the sender, who
/// owns the claim, or why the call fails.
pub fn decide_owner_call(origin: Origin, record: Option<Proof>) -> (r: Result<
    AccountId,
    DispatchError,
>)
    ensures
        r == owner_decision(origin, record),
{
    let sender = match ensure_signed(origin) {
        Ok(who) => who,
        Err(e) => return Err(e),
    };
    let owner = match record {
        Some((owner, _)) => owner,
        None => return Err(DispatchError::Module(Error::ClaimNotExist)),
    };
    if owner != sender {
        return Err(DispatchError::Module(Error::NotClaimOwner));
    }
    Ok(sender)
}

/// How `create_claim` ends on the records `proofs`.
pub open spec fn create_claim_result(
    proofs: Map<Seq<u8>, Proof>,
    origin: Origin,
    key: Seq<u8>,
) -> DispatchResult {
    unit_result(create_decision(origin, proofs.contains_key(key)))
}

/// How `revoke_claim` and `transfer_claim` end on the records `proofs`.
pub open spec fn owner_call_result(
    proofs: Map<Seq<u8>, Proof>,
    origin: Origin,
    key: Seq<u8>,
) -> DispatchResult {
    unit_result(owner_decision(origin, record_of(proofs, key)))
}

/// The records after `create_claim` in block `now`.
pub open spec fn create_claim_proofs(
    proofs: Map<Seq<u8>, Proof>,
    origin: Origin,
    key: Seq<u8>,
    now: BlockNumber,
) -> Map<Seq<u8>, Proof> {
    if create_claim_result(proofs, origin, key) is Ok {
        proofs.insert(key, (signer(origin), now))
    } else {
        proofs
    }
}

/// The records after `revoke_claim`.
pub open spec fn revoke_claim_proofs(
    proofs: Map<Seq<u8>, Proof>,
    origin: Origin,
    key: Seq<u8>,
) -> Map<Seq<u8>, Proof> {
    if owner_call_result(proofs, origin, key) is Ok {
        proofs.remove(key)
    } else {
        proofs
    }
}

/// The records after `transfer_claim` to `to` in block `now`.
pub open spec fn transfer_claim_proofs(
    proofs: Map<Seq<u8>, Proof>,
    origin: Origin,
    key: Seq<u8>,
    to: AccountId,
    now: BlockNumber,
) -> Map<Seq<u8>, Proof> {
    if owner_call_result(proofs, origin, key) is Ok {
        proofs.insert(key, (to, now))
    } else {
        proofs
    }
}

/// The event log after `create_claim` in block `now`. As in FRAME, no event is recorded in
/// the genesis block (block 0).
pub open spec fn create_claim_events(
    events: Seq<Event>,
    proofs: Map<Seq<u8>, Proof>,
    origin: Origin,
    claim: Claim,
    now: BlockNumber,
) -> Seq<Event> {
    if create_claim_result(proofs, origin, claim_bytes(claim)) is Ok && now != 0 {
        events.push(Event::ClaimCreated(signer(origin), claim))
    } else {
        events
    }
}

/// The event log after `revoke_claim` in block `now`; no event is recorded in block 0.
pub open spec fn revoke_claim_events(
    events: Seq<Event>,
    proofs: Map<Seq<u8>, Proof>,
    origin: Origin,
    claim: Claim,
    now: BlockNumber,
) -> Seq<Event> {
    if owner_call_result(proofs, origin, claim_bytes(claim)) is Ok && now != 0 {
        events.push(Event::ClaimnRevoked(signer(origin), claim))
    } else {
        events
    }
}

/// How a successful call changes the record of its claim.
#[derive(Debug, Clone, Copy, PartialEq, Eq)]
pub enum RecordChange {
    /// The claim is recorded with this owner and block.
    Insert(Proof),
    /// The claim's record is removed.
    Remove,
}

/// An event that a successful call deposits; it names the call's claim.
#[derive(Debug, Clone, Copy, PartialEq, Eq)]
pub enum Deposit {
    /// `Event::ClaimCreated` by this account.
    ClaimCreated(AccountId),
    /// `Event::ClaimnRevoked` by this account.
    ClaimnRevoked(AccountId),
}

/// What a successful call does: the change to its claim's record, and the event to deposit.
#[derive(Debug, Clone, Copy, PartialEq, Eq)]
pub struct Effect {
    /// The change to the record of the claim.
    pub change: RecordChange,
    /// The event to deposit, if any.
    pub deposit: Option<Deposit>,
}

/// The event to deposit in block `now`: none in the genesis block.
pub open spec fn deposit_in(now: BlockNumber, d: Deposit) -> Option<Deposit> {
    if now == 0 {
        None
    } else {
        Some(d)
    }
}

/// What `create_claim` does in block `now`, given whether the claim is on record.
pub open spec fn create_effect_spec(origin: Origin, on_record: bool, now: BlockNumber) -> Result<
    Effect,
    DispatchError,
> {
    match create_decision(origin, on_record) {
        Ok(who) => Ok(
            Effect {
                change: RecordChange::Insert((who, now)),
                deposit: deposit_in(now, Deposit::ClaimCreated(who)),
            },
        ),
        Err(e) => Err(e),
    }
}

/// What `revoke_claim` does in block `now`, given the claim's record.
pub open spec fn revoke_effect_spec(origin: Origin, record: Option<Proof>, now: BlockNumber) -> Result<
    Effect,
    DispatchError,
> {
    match owner_decision(origin, record) {
        Ok(who) => Ok(
            Effect {
                change: RecordChange::Remove,
                deposit: deposit_in(now, Deposit::ClaimnRevoked(who)),
            },
        ),
        Err(e) => Err(e),
    }
}

/// What `transfer_claim` to `to` does in block `now`, given the claim's record.
pub open spec fn transfer_effect_spec(
    origin: Origin,
    record: Option<Proof>,
    to: AccountId,
    now: BlockNumber,
) -> Result<Effect, DispatchError> {
    match owner_decision(origin, record) {
        Ok(_) => Ok(Effect { change: RecordChange::Insert((to, now)), deposit: None }),
        Err(e) => Err(e),
    }
}

fn deposit_for(now: BlockNumber, d: Deposit) -> (r: Option<Deposit>)
    ensures
        r == deposit_in(now, d),
{
    if now == 0 {
        None
    } else {
        Some(d)
    }
}

/// Decides `create_claim` in block `now`, given whether the claim is on record: what the
/// call does, or why it fails.
pub fn create_effect(origin: Origin, on_record: bool, now: BlockNumber) -> (r: Result<
    Effect,
    DispatchError,
>)
    ensures
        r == create_effect_spec(origin, on_record, now),
{
    match decide_create(origin, on_record) {
        Ok(who) => Ok(
            Effect {
                change: RecordChange::Insert((who, now)),
                deposit: deposit_for(now, Deposit::ClaimCreated(who)),
            },
        ),
        Err(e) => Err(e),
    }
}

/// Decides `revoke_claim` in block `now`, given the claim's record: what the call does, or
/// why it fails.
pub fn revoke_effect(origin: Origin, record: Option<Proof>, now: BlockNumber) -> (r: Result<
    Effect,
    DispatchError,
>)
    ensures
        r == revoke_effect_spec(origin, record, now),
{
    match decide_owner_call(origin, record) {
        Ok(who) => Ok(
            Effect {
                change: RecordChange::Remove,
                deposit: deposit_for(now, Deposit::ClaimnRevoked(who)),
            },
        ),
        Err(e) => Err(e),
    }
}

/// Decides `transfer_claim` to `to` in block `now`, given the claim's record: what the call
/// does, or why it fails.
pub fn transfer_effect(origin: Origin, record: Option<Proof>, to: AccountId, now: BlockNumber) -> (r:
    Result<Effect, DispatchError>)
    ensures
        r == transfer_effect_spec(origin, record, to, now),
{
    match decide_owner_call(origin, record) {
        Ok(_) => Ok(Effect { change: RecordChange::Insert((to, now)), deposit: None }),
        Err(e) => Err(e),
    }
}

/// The event that `d` deposits for `claim`.
pub open spec fn event_of(d: Deposit, claim: Claim) -> Event {
    match d {
        Deposit::ClaimCreated(who) => Event::ClaimCreated(who, claim),
        Deposit::ClaimnRevoked(who) => Event::ClaimnRevoked(who, claim),
    }
}

/// Makes the event that `d` deposits for `claim`.
pub fn make_event(d: Deposit, claim: Claim) -> (r: Event)
    ensures
        r == event_of(d, claim),
{
    match d {
        Deposit::ClaimCreated(who) => Event::ClaimCreated(who, claim),
        Deposit::ClaimnRevoked(who) => Event::ClaimnRevoked(who, claim),
    }
}

/// The records after `change` to the record of `key`.
pub open spec fn apply_change(proofs: Map<Seq<u8>, Proof>, key: Seq<u8>, change: RecordChange) -> Map<
    Seq<u8>,
    Proof,
> {
    match change {
        RecordChange::Insert(p) => proofs.insert(key, p),
        RecordChange::Remove => proofs.remove(key),
    }
}

/// The pallet's state: the claims on record, the events deposited so far, and the number of
/// the block being built.
pub struct Pallet {
    proofs: ProofStore,
    events: Vec<Event>,
    block_number: BlockNumber,
}

impl Pallet {
    /// The records are well formed.
    pub closed spec fn wf(&self) -> bool {
        self.proofs.wf()
    }

    /// The claims on record, by their bytes.
    pub closed spec fn proofs_map(&self) -> Map<Seq<u8>, Proof> {
        self.proofs@
    }

    /// The events deposited so far, oldest first.
    pub closed spec fn event_log(&self) -> Seq<Event> {
        self.events@
    }

    /// The number of the block being built.
    pub closed spec fn current_block(&self) -> BlockNumber {
        self.block_number
    }

    /// Every claim on record is at most `MAX_CLAIM_LENGTH` bytes long.
    pub proof fn lemma_records_bounded(&self)
        requires
            self.wf(),
        ensures
            forall|k: Seq<u8>| #[trigger] self.proofs_map().contains_key(k) ==> k.len() <= MAX_CLAIM_LENGTH,
    {
        self.proofs.lemma_keys_bounded();
    }

    /// A pallet with no claims and no events, building block 0.
    pub fn new() -> (r: Pallet)
        ensures
            r.wf(),
            r.proofs_map() == Map::<Seq<u8>, Proof>::empty(),
            r.event_log() == Seq::<Event>::empty(),
            r.current_block() == 0,
    {
        Pallet { proofs: ProofStore::new(), events: Vec::new(), block_number: 0 }
    }

    /// Sets the number of the block being built.
    pub fn set_block_number(&mut self, n: BlockNumber)
        requires
            old(self).wf(),
        ensures
            final(self).wf(),
            final(self).current_block() == n,
            final(self).proofs_map() == old(self).proofs_map(),
            final(self).event_log() == old(self).event_log(),
    {
        self.block_number = n;
    }

    /// The number of the block being built.
    pub fn block_number(&self) -> (r: BlockNumber)
        ensures
            r == self.current_block(),
    {
        self.block_number
    }

    /// The owner of `claim` and the block in which it was recorded, if it is on record.
    pub fn proofs(&self, claim: &Claim) -> (r: Option<Proof>)
        requires
            self.wf(),
        ensures
            r == record_of(self.proofs_map(), claim_bytes(*claim)),
    {
        self.proofs.get(claim)
    }

    /// The events deposited so far, oldest first.
    pub fn events(&self) -> (r: &[Event])
        ensures
            r@ == self.event_log(),
    {
        self.events.as_slice()
    }

    fn change_record(&mut self, claim: Claim, change: RecordChange)
        requires
            old(self).wf(),
        ensures
            final(self).wf(),
            final(self).proofs_map() == apply_change(old(self).proofs_map(), claim_bytes(claim), change),
            final(self).event_log() == old(self).event_log(),
            final(self).current_block() == old(self).current_block(),
    {
        match change {
            RecordChange::Insert(p) => self.proofs.insert(claim, p),
            RecordChange::Remove => self.proofs.remove(&claim),
        }
    }

    /// Performs `effect` for `claim`: changes its record and deposits its event.
    fn perform(&mut self, claim: Claim, effect: Effect)
        requires
            old(self).wf(),
        ensures
            final(self).wf(),
            final(self).proofs_map() == apply_change(
                old(self).proofs_map(),
                claim_bytes(claim),
                effect.change,
            ),
            final(self).event_log() == (match effect.deposit {
                Some(d) => old(self).event_log().push(event_of(d, claim)),
                None => old(self).event_log(),
            }),
            final(self).current_block() == old(self).current_block(),
    {
        match effect.deposit {
            Some(d) => {
                let stored = bounded_clone(&claim);
                self.change_record(stored, effect.change);
                self.events.push(make_event(d, claim));
            },
            None => self.change_record(claim, effect.change),
        }
    }

    /// Records `claim` as owned by the signer of `origin`, in the current block.
    pub fn create_claim(&mut self, origin: Origin, claim: Claim) -> (r: DispatchResult)
        requires
            old(self).wf(),
        ensures
            final(self).wf(),
            r == create_claim_result(old(self).proofs_map(), origin, claim_bytes(claim)),
            final(self).proofs_map() == create_claim_proofs(
                old(self).proofs_map(),
                origin,
                claim_bytes(claim),
                old(self).current_block(),
            ),
            final(self).event_log() == create_claim_events(
                old(self).event_log(),
                old(self).proofs_map(),
                origin,
                claim,
                old(self).current_block(),
            ),
            final(self).current_block() == old(self).current_block(),
    {
        let on_record = self.proofs.contains_key(&claim);
        match create_effect(origin, on_record, self.block_number) {
            Ok(effect) => {
                self.perform(claim, effect);
                Ok(())
            },
            Err(e) => Err(e),
        }
    }

    /// Removes `claim` from the records; only its owner may do so.
    pub fn revoke_claim(&mut self, origin: Origin, claim: Claim) -> (r: DispatchResult)
        requires
            old(self).wf(),
        ensures
            final(self).wf(),
            r == owner_call_result(old(self).proofs_map(), origin, claim_bytes(claim)),
            final(self).proofs_map() == revoke_claim_proofs(
                old(self).proofs_map(),
                origin,
                claim_bytes(claim),
            ),
            final(self).event_log() == revoke_claim_events(
                old(self).event_log(),
                old(self).proofs_map(),
                origin,
                claim,
                old(self).current_block(),
            ),
            final(self).current_block() == old(self).current_block(),
    {
        let record = self.proofs.get(&claim);
        match revoke_effect(origin, record, self.block_number) {
            Ok(effect) => {
                self.perform(claim, effect);
                Ok(())
            },
            Err(e) => Err(e),
        }
    }

    /// Hands `claim` on to `to_account_id`, recording the current block; only its owner may
    /// do so.
    pub fn transfer_claim(&mut self, origin: Origin, claim: Claim, to_account_id: AccountId) -> (r:
        DispatchResult)
        requires
            old(self).wf(),
        ensures
            final(self).wf(),
            r == owner_call_result(old(self).proofs_map(), origin, claim_bytes(claim)),
            final(self).proofs_map() == transfer_claim_proofs(
                old(self).proofs_map(),
                origin,
                claim_bytes(claim),
                to_account_id,
                old(self).current_block(),
            ),
            final(self).event_log() == old(self).event_log(),
            final(self).current_block() == old(self).current_block(),
    {
        let record = self.proofs.get(&claim);
        match transfer_effect(origin, record, to_account_id, self.block_number) {
            Ok(effect) => {
                self.perform(claim, effect);
                Ok(())
            },
            Err(e) => Err(e),
        }
    }
}

} // verus!
