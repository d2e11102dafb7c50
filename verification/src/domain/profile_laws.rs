//! Properties of the tax-profile aggregate that hold across commands and events.

use vstd::prelude::*;

use crate::domain::orus::ProofMethod;
use crate::domain::tax_profile::{
    apply_spec, claim_status_spec, facts_error, handle_spec, initial_profile, ownership_for, well_formed,
    ClaimStatus, CommandModel, ErrorModel, EventModel, HolderModel, OwnershipStatus, ProfileModel,
    VerificationStatus,
};

verus! {

/// The initial state is well formed, and every event keeps a state well formed.
pub proof fn lemma_apply_preserves_well_formed(p: ProfileModel, e: EventModel)
    ensures
        well_formed(initial_profile()),
        well_formed(p) ==> well_formed(apply_spec(p, e)),
        p.holder is Some ==> apply_spec(p, e).holder is Some,
{
}

/// A command decides at most one event.
pub proof fn lemma_handle_emits_one_event(p: ProfileModel, c: CommandModel)
    ensures
        handle_spec(p, c) matches Ok(evs) ==> evs.len() == 1,
{
}

/// Every command other than registration is refused with `NotFound` on a
/// profile that does not exist.
pub proof fn lemma_missing_profile_is_not_found(p: ProfileModel, c: CommandModel)
    requires
        !p.exists,
        !(c is RegisterTaxProfile),
    ensures
        handle_spec(p, c) == Err::<Seq<EventModel>, ErrorModel>(ErrorModel::NotFound),
{
}

/// A registered profile cannot be registered again (valid facts assumed, since
/// they are checked first); the error names the current holder.
pub proof fn lemma_register_existing_is_already_held(p: ProfileModel, c: CommandModel)
    requires
        p.exists,
        well_formed(p),
        c is RegisterTaxProfile,
        facts_error(c->RegisterTaxProfile_facts) is None,
    ensures
        handle_spec(p, c) == Err::<Seq<EventModel>, ErrorModel>(
            ErrorModel::AlreadyHeld(p.holder->0),
        ),
{
}

/// The identity of a registered profile never changes: no event decided for
/// it alters its profile id, identity hash, TIN suffix or branch code, and it
/// stays registered.
pub proof fn lemma_identity_is_immutable(p: ProfileModel, c: CommandModel, i: int)
    requires
        p.exists,
        handle_spec(p, c) matches Ok(evs) && 0 <= i < evs.len(),
    ensures
        ({
            let q = apply_spec(p, handle_spec(p, c)->Ok_0[i]);
            &&& q.exists
            &&& q.profile_id == p.profile_id
            &&& q.identity_hash == p.identity_hash
            &&& q.tin_last4 == p.tin_last4
            &&& q.branch_code == p.branch_code
            &&& q.account_id == p.account_id
        }),
{
}

/// A successful registration produces a registered, unarchived, unverified
/// profile carrying the attested hash and the holder, with the ownership that
/// the holder's kind implies.
pub proof fn lemma_register_then_apply(p: ProfileModel, c: CommandModel)
    requires
        c matches CommandModel::RegisterTaxProfile { .. },
        handle_spec(p, c) is Ok,
    ensures
        ({
            let q = apply_spec(p, handle_spec(p, c)->Ok_0[0]);
            &&& q.exists
            &&& !q.is_archived
            &&& q.identity_hash == Some(c->RegisterTaxProfile_tin_hash)
            &&& q.holder == Some(c->RegisterTaxProfile_holder)
            &&& q.ownership == Some(ownership_for(c->RegisterTaxProfile_holder))
            &&& q.verification == VerificationStatus::Unverified
            &&& q.profile_id == Some(c->RegisterTaxProfile_profile_id)
            &&& q.account_id == Some(c->RegisterTaxProfile_account_id)
        }),
{
}

/// A successful claim leaves the claimant as the personal, verified owner.
pub proof fn lemma_claim_makes_claimant_owner(p: ProfileModel, c: CommandModel)
    requires
        c matches CommandModel::Claim { .. },
        handle_spec(p, c) is Ok,
    ensures
        ({
            let q = apply_spec(p, handle_spec(p, c)->Ok_0[0]);
            let actor = c->Claim_actor_user_id;
            &&& p.ownership == Some(OwnershipStatus::CompanyManaged)
            &&& q.holder == Some(HolderModel::Personal(actor))
            &&& q.ownership == Some(OwnershipStatus::PersonalExclusive)
            &&& q.verification == VerificationStatus::Verified
            &&& q.verified_owner_user_id == Some(actor)
            &&& claim_status_spec(q, actor) == ClaimStatus::Owned
        }),
{
}

/// A claim is refused while a personal account holds the profile exclusively.
pub proof fn lemma_claim_refused_under_personal_hold(p: ProfileModel, c: CommandModel)
    requires
        c matches CommandModel::Claim { .. },
        p.exists,
        p.identity_hash == Some(c->Claim_identity_hash),
        p.ownership == Some(OwnershipStatus::PersonalExclusive),
    ensures
        handle_spec(p, c) == Err::<Seq<EventModel>, ErrorModel>(
            ErrorModel::ClaimRequiresCompanyHold,
        ),
{
}

/// Claims and reclaims must attest this profile's identity hash.
pub proof fn lemma_proof_must_match_identity(p: ProfileModel, c: CommandModel)
    requires
        p.exists,
        p.identity_hash is Some,
        ({
            ||| (c matches CommandModel::Claim { identity_hash, .. } && Some(identity_hash)
                != p.identity_hash)
            ||| (c matches CommandModel::Reclaim { identity_hash, .. } && Some(identity_hash)
                != p.identity_hash)
        }),
    ensures
        handle_spec(p, c) == Err::<Seq<EventModel>, ErrorModel>(ErrorModel::ProofMismatch),
{
}

/// The verified owner (or anyone presenting an ORUS proof) who does not hold
/// the profile personally can always take it back.
pub proof fn lemma_reclaim_restores_personal_hold(
    p: ProfileModel,
    actor: Seq<char>,
    hash: Seq<char>,
    method: ProofMethod,
)
    requires
        p.exists,
        p.identity_hash == Some(hash),
        p.holder != Some(HolderModel::Personal(actor)),
    ensures
        ({
            let c = CommandModel::Reclaim { actor_user_id: actor, identity_hash: hash, proof_method: method };
            &&& handle_spec(p, c) is Ok
            &&& apply_spec(p, handle_spec(p, c)->Ok_0[0]).holder == Some(HolderModel::Personal(actor))
            &&& apply_spec(p, handle_spec(p, c)->Ok_0[0]).ownership == Some(
                OwnershipStatus::PersonalExclusive,
            )
        }),
{
}

/// Archiving sets the flag, restoring clears it, and an archived profile
/// refuses identity patches from its account.
pub proof fn lemma_archive_restore(p: ProfileModel, actor: Seq<char>, at: Seq<char>, c: CommandModel)
    requires
        p.exists,
        p.account_id == Some(actor),
    ensures
        !p.is_archived ==> ({
            let archive = CommandModel::ArchiveTaxProfile { actor_user_id: actor, occurred_at: at };
            &&& handle_spec(p, archive) is Ok
            &&& apply_spec(p, handle_spec(p, archive)->Ok_0[0]).is_archived
        }),
        p.is_archived ==> ({
            let restore = CommandModel::RestoreTaxProfile { actor_user_id: actor, occurred_at: at };
            &&& handle_spec(p, restore) is Ok
            &&& !apply_spec(p, handle_spec(p, restore)->Ok_0[0]).is_archived
        }),
        (p.is_archived && (c matches CommandModel::UpdateTaxProfileIdentity { actor_user_id, .. }
            && actor_user_id == actor)) ==> handle_spec(p, c) == Err::<Seq<EventModel>, ErrorModel>(
            ErrorModel::AlreadyArchived,
        ),
{
}

/// Only the profile's account may patch, archive or restore it.
pub proof fn lemma_account_gates_mutations(p: ProfileModel, c: CommandModel)
    requires
        p.exists,
        ({
            ||| (c matches CommandModel::UpdateTaxProfileIdentity { actor_user_id, .. }
                && p.account_id != Some(actor_user_id))
            ||| (c matches CommandModel::ArchiveTaxProfile { actor_user_id, .. } && p.account_id
                != Some(actor_user_id))
            ||| (c matches CommandModel::RestoreTaxProfile { actor_user_id, .. } && p.account_id
                != Some(actor_user_id))
        }),
    ensures
        handle_spec(p, c) == Err::<Seq<EventModel>, ErrorModel>(ErrorModel::NotHolder),
{
}

/// A patch carrying an `updated_at` other than the stored one is a stale write.
pub proof fn lemma_stale_patch_is_refused(p: ProfileModel, c: CommandModel)
    requires
        p.exists,
        !p.is_archived,
        c matches CommandModel::UpdateTaxProfileIdentity { actor_user_id, expected_updated_at, .. }
            && p.account_id == Some(actor_user_id) && expected_updated_at is Some
            && expected_updated_at != p.updated_at,
    ensures
        handle_spec(p, c) == Err::<Seq<EventModel>, ErrorModel>(ErrorModel::StaleWrite),
{
}

/// Only the holder may transfer a personally held profile: a transfer asked for by anyone
/// other than the holding user is refused with `NotHolder`, whatever the new holder.
pub proof fn lemma_only_personal_holder_transfers(
    p: ProfileModel,
    holder_user_id: Seq<char>,
    new_holder: HolderModel,
    actor_user_id: Seq<char>,
)
    requires
        p.exists,
        p.holder == Some(HolderModel::Personal(holder_user_id)),
        actor_user_id != holder_user_id,
    ensures
        handle_spec(p, CommandModel::Transfer { new_holder, actor_user_id }) == Err::<
            Seq<EventModel>,
            ErrorModel,
        >(ErrorModel::NotHolder),
{
}

/// A transfer that goes through was asked for by the personal holder (or concerns a
/// profile held by an organization), moves the profile to a different holder, and leaves
/// it held by exactly the new holder with the ownership that holder's kind implies.
pub proof fn lemma_accepted_transfer(p: ProfileModel, new_holder: HolderModel, actor_user_id: Seq<char>)
    requires
        handle_spec(p, CommandModel::Transfer { new_holder, actor_user_id }) is Ok,
    ensures
        p.exists,
        p.holder matches Some(HolderModel::Personal(u)) ==> u == actor_user_id,
        p.holder != Some(new_holder),
        ({
            let evs = handle_spec(p, CommandModel::Transfer { new_holder, actor_user_id })->Ok_0;
            let q = apply_spec(p, evs[0]);
            &&& evs.len() == 1
            &&& q.holder == Some(new_holder)
            &&& q.ownership == Some(ownership_for(new_holder))
        }),
{
}

} // verus!
