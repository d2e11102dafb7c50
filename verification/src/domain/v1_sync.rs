//! Year / forms / drafts / filings commands of the sync protocol.
//!
//! Persistence and HTTP are not part of this slice. Authorization is "load by
//! UUID, then compare `account_id`": every command requires the acting
//! account to be the (non-empty) owning account.

use vstd::prelude::*;

use crate::text::{is_blank, is_blank_str, owned, str_eq};

verus! {

#[derive(Debug, PartialEq, Eq)]
pub struct YearFormEntry {
    pub form_code: String,
    pub frequency: String,
    pub active: bool,
}

#[derive(Debug, PartialEq, Eq)]
pub enum SyncCommand {
    CloneProfileYear {
        tax_profile_id: String,
        from_year: Option<i16>,
        to_year: i16,
        dest_forms_empty: bool,
        actor_account_id: String,
        owner_account_id: String,
        occurred_at: String,
    },
    UpdateProfileYear {
        profile_year_id: String,
        /// Null fields inherit from the tax profile.
        registered_name: Option<String>,
        rdo_code: Option<String>,
        actor_account_id: String,
        owner_account_id: String,
        occurred_at: String,
    },
    SetYearForms {
        profile_year_id: String,
        entries: Vec<YearFormEntry>,
        actor_account_id: String,
        owner_account_id: String,
        occurred_at: String,
    },
    ActivateYearForm {
        profile_year_id: String,
        form_code: String,
        actor_account_id: String,
        owner_account_id: String,
        occurred_at: String,
    },
    DeactivateYearForm {
        profile_year_id: String,
        form_code: String,
        actor_account_id: String,
        owner_account_id: String,
        occurred_at: String,
    },
    UpsertFormDraft {
        tax_profile_id: String,
        form_code: String,
        tax_year: i16,
        period_key: String,
        payload: String,
        client_rev: u64,
        actor_account_id: String,
        owner_account_id: String,
        occurred_at: String,
    },
    MarkDraftSaved {
        form_draft_id: String,
        actor_account_id: String,
        owner_account_id: String,
        occurred_at: String,
    },
    EnqueueFiling {
        form_draft_id: String,
        tax_profile_id: String,
        form_active: bool,
        actor_account_id: String,
        owner_account_id: String,
        occurred_at: String,
    },
    MarkFilingSubmitted {
        filing_id: String,
        xml_sha256: String,
        submitted_at: String,
        actor_account_id: String,
        owner_account_id: String,
    },
    ConfirmFilingFromReceipt {
        filing_id: Option<String>,
        tax_profile_id: Option<String>,
        period_key: Option<String>,
        receipt_ref: String,
        actor_account_id: String,
        owner_account_id: String,
        occurred_at: String,
    },
    FailFiling {
        filing_id: String,
        error_summary: String,
        actor_account_id: String,
        owner_account_id: String,
        occurred_at: String,
    },
    MarkFilingPaid {
        filing_id: String,
        actor_account_id: String,
        owner_account_id: String,
        occurred_at: String,
    },
    /// Template commands are accepted as stubs.
    SaveFormTemplate {
        tax_profile_id: String,
        form_code: String,
        actor_account_id: String,
        owner_account_id: String,
        occurred_at: String,
    },
    ApplyFormTemplate {
        tax_profile_id: String,
        template_id: String,
        actor_account_id: String,
        owner_account_id: String,
        occurred_at: String,
    },
}

#[derive(Debug, PartialEq, Eq)]
pub enum SyncEvent {
    ProfileYearCloned {
        tax_profile_id: String,
        from_year: Option<i16>,
        to_year: i16,
        copied_forms: bool,
        actor_account_id: String,
        occurred_at: String,
    },
    ProfileYearUpdated { profile_year_id: String, actor_account_id: String, occurred_at: String },
    YearFormsSet {
        profile_year_id: String,
        entries: Vec<YearFormEntry>,
        actor_account_id: String,
        occurred_at: String,
    },
    YearFormActivated {
        profile_year_id: String,
        form_code: String,
        actor_account_id: String,
        occurred_at: String,
    },
    YearFormDeactivated {
        profile_year_id: String,
        form_code: String,
        actor_account_id: String,
        occurred_at: String,
    },
    FormDraftUpserted {
        tax_profile_id: String,
        form_code: String,
        tax_year: i16,
        period_key: String,
        rev: u64,
        saved_once: bool,
        actor_account_id: String,
        occurred_at: String,
    },
    DraftSaved { form_draft_id: String, actor_account_id: String, occurred_at: String },
    FilingQueued {
        form_draft_id: String,
        tax_profile_id: String,
        actor_account_id: String,
        occurred_at: String,
    },
    FilingSubmitted {
        filing_id: String,
        xml_sha256: String,
        submitted_at: String,
        actor_account_id: String,
    },
    FilingConfirmed {
        filing_id: Option<String>,
        receipt_ref: String,
        actor_account_id: String,
        occurred_at: String,
    },
    FilingFailed {
        filing_id: String,
        error_summary: String,
        actor_account_id: String,
        occurred_at: String,
    },
    FilingPaid { filing_id: String, actor_account_id: String, occurred_at: String },
    FormTemplateSaved {
        tax_profile_id: String,
        form_code: String,
        actor_account_id: String,
        occurred_at: String,
    },
    FormTemplateApplied {
        tax_profile_id: String,
        template_id: String,
        actor_account_id: String,
        occurred_at: String,
    },
}

pub open spec fn sync_event_type(e: SyncEvent) -> Seq<char> {
    match e {
        SyncEvent::ProfileYearCloned { .. } => "profile_year.cloned"@,
        SyncEvent::ProfileYearUpdated { .. } => "profile_year.updated"@,
        SyncEvent::YearFormsSet { .. } => "year_forms.set"@,
        SyncEvent::YearFormActivated { .. } => "year_form.activated"@,
        SyncEvent::YearFormDeactivated { .. } => "year_form.deactivated"@,
        SyncEvent::FormDraftUpserted { .. } => "form_draft.upserted"@,
        SyncEvent::DraftSaved { .. } => "form_draft.saved"@,
        SyncEvent::FilingQueued { .. } => "filing.queued"@,
        SyncEvent::FilingSubmitted { .. } => "filing.submitted"@,
        SyncEvent::FilingConfirmed { .. } => "filing.confirmed"@,
        SyncEvent::FilingFailed { .. } => "filing.failed"@,
        SyncEvent::FilingPaid { .. } => "filing.paid"@,
        SyncEvent::FormTemplateSaved { .. } => "form_template.saved"@,
        SyncEvent::FormTemplateApplied { .. } => "form_template.applied"@,
    }
}

impl SyncEvent {
    pub fn event_type(&self) -> (s: &'static str)
        ensures
            s@ == sync_event_type(*self),
    {
        match self {
            SyncEvent::ProfileYearCloned { .. } => "profile_year.cloned",
            SyncEvent::ProfileYearUpdated { .. } => "profile_year.updated",
            SyncEvent::YearFormsSet { .. } => "year_forms.set",
            SyncEvent::YearFormActivated { .. } => "year_form.activated",
            SyncEvent::YearFormDeactivated { .. } => "year_form.deactivated",
            SyncEvent::FormDraftUpserted { .. } => "form_draft.upserted",
            SyncEvent::DraftSaved { .. } => "form_draft.saved",
            SyncEvent::FilingQueued { .. } => "filing.queued",
            SyncEvent::FilingSubmitted { .. } => "filing.submitted",
            SyncEvent::FilingConfirmed { .. } => "filing.confirmed",
            SyncEvent::FilingFailed { .. } => "filing.failed",
            SyncEvent::FilingPaid { .. } => "filing.paid",
            SyncEvent::FormTemplateSaved { .. } => "form_template.saved",
            SyncEvent::FormTemplateApplied { .. } => "form_template.applied",
        }
    }
}

#[derive(Debug, PartialEq, Eq)]
pub enum SyncError {
    NotHolder,
    Invalid { reason: String },
}

impl SyncError {
    /// Human-readable message.
    pub fn message(&self) -> (m: String)
        ensures
            m@ == match self {
                SyncError::NotHolder => "caller is not the tax-profile account"@,
                SyncError::Invalid { reason } => reason@,
            },
    {
        match self {
            SyncError::NotHolder => owned("caller is not the tax-profile account"),
            SyncError::Invalid { reason } => reason.clone(),
        }
    }
}

/// The acting account is the owning account, and it is not empty.
pub open spec fn is_account(actor: Seq<char>, owner: Seq<char>) -> bool {
    actor == owner && actor.len() > 0
}

pub fn require_account(actor: &str, owner: &str) -> (res: Result<(), SyncError>)
    ensures
        res is Ok <==> is_account(actor@, owner@),
        res is Err ==> res == Err::<(), SyncError>(SyncError::NotHolder),
{
    if str_eq(actor, owner) && !actor.is_empty() {
        Ok(())
    } else {
        Err(SyncError::NotHolder)
    }
}

/// The actor/owner pair of a command.
pub open spec fn command_accounts(c: SyncCommand) -> (Seq<char>, Seq<char>) {
    match c {
        SyncCommand::CloneProfileYear { actor_account_id, owner_account_id, .. } => (actor_account_id@, owner_account_id@),
        SyncCommand::UpdateProfileYear { actor_account_id, owner_account_id, .. } => (actor_account_id@, owner_account_id@),
        SyncCommand::SetYearForms { actor_account_id, owner_account_id, .. } => (actor_account_id@, owner_account_id@),
        SyncCommand::ActivateYearForm { actor_account_id, owner_account_id, .. } => (actor_account_id@, owner_account_id@),
        SyncCommand::DeactivateYearForm { actor_account_id, owner_account_id, .. } => (actor_account_id@, owner_account_id@),
        SyncCommand::UpsertFormDraft { actor_account_id, owner_account_id, .. } => (actor_account_id@, owner_account_id@),
        SyncCommand::MarkDraftSaved { actor_account_id, owner_account_id, .. } => (actor_account_id@, owner_account_id@),
        SyncCommand::EnqueueFiling { actor_account_id, owner_account_id, .. } => (actor_account_id@, owner_account_id@),
        SyncCommand::MarkFilingSubmitted { actor_account_id, owner_account_id, .. } => (actor_account_id@, owner_account_id@),
        SyncCommand::ConfirmFilingFromReceipt { actor_account_id, owner_account_id, .. } => (actor_account_id@, owner_account_id@),
        SyncCommand::FailFiling { actor_account_id, owner_account_id, .. } => (actor_account_id@, owner_account_id@),
        SyncCommand::MarkFilingPaid { actor_account_id, owner_account_id, .. } => (actor_account_id@, owner_account_id@),
        SyncCommand::SaveFormTemplate { actor_account_id, owner_account_id, .. } => (actor_account_id@, owner_account_id@),
        SyncCommand::ApplyFormTemplate { actor_account_id, owner_account_id, .. } => (actor_account_id@, owner_account_id@),
    }
}

/// The event of an authorized command, or the validation message that
/// refuses it.
pub open spec fn sync_decision(c: SyncCommand) -> Result<SyncEvent, Seq<char>> {
    match c {
        SyncCommand::CloneProfileYear {
            tax_profile_id,
            from_year,
            to_year,
            dest_forms_empty,
            actor_account_id,
            occurred_at,
            ..
        } => if is_blank(tax_profile_id@) {
            Err("tax_profile_id is required"@)
        } else {
            Ok(
                SyncEvent::ProfileYearCloned {
                    tax_profile_id,
                    from_year,
                    to_year,
                    copied_forms: dest_forms_empty,
                    actor_account_id,
                    occurred_at,
                },
            )
        },
        SyncCommand::UpdateProfileYear { profile_year_id, actor_account_id, occurred_at, .. } => Ok(
            SyncEvent::ProfileYearUpdated { profile_year_id, actor_account_id, occurred_at },
        ),
        SyncCommand::SetYearForms { profile_year_id, entries, actor_account_id, occurred_at, .. } =>
            Ok(SyncEvent::YearFormsSet { profile_year_id, entries, actor_account_id, occurred_at }),
        SyncCommand::ActivateYearForm {
            profile_year_id,
            form_code,
            actor_account_id,
            occurred_at,
            ..
        } => Ok(
            SyncEvent::YearFormActivated { profile_year_id, form_code, actor_account_id, occurred_at },
        ),
        SyncCommand::DeactivateYearForm {
            profile_year_id,
            form_code,
            actor_account_id,
            occurred_at,
            ..
        } => Ok(
            SyncEvent::YearFormDeactivated {
                profile_year_id,
                form_code,
                actor_account_id,
                occurred_at,
            },
        ),
        SyncCommand::UpsertFormDraft {
            tax_profile_id,
            form_code,
            tax_year,
            period_key,
            client_rev,
            actor_account_id,
            occurred_at,
            ..
        } => Ok(
            SyncEvent::FormDraftUpserted {
                tax_profile_id,
                form_code,
                tax_year,
                period_key,
                rev: if client_rev == u64::MAX {
                    u64::MAX
                } else {
                    (client_rev + 1) as u64
                },
                saved_once: true,
                actor_account_id,
                occurred_at,
            },
        ),
        SyncCommand::MarkDraftSaved { form_draft_id, actor_account_id, occurred_at, .. } => Ok(
            SyncEvent::DraftSaved { form_draft_id, actor_account_id, occurred_at },
        ),
        SyncCommand::EnqueueFiling {
            form_draft_id,
            tax_profile_id,
            form_active,
            actor_account_id,
            occurred_at,
            ..
        } => if !form_active {
            Err("form is not active in the year set"@)
        } else {
            Ok(SyncEvent::FilingQueued { form_draft_id, tax_profile_id, actor_account_id, occurred_at })
        },
        SyncCommand::MarkFilingSubmitted {
            filing_id,
            xml_sha256,
            submitted_at,
            actor_account_id,
            ..
        } => Ok(SyncEvent::FilingSubmitted { filing_id, xml_sha256, submitted_at, actor_account_id }),
        SyncCommand::ConfirmFilingFromReceipt {
            filing_id,
            receipt_ref,
            actor_account_id,
            occurred_at,
            ..
        } => Ok(SyncEvent::FilingConfirmed { filing_id, receipt_ref, actor_account_id, occurred_at }),
        SyncCommand::FailFiling { filing_id, error_summary, actor_account_id, occurred_at, .. } => Ok(
            SyncEvent::FilingFailed { filing_id, error_summary, actor_account_id, occurred_at },
        ),
        SyncCommand::MarkFilingPaid { filing_id, actor_account_id, occurred_at, .. } => Ok(
            SyncEvent::FilingPaid { filing_id, actor_account_id, occurred_at },
        ),
        SyncCommand::SaveFormTemplate {
            tax_profile_id,
            form_code,
            actor_account_id,
            occurred_at,
            ..
        } => Ok(
            SyncEvent::FormTemplateSaved { tax_profile_id, form_code, actor_account_id, occurred_at },
        ),
        SyncCommand::ApplyFormTemplate {
            tax_profile_id,
            template_id,
            actor_account_id,
            occurred_at,
            ..
        } => Ok(
            SyncEvent::FormTemplateApplied {
                tax_profile_id,
                template_id,
                actor_account_id,
                occurred_at,
            },
        ),
    }
}

fn invalid(reason: &str) -> (e: SyncError)
    ensures
        e matches SyncError::Invalid { reason: r } && r@ == reason@,
{
    SyncError::Invalid { reason: owned(reason) }
}

impl SyncCommand {
    /// Authorizes the command, then validates it into its event.
    pub fn handle(self) -> (res: Result<SyncEvent, SyncError>)
        ensures
            !is_account(command_accounts(self).0, command_accounts(self).1) ==> res
                == Err::<SyncEvent, SyncError>(SyncError::NotHolder),
            is_account(command_accounts(self).0, command_accounts(self).1) ==> match sync_decision(
                self,
            ) {
                Ok(ev) => res == Ok::<SyncEvent, SyncError>(ev),
                Err(msg) => res matches Err(SyncError::Invalid { reason }) && reason@ == msg,
            },
    {
        match self {
            SyncCommand::CloneProfileYear {
                tax_profile_id,
                from_year,
                to_year,
                dest_forms_empty,
                actor_account_id,
                owner_account_id,
                occurred_at,
            } => {
                require_account(actor_account_id.as_str(), owner_account_id.as_str())?;
                if is_blank_str(tax_profile_id.as_str()) {
                    return Err(invalid("tax_profile_id is required"));
                }
                Ok(
                    SyncEvent::ProfileYearCloned {
                        tax_profile_id,
                        from_year,
                        to_year,
                        copied_forms: dest_forms_empty,
                        actor_account_id,
                        occurred_at,
                    },
                )
            },
            SyncCommand::UpdateProfileYear {
                profile_year_id,
                actor_account_id,
                owner_account_id,
                occurred_at,
                ..
            } => {
                require_account(actor_account_id.as_str(), owner_account_id.as_str())?;
                Ok(SyncEvent::ProfileYearUpdated { profile_year_id, actor_account_id, occurred_at })
            },
            SyncCommand::SetYearForms {
                profile_year_id,
                entries,
                actor_account_id,
                owner_account_id,
                occurred_at,
            } => {
                require_account(actor_account_id.as_str(), owner_account_id.as_str())?;
                Ok(SyncEvent::YearFormsSet { profile_year_id, entries, actor_account_id, occurred_at })
            },
            SyncCommand::ActivateYearForm {
                profile_year_id,
                form_code,
                actor_account_id,
                owner_account_id,
                occurred_at,
            } => {
                require_account(actor_account_id.as_str(), owner_account_id.as_str())?;
                Ok(
                    SyncEvent::YearFormActivated {
                        profile_year_id,
                        form_code,
                        actor_account_id,
                        occurred_at,
                    },
                )
            },
            SyncCommand::DeactivateYearForm {
                profile_year_id,
                form_code,
                actor_account_id,
                owner_account_id,
                occurred_at,
            } => {
                require_account(actor_account_id.as_str(), owner_account_id.as_str())?;
                Ok(
                    SyncEvent::YearFormDeactivated {
                        profile_year_id,
                        form_code,
                        actor_account_id,
                        occurred_at,
                    },
                )
            },
            SyncCommand::UpsertFormDraft {
                tax_profile_id,
                form_code,
                tax_year,
                period_key,
                client_rev,
                actor_account_id,
                owner_account_id,
                occurred_at,
                ..
            } => {
                require_account(actor_account_id.as_str(), owner_account_id.as_str())?;
                Ok(
                    SyncEvent::FormDraftUpserted {
                        tax_profile_id,
                        form_code,
                        tax_year,
                        period_key,
                        rev: client_rev.saturating_add(1),
                        saved_once: true,
                        actor_account_id,
                        occurred_at,
                    },
                )
            },
            SyncCommand::MarkDraftSaved {
                form_draft_id,
                actor_account_id,
                owner_account_id,
                occurred_at,
            } => {
                require_account(actor_account_id.as_str(), owner_account_id.as_str())?;
                Ok(SyncEvent::DraftSaved { form_draft_id, actor_account_id, occurred_at })
            },
            SyncCommand::EnqueueFiling {
                form_draft_id,
                tax_profile_id,
                form_active,
                actor_account_id,
                owner_account_id,
                occurred_at,
            } => {
                require_account(actor_account_id.as_str(), owner_account_id.as_str())?;
                if !form_active {
                    return Err(invalid("form is not active in the year set"));
                }
                Ok(
                    SyncEvent::FilingQueued {
                        form_draft_id,
                        tax_profile_id,
                        actor_account_id,
                        occurred_at,
                    },
                )
            },
            SyncCommand::MarkFilingSubmitted {
                filing_id,
                xml_sha256,
                submitted_at,
                actor_account_id,
                owner_account_id,
            } => {
                require_account(actor_account_id.as_str(), owner_account_id.as_str())?;
                Ok(SyncEvent::FilingSubmitted { filing_id, xml_sha256, submitted_at, actor_account_id })
            },
            SyncCommand::ConfirmFilingFromReceipt {
                filing_id,
                receipt_ref,
                actor_account_id,
                owner_account_id,
                occurred_at,
                ..
            } => {
                require_account(actor_account_id.as_str(), owner_account_id.as_str())?;
                Ok(SyncEvent::FilingConfirmed { filing_id, receipt_ref, actor_account_id, occurred_at })
            },
            SyncCommand::FailFiling {
                filing_id,
                error_summary,
                actor_account_id,
                owner_account_id,
                occurred_at,
            } => {
                require_account(actor_account_id.as_str(), owner_account_id.as_str())?;
                Ok(SyncEvent::FilingFailed { filing_id, error_summary, actor_account_id, occurred_at })
            },
            SyncCommand::MarkFilingPaid { filing_id, actor_account_id, owner_account_id, occurred_at } => {
                require_account(actor_account_id.as_str(), owner_account_id.as_str())?;
                Ok(SyncEvent::FilingPaid { filing_id, actor_account_id, occurred_at })
            },
            SyncCommand::SaveFormTemplate {
                tax_profile_id,
                form_code,
                actor_account_id,
                owner_account_id,
                occurred_at,
            } => {
                require_account(actor_account_id.as_str(), owner_account_id.as_str())?;
                Ok(
                    SyncEvent::FormTemplateSaved {
                        tax_profile_id,
                        form_code,
                        actor_account_id,
                        occurred_at,
                    },
                )
            },
            SyncCommand::ApplyFormTemplate {
                tax_profile_id,
                template_id,
                actor_account_id,
                owner_account_id,
                occurred_at,
            } => {
                require_account(actor_account_id.as_str(), owner_account_id.as_str())?;
                Ok(
                    SyncEvent::FormTemplateApplied {
                        tax_profile_id,
                        template_id,
                        actor_account_id,
                        occurred_at,
                    },
                )
            },
        }
    }
}

/// The event type that records each kind of command.
pub open spec fn recorded_as(c: SyncCommand) -> Seq<char> {
    match c {
        SyncCommand::CloneProfileYear { .. } => "profile_year.cloned"@,
        SyncCommand::UpdateProfileYear { .. } => "profile_year.updated"@,
        SyncCommand::SetYearForms { .. } => "year_forms.set"@,
        SyncCommand::ActivateYearForm { .. } => "year_form.activated"@,
        SyncCommand::DeactivateYearForm { .. } => "year_form.deactivated"@,
        SyncCommand::UpsertFormDraft { .. } => "form_draft.upserted"@,
        SyncCommand::MarkDraftSaved { .. } => "form_draft.saved"@,
        SyncCommand::EnqueueFiling { .. } => "filing.queued"@,
        SyncCommand::MarkFilingSubmitted { .. } => "filing.submitted"@,
        SyncCommand::ConfirmFilingFromReceipt { .. } => "filing.confirmed"@,
        SyncCommand::FailFiling { .. } => "filing.failed"@,
        SyncCommand::MarkFilingPaid { .. } => "filing.paid"@,
        SyncCommand::SaveFormTemplate { .. } => "form_template.saved"@,
        SyncCommand::ApplyFormTemplate { .. } => "form_template.applied"@,
    }
}

/// The account that an event names as its actor.
pub open spec fn event_actor(e: SyncEvent) -> Seq<char> {
    match e {
        SyncEvent::ProfileYearCloned { actor_account_id, .. } => actor_account_id@,
        SyncEvent::ProfileYearUpdated { actor_account_id, .. } => actor_account_id@,
        SyncEvent::YearFormsSet { actor_account_id, .. } => actor_account_id@,
        SyncEvent::YearFormActivated { actor_account_id, .. } => actor_account_id@,
        SyncEvent::YearFormDeactivated { actor_account_id, .. } => actor_account_id@,
        SyncEvent::FormDraftUpserted { actor_account_id, .. } => actor_account_id@,
        SyncEvent::DraftSaved { actor_account_id, .. } => actor_account_id@,
        SyncEvent::FilingQueued { actor_account_id, .. } => actor_account_id@,
        SyncEvent::FilingSubmitted { actor_account_id, .. } => actor_account_id@,
        SyncEvent::FilingConfirmed { actor_account_id, .. } => actor_account_id@,
        SyncEvent::FilingFailed { actor_account_id, .. } => actor_account_id@,
        SyncEvent::FilingPaid { actor_account_id, .. } => actor_account_id@,
        SyncEvent::FormTemplateSaved { actor_account_id, .. } => actor_account_id@,
        SyncEvent::FormTemplateApplied { actor_account_id, .. } => actor_account_id@,
    }
}

/// An accepted command is recorded under its own event type (activating a year form is
/// recorded as `year_form.activated`, deactivating as `year_form.deactivated`, and so on)
/// and names the command's acting account.
pub proof fn lemma_command_recorded_as_itself(c: SyncCommand)
    ensures
        sync_decision(c) matches Ok(e) ==> sync_event_type(e) == recorded_as(c) && event_actor(e)
            == command_accounts(c).0,
{
}

/// Activating or deactivating a year form always succeeds (for the owning account) and
/// records that very profile year and form, under `year_form.activated` or
/// `year_form.deactivated` respectively.
pub proof fn lemma_year_form_toggle(c: SyncCommand)
    ensures
        c matches SyncCommand::ActivateYearForm { profile_year_id, form_code, .. } ==> (sync_decision(
            c,
        ) matches Ok(e) && sync_event_type(e) == "year_form.activated"@ && (e matches SyncEvent::YearFormActivated {
            profile_year_id: p,
            form_code: f,
            ..
        } && p == profile_year_id && f == form_code)),
        c matches SyncCommand::DeactivateYearForm { profile_year_id, form_code, .. } ==> (sync_decision(
            c,
        ) matches Ok(e) && sync_event_type(e) == "year_form.deactivated"@ && (e matches SyncEvent::YearFormDeactivated {
            profile_year_id: p,
            form_code: f,
            ..
        } && p == profile_year_id && f == form_code)),
{
}

} // verus!
