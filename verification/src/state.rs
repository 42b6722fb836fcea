//! Escrow and job state records and the authorization state machine.
//!
//! An operation takes the records and addresses the caller presented,
//! validates derivation and authority, and either describes the permitted
//! state transition — the new record plus the token transfer the external
//! collaborator must perform — or rejects the operation. Nothing here moves
//! a balance: a failed collaborator call aborts the whole instruction, so a
//! returned transfer description and record update stand or fall together.

use vstd::prelude::*;
use crate::derivation::{
    derive_escrow, derive_job, derived_view, spec_derive_escrow, spec_derive_job,
};
use crate::error::EscrowError;
use crate::ids::AccountId;

verus! {

/// The escrow record: the authority permitted to disburse funds. The escrow
/// account's address is always the deterministic derivation from the fixed
/// escrow seed, never a caller-supplied address.
#[derive(Debug, PartialEq, Eq)]
pub struct Escrow {
    /// Owner authority which can disburse funds.
    pub owner: AccountId,
}

/// A job record: the cumulative ledger of one funding authority against one
/// escrow. Both counters only ever grow, and disbursements never exceed what
/// was funded.
#[derive(Debug, Clone, Copy, PartialEq, Eq, Structural)]
pub struct Job {
    /// Cumulative amount credited by FundJob operations.
    pub funded_total: u64,
    /// Cumulative amount debited by DisburseFunds operations.
    pub disbursed_total: u64,
}

impl Job {
    /// The conservation invariant: no job is overpaid relative to what was
    /// funded for it.
    pub open spec fn wf(self) -> bool {
        self.disbursed_total <= self.funded_total
    }
}

/// The balance movement an authorized operation instructs the external token
/// collaborator to perform.
#[derive(Debug, PartialEq, Eq)]
pub struct TransferAction {
    /// The token account debited.
    pub source: AccountId,
    /// The token account credited.
    pub destination: AccountId,
    /// The amount moved.
    pub amount: u64,
    /// Whether the transfer is authorized by the escrow's own derived
    /// address (a program-controlled transfer out of custody) rather than by
    /// a human signature.
    pub escrow_authorized: bool,
}

/// The job a funding operation starts from: the existing record, or a fresh
/// one created lazily on first funding.
pub open spec fn spec_job_or_fresh(job: Option<Job>) -> Job {
    match job {
        Some(j) => j,
        None => Job { funded_total: 0, disbursed_total: 0 },
    }
}

/// What crediting a job yields: the funded counter grown by the amount, or
/// an overflow rejection.
pub open spec fn spec_funded_job(job: Option<Job>, amount: u64) -> Result<Job, EscrowError> {
    let base = spec_job_or_fresh(job);
    if base.funded_total + amount > u64::MAX {
        Err(EscrowError::AmountOverflow)
    } else {
        Ok(
            Job {
                funded_total: (base.funded_total + amount) as u64,
                disbursed_total: base.disbursed_total,
            },
        )
    }
}

/// What debiting a job yields: the disbursed counter grown by the amount,
/// or a rejection when the job would be overpaid.
pub open spec fn spec_disbursed_job(j: Job, amount: u64) -> Result<Job, EscrowError> {
    if j.disbursed_total + amount > j.funded_total {
        Err(EscrowError::InsufficientJobBalance)
    } else {
        Ok(Job { funded_total: j.funded_total, disbursed_total: (j.disbursed_total + amount) as u64 })
    }
}

/// The exact outcome owed to an InitEscrow operation.
pub open spec fn init_escrow_outcome(
    derived: Option<(Seq<u8>, u8)>,
    presented_escrow: Seq<u8>,
    escrow_exists: bool,
    owner: Seq<u8>,
    r: Result<Escrow, EscrowError>,
) -> bool {
    match derived {
        None => r == Err::<Escrow, EscrowError>(EscrowError::DerivationFailure),
        Some((addr, bump)) => if addr != presented_escrow {
            r == Err::<Escrow, EscrowError>(EscrowError::InvalidDerivedAddress)
        } else if escrow_exists {
            r == Err::<Escrow, EscrowError>(EscrowError::EscrowAlreadyInitialized)
        } else {
            r matches Ok(e) && e.owner@ == owner
        },
    }
}

/// The exact outcome owed to a SetEscrowOwner operation.
pub open spec fn set_owner_outcome(
    escrow: Option<Escrow>,
    signer: Seq<u8>,
    new_owner: Seq<u8>,
    r: Result<Escrow, EscrowError>,
) -> bool {
    match escrow {
        None => r == Err::<Escrow, EscrowError>(EscrowError::EscrowNotInitialized),
        Some(e) => if e.owner@ != signer {
            r == Err::<Escrow, EscrowError>(EscrowError::UnauthorizedOwner)
        } else {
            r matches Ok(e2) && e2.owner@ == new_owner
        },
    }
}

/// The exact outcome owed to a FundJob operation.
pub open spec fn fund_job_outcome(
    derived_escrow: Option<(Seq<u8>, u8)>,
    presented_escrow: Seq<u8>,
    escrow_exists: bool,
    derived_job: Option<(Seq<u8>, u8)>,
    presented_job: Seq<u8>,
    job: Option<Job>,
    source: Seq<u8>,
    custody: Seq<u8>,
    amount: u64,
    r: Result<(Job, TransferAction), EscrowError>,
) -> bool {
    if amount == 0 {
        r == Err::<(Job, TransferAction), EscrowError>(EscrowError::InvalidAmount)
    } else {
        match derived_escrow {
            None => r == Err::<(Job, TransferAction), EscrowError>(EscrowError::DerivationFailure),
            Some((eaddr, eb)) => if eaddr != presented_escrow {
                r == Err::<(Job, TransferAction), EscrowError>(EscrowError::InvalidDerivedAddress)
            } else if !escrow_exists {
                r == Err::<(Job, TransferAction), EscrowError>(EscrowError::EscrowNotInitialized)
            } else {
                match derived_job {
                    None => r == Err::<(Job, TransferAction), EscrowError>(
                        EscrowError::DerivationFailure,
                    ),
                    Some((jaddr, jb)) => if jaddr != presented_job {
                        r == Err::<(Job, TransferAction), EscrowError>(
                            EscrowError::InvalidDerivedAddress,
                        )
                    } else {
                        match spec_funded_job(job, amount) {
                            Err(e) => r == Err::<(Job, TransferAction), EscrowError>(e),
                            Ok(j2) => r matches Ok((jr, act)) && jr == j2 && act.source@ == source
                                && act.destination@ == custody && act.amount == amount
                                && act.escrow_authorized == false,
                        }
                    },
                }
            },
        }
    }
}

/// The exact outcome owed to a DisburseFunds operation.
pub open spec fn disburse_outcome(
    escrow: Option<Escrow>,
    signer: Seq<u8>,
    derived_job: Option<(Seq<u8>, u8)>,
    presented_job: Seq<u8>,
    job: Option<Job>,
    custody: Seq<u8>,
    destination: Seq<u8>,
    amount: u64,
    r: Result<(Job, TransferAction), EscrowError>,
) -> bool {
    match escrow {
        None => r == Err::<(Job, TransferAction), EscrowError>(EscrowError::EscrowNotInitialized),
        Some(e) => if e.owner@ != signer {
            r == Err::<(Job, TransferAction), EscrowError>(EscrowError::UnauthorizedOwner)
        } else {
            match derived_job {
                None => r == Err::<(Job, TransferAction), EscrowError>(
                    EscrowError::DerivationFailure,
                ),
                Some((jaddr, jb)) => if jaddr != presented_job {
                    r == Err::<(Job, TransferAction), EscrowError>(
                        EscrowError::InvalidDerivedAddress,
                    )
                } else {
                    match job {
                        None => r == Err::<(Job, TransferAction), EscrowError>(
                            EscrowError::JobNotFound,
                        ),
                        Some(j) => match spec_disbursed_job(j, amount) {
                            Err(e2) => r == Err::<(Job, TransferAction), EscrowError>(e2),
                            Ok(j2) => r matches Ok((jr, act)) && jr == j2 && act.source@ == custody
                                && act.destination@ == destination && act.amount == amount
                                && act.escrow_authorized == true,
                        },
                    }
                },
            }
        },
    }
}

/// Validates and applies InitEscrow against a caller-presented escrow
/// address and account state, with the derivation supplied by the caller.
pub fn init_escrow_transition(
    derived: &Option<(AccountId, u8)>,
    presented_escrow: &AccountId,
    existing: &Option<Escrow>,
    owner: &AccountId,
) -> (r: Result<Escrow, EscrowError>)
    ensures
        init_escrow_outcome(
            derived_view(*derived),
            presented_escrow@,
            *existing is Some,
            owner@,
            r,
        ),
{
    match derived {
        None => Err(EscrowError::DerivationFailure),
        Some((addr, _bump)) => {
            if !addr.eq_id(presented_escrow) {
                Err(EscrowError::InvalidDerivedAddress)
            } else if existing.is_some() {
                Err(EscrowError::EscrowAlreadyInitialized)
            } else {
                Ok(Escrow { owner: owner.copy_id() })
            }
        },
    }
}

/// Validates and applies SetEscrowOwner: only the stored owner may hand the
/// escrow to a new owner.
pub fn set_escrow_owner_transition(
    existing: &Option<Escrow>,
    signer: &AccountId,
    new_owner: &AccountId,
) -> (r: Result<Escrow, EscrowError>)
    ensures
        set_owner_outcome(*existing, signer@, new_owner@, r),
{
    match existing {
        None => Err(EscrowError::EscrowNotInitialized),
        Some(e) => {
            if !e.owner.eq_id(signer) {
                Err(EscrowError::UnauthorizedOwner)
            } else {
                Ok(Escrow { owner: new_owner.copy_id() })
            }
        },
    }
}

/// Validates and applies FundJob: credits the job (creating it lazily) and
/// describes the transfer of the amount from the funder's source account
/// into escrow custody, with the derivations supplied by the caller.
pub fn fund_job_transition(
    derived_escrow: &Option<(AccountId, u8)>,
    presented_escrow: &AccountId,
    escrow: &Option<Escrow>,
    derived_job: &Option<(AccountId, u8)>,
    presented_job: &AccountId,
    job: &Option<Job>,
    source_token_account: &AccountId,
    escrow_token_account: &AccountId,
    amount: u64,
) -> (r: Result<(Job, TransferAction), EscrowError>)
    ensures
        fund_job_outcome(
            derived_view(*derived_escrow),
            presented_escrow@,
            *escrow is Some,
            derived_view(*derived_job),
            presented_job@,
            *job,
            source_token_account@,
            escrow_token_account@,
            amount,
            r,
        ),
{
    if amount == 0 {
        return Err(EscrowError::InvalidAmount);
    }
    match derived_escrow {
        None => Err(EscrowError::DerivationFailure),
        Some((eaddr, _eb)) => {
            if !eaddr.eq_id(presented_escrow) {
                Err(EscrowError::InvalidDerivedAddress)
            } else if escrow.is_none() {
                Err(EscrowError::EscrowNotInitialized)
            } else {
                match derived_job {
                    None => Err(EscrowError::DerivationFailure),
                    Some((jaddr, _jb)) => {
                        if !jaddr.eq_id(presented_job) {
                            Err(EscrowError::InvalidDerivedAddress)
                        } else {
                            let base = match job {
                                Some(j) => *j,
                                None => Job { funded_total: 0, disbursed_total: 0 },
                            };
                            match base.funded_total.checked_add(amount) {
                                None => Err(EscrowError::AmountOverflow),
                                Some(funded) => Ok(
                                    (
                                        Job {
                                            funded_total: funded,
                                            disbursed_total: base.disbursed_total,
                                        },
                                        TransferAction {
                                            source: source_token_account.copy_id(),
                                            destination: escrow_token_account.copy_id(),
                                            amount,
                                            escrow_authorized: false,
                                        },
                                    ),
                                ),
                            }
                        }
                    },
                }
            }
        },
    }
}

/// Validates and applies DisburseFunds: only the stored owner may disburse,
/// only against an existing job, and never beyond what the job was funded.
/// The described transfer out of custody is authorized by the escrow's own
/// derived address, never by a human signature.
pub fn disburse_funds_transition(
    escrow: &Option<Escrow>,
    signer: &AccountId,
    derived_job: &Option<(AccountId, u8)>,
    presented_job: &AccountId,
    job: &Option<Job>,
    escrow_token_account: &AccountId,
    destination_token_account: &AccountId,
    amount: u64,
) -> (r: Result<(Job, TransferAction), EscrowError>)
    ensures
        disburse_outcome(
            *escrow,
            signer@,
            derived_view(*derived_job),
            presented_job@,
            *job,
            escrow_token_account@,
            destination_token_account@,
            amount,
            r,
        ),
{
    match escrow {
        None => Err(EscrowError::EscrowNotInitialized),
        Some(e) => {
            if !e.owner.eq_id(signer) {
                Err(EscrowError::UnauthorizedOwner)
            } else {
                match derived_job {
                    None => Err(EscrowError::DerivationFailure),
                    Some((jaddr, _jb)) => {
                        if !jaddr.eq_id(presented_job) {
                            Err(EscrowError::InvalidDerivedAddress)
                        } else {
                            match job {
                                None => Err(EscrowError::JobNotFound),
                                Some(j) => match j.disbursed_total.checked_add(amount) {
                                    None => Err(EscrowError::InsufficientJobBalance),
                                    Some(disbursed) => {
                                        if disbursed > j.funded_total {
                                            Err(EscrowError::InsufficientJobBalance)
                                        } else {
                                            Ok(
                                                (
                                                    Job {
                                                        funded_total: j.funded_total,
                                                        disbursed_total: disbursed,
                                                    },
                                                    TransferAction {
                                                        source: escrow_token_account.copy_id(),
                                                        destination: destination_token_account
                                                            .copy_id(),
                                                        amount,
                                                        escrow_authorized: true,
                                                    },
                                                ),
                                            )
                                        }
                                    },
                                },
                            }
                        }
                    },
                }
            }
        },
    }
}

/// InitEscrow against the derivation itself: derives the escrow address for
/// the program id and validates the caller-presented account against it.
pub fn process_init_escrow(
    program_id: &AccountId,
    presented_escrow: &AccountId,
    existing: &Option<Escrow>,
    owner: &AccountId,
) -> (r: Result<Escrow, EscrowError>)
    ensures
        init_escrow_outcome(
            spec_derive_escrow(program_id@),
            presented_escrow@,
            *existing is Some,
            owner@,
            r,
        ),
{
    let derived = derive_escrow(program_id);
    init_escrow_transition(&derived, presented_escrow, existing, owner)
}

/// FundJob against the derivations themselves: derives the escrow address
/// and the job address of the signing authority, then validates and applies
/// the funding.
pub fn process_fund_job(
    program_id: &AccountId,
    presented_escrow: &AccountId,
    escrow: &Option<Escrow>,
    presented_job: &AccountId,
    job: &Option<Job>,
    authority: &AccountId,
    source_token_account: &AccountId,
    escrow_token_account: &AccountId,
    amount: u64,
) -> (r: Result<(Job, TransferAction), EscrowError>)
    ensures
        fund_job_outcome(
            spec_derive_escrow(program_id@),
            presented_escrow@,
            *escrow is Some,
            spec_derive_job(program_id@, authority@),
            presented_job@,
            *job,
            source_token_account@,
            escrow_token_account@,
            amount,
            r,
        ),
{
    let derived_escrow = derive_escrow(program_id);
    let derived_job = derive_job(program_id, authority);
    fund_job_transition(
        &derived_escrow,
        presented_escrow,
        escrow,
        &derived_job,
        presented_job,
        job,
        source_token_account,
        escrow_token_account,
        amount,
    )
}

/// DisburseFunds against the derivation itself: derives the job address of
/// the authority being paid, then validates and applies the disbursement.
pub fn process_disburse_funds(
    program_id: &AccountId,
    escrow: &Option<Escrow>,
    signer: &AccountId,
    job_authority: &AccountId,
    presented_job: &AccountId,
    job: &Option<Job>,
    escrow_token_account: &AccountId,
    destination_token_account: &AccountId,
    amount: u64,
) -> (r: Result<(Job, TransferAction), EscrowError>)
    ensures
        disburse_outcome(
            *escrow,
            signer@,
            spec_derive_job(program_id@, job_authority@),
            presented_job@,
            *job,
            escrow_token_account@,
            destination_token_account@,
            amount,
            r,
        ),
{
    let derived_job = derive_job(program_id, job_authority);
    disburse_funds_transition(
        escrow,
        signer,
        &derived_job,
        presented_job,
        job,
        escrow_token_account,
        destination_token_account,
        amount,
    )
}

/// One balance-changing operation against a single job.
pub enum JobOp {
    /// Credit the job by an amount.
    Fund {
        /// The amount credited.
        amount: u64,
    },
    /// Debit the job by an amount.
    Disburse {
        /// The amount debited.
        amount: u64,
    },
}

/// What one operation leaves of a job: the updated record when the
/// operation is accepted, the old record untouched when it is rejected — a
/// rejected operation has no partial effect.
pub open spec fn job_step(j: Job, op: JobOp) -> Job {
    match op {
        JobOp::Fund { amount } => match spec_funded_job(Some(j), amount) {
            Ok(j2) => j2,
            Err(_) => j,
        },
        JobOp::Disburse { amount } => match spec_disbursed_job(j, amount) {
            Ok(j2) => j2,
            Err(_) => j,
        },
    }
}

/// A whole sequence of operations applied to a job, first to last.
pub open spec fn apply_job_ops(j: Job, ops: Seq<JobOp>) -> Job
    decreases ops.len(),
{
    if ops.len() == 0 {
        j
    } else {
        apply_job_ops(job_step(j, ops[0]), ops.drop_first())
    }
}

/// Conservation, one step: an operation on a job that is not overpaid
/// leaves a job that is not overpaid, and never decreases either counter.
pub proof fn lemma_job_step_conserves(j: Job, op: JobOp)
    requires
        j.wf(),
    ensures
        job_step(j, op).wf(),
        job_step(j, op).funded_total >= j.funded_total,
        job_step(j, op).disbursed_total >= j.disbursed_total,
{
}

/// Conservation, any sequence: after every prefix of any sequence of
/// funding and disbursement operations on a job, `disbursed_total <=
/// funded_total` still holds, and both counters are monotonically
/// non-decreasing.
pub proof fn lemma_job_ops_conserve(j: Job, ops: Seq<JobOp>)
    requires
        j.wf(),
    ensures
        apply_job_ops(j, ops).wf(),
        apply_job_ops(j, ops).funded_total >= j.funded_total,
        apply_job_ops(j, ops).disbursed_total >= j.disbursed_total,
        forall|i: int|
            0 <= i <= ops.len() ==> #[trigger] apply_job_ops(j, ops.take(i)).wf(),
    decreases ops.len(),
{
    if ops.len() == 0 {
        assert forall|i: int| 0 <= i <= ops.len() implies #[trigger] apply_job_ops(
            j,
            ops.take(i),
        ).wf() by {
            assert(ops.take(i) =~= ops);
        }
    } else {
        let j1 = job_step(j, ops[0]);
        lemma_job_step_conserves(j, ops[0]);
        lemma_job_ops_conserve(j1, ops.drop_first());
        assert forall|i: int| 0 <= i <= ops.len() implies #[trigger] apply_job_ops(
            j,
            ops.take(i),
        ).wf() by {
            if i == 0 {
                assert(ops.take(0) =~= Seq::<JobOp>::empty());
            } else {
                assert(ops.take(i).drop_first() =~= ops.drop_first().take(i - 1));
                assert(apply_job_ops(j, ops.take(i)) == apply_job_ops(
                    j1,
                    ops.drop_first().take(i - 1),
                ));
            }
        }
    }
}

/// Authorization: a SetEscrowOwner whose asserted signer is not the stored
/// owner is rejected with `UnauthorizedOwner`.
pub proof fn lemma_set_owner_requires_owner(
    escrow: Option<Escrow>,
    signer: Seq<u8>,
    new_owner: Seq<u8>,
    r: Result<Escrow, EscrowError>,
)
    requires
        escrow matches Some(e) && e.owner@ != signer,
        set_owner_outcome(escrow, signer, new_owner, r),
    ensures
        r == Err::<Escrow, EscrowError>(EscrowError::UnauthorizedOwner),
{
}

/// Authorization: a DisburseFunds whose asserted signer is not the stored
/// owner is rejected with `UnauthorizedOwner`.
pub proof fn lemma_disburse_requires_owner(
    escrow: Option<Escrow>,
    signer: Seq<u8>,
    derived_job: Option<(Seq<u8>, u8)>,
    presented_job: Seq<u8>,
    job: Option<Job>,
    custody: Seq<u8>,
    destination: Seq<u8>,
    amount: u64,
    r: Result<(Job, TransferAction), EscrowError>,
)
    requires
        escrow matches Some(e) && e.owner@ != signer,
        disburse_outcome(escrow, signer, derived_job, presented_job, job, custody, destination, amount, r),
    ensures
        r == Err::<(Job, TransferAction), EscrowError>(EscrowError::UnauthorizedOwner),
{
}

} // verus!
