use rndr_escrow::derivation::{derive_escrow, derive_job};
use rndr_escrow::error::EscrowError;
use rndr_escrow::ids::AccountId;
use rndr_escrow::state::{
    disburse_funds_transition, fund_job_transition, process_disburse_funds, process_fund_job,
    process_init_escrow, set_escrow_owner_transition, Escrow, Job,
};

fn id(byte: u8) -> AccountId {
    AccountId::from_bytes(vec![byte; 32]).unwrap()
}

const PROGRAM: u8 = 7;
const OWNER_1: u8 = 11;
const OWNER_2: u8 = 12;
const AUTHORITY: u8 = 42;
const SOURCE: u8 = 21;
const CUSTODY: u8 = 22;
const DESTINATION: u8 = 23;

fn fresh_escrow() -> Escrow {
    let pid = id(PROGRAM);
    let (escrow_addr, _) = derive_escrow(&pid).unwrap();
    process_init_escrow(&pid, &escrow_addr, &None, &id(OWNER_1)).unwrap()
}

#[test]
fn init_escrow_succeeds_once_then_fails() {
    let pid = id(PROGRAM);
    let (escrow_addr, _) = derive_escrow(&pid).unwrap();
    let escrow = process_init_escrow(&pid, &escrow_addr, &None, &id(OWNER_1)).unwrap();
    assert_eq!(escrow.owner, id(OWNER_1));
    let again = process_init_escrow(&pid, &escrow_addr, &Some(escrow), &id(OWNER_1));
    assert_eq!(again.unwrap_err(), EscrowError::EscrowAlreadyInitialized);
}

#[test]
fn init_escrow_rejects_wrong_address() {
    let pid = id(PROGRAM);
    let r = process_init_escrow(&pid, &id(99), &None, &id(OWNER_1));
    assert_eq!(r.unwrap_err(), EscrowError::InvalidDerivedAddress);
}

#[test]
fn fund_job_credits_a_fresh_job() {
    let pid = id(PROGRAM);
    let (escrow_addr, _) = derive_escrow(&pid).unwrap();
    let (job_addr, _) = derive_job(&pid, &id(AUTHORITY)).unwrap();
    let escrow = fresh_escrow();
    let (job, action) = process_fund_job(
        &pid,
        &escrow_addr,
        &Some(escrow),
        &job_addr,
        &None,
        &id(AUTHORITY),
        &id(SOURCE),
        &id(CUSTODY),
        100,
    )
    .unwrap();
    assert_eq!(job, Job { funded_total: 100, disbursed_total: 0 });
    assert_eq!(action.source, id(SOURCE));
    assert_eq!(action.destination, id(CUSTODY));
    assert_eq!(action.amount, 100);
    assert!(!action.escrow_authorized);
}

#[test]
fn fund_job_accumulates() {
    let pid = id(PROGRAM);
    let (escrow_addr, _) = derive_escrow(&pid).unwrap();
    let (job_addr, _) = derive_job(&pid, &id(AUTHORITY)).unwrap();
    let escrow = fresh_escrow();
    let existing = Job { funded_total: 100, disbursed_total: 40 };
    let (job, _) = process_fund_job(
        &pid,
        &escrow_addr,
        &Some(escrow),
        &job_addr,
        &Some(existing),
        &id(AUTHORITY),
        &id(SOURCE),
        &id(CUSTODY),
        50,
    )
    .unwrap();
    assert_eq!(job, Job { funded_total: 150, disbursed_total: 40 });
}

#[test]
fn fund_job_rejects_zero_amount() {
    let pid = id(PROGRAM);
    let (escrow_addr, _) = derive_escrow(&pid).unwrap();
    let (job_addr, _) = derive_job(&pid, &id(AUTHORITY)).unwrap();
    let escrow = fresh_escrow();
    let r = process_fund_job(
        &pid,
        &escrow_addr,
        &Some(escrow),
        &job_addr,
        &None,
        &id(AUTHORITY),
        &id(SOURCE),
        &id(CUSTODY),
        0,
    );
    assert_eq!(r.unwrap_err(), EscrowError::InvalidAmount);
}

#[test]
fn fund_job_rejects_uninitialized_escrow() {
    let pid = id(PROGRAM);
    let (escrow_addr, _) = derive_escrow(&pid).unwrap();
    let (job_addr, _) = derive_job(&pid, &id(AUTHORITY)).unwrap();
    let r = process_fund_job(
        &pid,
        &escrow_addr,
        &None,
        &job_addr,
        &None,
        &id(AUTHORITY),
        &id(SOURCE),
        &id(CUSTODY),
        100,
    );
    assert_eq!(r.unwrap_err(), EscrowError::EscrowNotInitialized);
}

#[test]
fn fund_job_rejects_wrong_job_address() {
    let pid = id(PROGRAM);
    let (escrow_addr, _) = derive_escrow(&pid).unwrap();
    let escrow = fresh_escrow();
    let r = process_fund_job(
        &pid,
        &escrow_addr,
        &Some(escrow),
        &id(99),
        &None,
        &id(AUTHORITY),
        &id(SOURCE),
        &id(CUSTODY),
        100,
    );
    assert_eq!(r.unwrap_err(), EscrowError::InvalidDerivedAddress);
}

#[test]
fn fund_job_rejects_counter_overflow() {
    let pid = id(PROGRAM);
    let (escrow_addr, _) = derive_escrow(&pid).unwrap();
    let (job_addr, _) = derive_job(&pid, &id(AUTHORITY)).unwrap();
    let escrow = fresh_escrow();
    let full = Job { funded_total: u64::MAX, disbursed_total: 0 };
    let r = process_fund_job(
        &pid,
        &escrow_addr,
        &Some(escrow),
        &job_addr,
        &Some(full),
        &id(AUTHORITY),
        &id(SOURCE),
        &id(CUSTODY),
        1,
    );
    assert_eq!(r.unwrap_err(), EscrowError::AmountOverflow);
}

#[test]
fn disburse_rejects_overdraw_then_succeeds() {
    let pid = id(PROGRAM);
    let (job_addr, _) = derive_job(&pid, &id(AUTHORITY)).unwrap();
    let escrow = fresh_escrow();
    let job = Job { funded_total: 100, disbursed_total: 0 };

    let r = process_disburse_funds(
        &pid,
        &Some(escrow),
        &id(OWNER_1),
        &id(AUTHORITY),
        &job_addr,
        &Some(job),
        &id(CUSTODY),
        &id(DESTINATION),
        150,
    );
    assert_eq!(r.unwrap_err(), EscrowError::InsufficientJobBalance);

    let escrow = fresh_escrow();
    let (job, action) = process_disburse_funds(
        &pid,
        &Some(escrow),
        &id(OWNER_1),
        &id(AUTHORITY),
        &job_addr,
        &Some(job),
        &id(CUSTODY),
        &id(DESTINATION),
        60,
    )
    .unwrap();
    assert_eq!(job, Job { funded_total: 100, disbursed_total: 60 });
    assert_eq!(action.source, id(CUSTODY));
    assert_eq!(action.destination, id(DESTINATION));
    assert_eq!(action.amount, 60);
    assert!(action.escrow_authorized);
}

#[test]
fn disburse_rejects_missing_job() {
    let pid = id(PROGRAM);
    let (job_addr, _) = derive_job(&pid, &id(AUTHORITY)).unwrap();
    let escrow = fresh_escrow();
    let r = process_disburse_funds(
        &pid,
        &Some(escrow),
        &id(OWNER_1),
        &id(AUTHORITY),
        &job_addr,
        &None,
        &id(CUSTODY),
        &id(DESTINATION),
        10,
    );
    assert_eq!(r.unwrap_err(), EscrowError::JobNotFound);
}

#[test]
fn set_owner_rejects_non_owner_signer() {
    let escrow = fresh_escrow();
    let r = set_escrow_owner_transition(&Some(escrow), &id(OWNER_2), &id(OWNER_2));
    assert_eq!(r.unwrap_err(), EscrowError::UnauthorizedOwner);
}

#[test]
fn set_owner_rejects_uninitialized_escrow() {
    let r = set_escrow_owner_transition(&None, &id(OWNER_1), &id(OWNER_2));
    assert_eq!(r.unwrap_err(), EscrowError::EscrowNotInitialized);
}

#[test]
fn owner_change_moves_disbursement_authority() {
    let pid = id(PROGRAM);
    let (job_addr, _) = derive_job(&pid, &id(AUTHORITY)).unwrap();
    let escrow = fresh_escrow();
    let job = Job { funded_total: 100, disbursed_total: 0 };

    let escrow = set_escrow_owner_transition(&Some(escrow), &id(OWNER_1), &id(OWNER_2)).unwrap();
    assert_eq!(escrow.owner, id(OWNER_2));

    let r = process_disburse_funds(
        &pid,
        &Some(escrow),
        &id(OWNER_1),
        &id(AUTHORITY),
        &job_addr,
        &Some(job),
        &id(CUSTODY),
        &id(DESTINATION),
        10,
    );
    assert_eq!(r.unwrap_err(), EscrowError::UnauthorizedOwner);

    let escrow = Escrow { owner: id(OWNER_2) };
    let (job, _) = process_disburse_funds(
        &pid,
        &Some(escrow),
        &id(OWNER_2),
        &id(AUTHORITY),
        &job_addr,
        &Some(job),
        &id(CUSTODY),
        &id(DESTINATION),
        10,
    )
    .unwrap();
    assert_eq!(job, Job { funded_total: 100, disbursed_total: 10 });
}

#[test]
fn counters_conserve_over_a_sequence_of_operations() {
    let pid = id(PROGRAM);
    let (escrow_addr, _) = derive_escrow(&pid).unwrap();
    let (job_addr, _) = derive_job(&pid, &id(AUTHORITY)).unwrap();
    let derived_escrow = derive_escrow(&pid);
    let derived_job = derive_job(&pid, &id(AUTHORITY));

    let mut job: Option<Job> = None;
    let mut last = Job { funded_total: 0, disbursed_total: 0 };
    let ops: [(bool, u64); 5] = [(true, 100), (false, 60), (true, 50), (false, 95), (false, 90)];
    let mut outcomes: Vec<bool> = Vec::new();
    for (is_fund, amount) in ops {
        let escrow = fresh_escrow();
        let r = if is_fund {
            fund_job_transition(
                &derived_escrow,
                &escrow_addr,
                &Some(escrow),
                &derived_job,
                &job_addr,
                &job,
                &id(SOURCE),
                &id(CUSTODY),
                amount,
            )
        } else {
            disburse_funds_transition(
                &Some(escrow),
                &id(OWNER_1),
                &derived_job,
                &job_addr,
                &job,
                &id(CUSTODY),
                &id(DESTINATION),
                amount,
            )
        };
        match r {
            Ok((j, _)) => {
                // Accepted operations never shrink a counter and keep the
                // conservation invariant.
                assert!(j.funded_total >= last.funded_total);
                assert!(j.disbursed_total >= last.disbursed_total);
                assert!(j.disbursed_total <= j.funded_total);
                last = j;
                job = Some(j);
                outcomes.push(true);
            }
            Err(_) => outcomes.push(false),
        }
    }
    assert_eq!(outcomes, vec![true, true, true, false, true]);
    assert_eq!(last, Job { funded_total: 150, disbursed_total: 150 });
}
