//! Instruction types and their wire codec.
//!
//! Byte 0 of an encoded instruction is a discriminant tag; the remaining
//! bytes are the operation's fixed-width payload with no padding and no
//! length prefix. Identifiers are 32 raw bytes; amounts are 8-byte unsigned
//! little-endian integers. Trailing bytes beyond the payload are ignored.

use vstd::prelude::*;
use vstd::bytes::{
    lemma_auto_spec_u64_to_from_le_bytes, spec_u64_from_le_bytes, spec_u64_to_le_bytes,
    u64_from_le_bytes, u64_to_le_bytes,
};
use vstd::slice::{slice_subrange, slice_to_vec};
use crate::derivation::{derive_escrow, derive_job, spec_derive_escrow, spec_derive_job};
use crate::error::EscrowError;
use crate::ids::{AccountId, ID_BYTES};

verus! {

/// The mathematical shape of an instruction: identifiers as byte sequences,
/// amounts as integers. Contracts speak of this shape.
pub enum InstructionView {
    /// Initialize the escrow account with an owner authority.
    InitEscrow { owner: Seq<u8> },
    /// Replace the escrow's owner authority.
    SetEscrowOwner { new_owner: Seq<u8> },
    /// Credit a job and move tokens into escrow custody.
    FundJob { amount: u64 },
    /// Debit a job and move tokens out of escrow custody.
    DisburseFunds { amount: u64 },
}

impl InstructionView {
    /// Identifier fields hold exactly 32 bytes.
    pub open spec fn wf(self) -> bool {
        match self {
            InstructionView::InitEscrow { owner } => owner.len() == ID_BYTES,
            InstructionView::SetEscrowOwner { new_owner } => new_owner.len() == ID_BYTES,
            InstructionView::FundJob { .. } => true,
            InstructionView::DisburseFunds { .. } => true,
        }
    }
}

/// Instructions supported by the RNDR escrow program.
#[derive(Debug, PartialEq, Eq)]
pub enum RNDRInstruction {
    // tag 0
    /// Initializes the escrow account.
    ///
    /// Accounts expected by this instruction:
    ///
    ///   0. `[writable]` Escrow derived account - uninitialized
    ///   1. `[writable]` Escrow token account
    ///   2. `[]` Token mint
    ///   3. `[]` Rent sysvar
    ///   4. `[]` Token program id
    InitEscrow {
        /// Owner authority which can disburse funds
        owner: AccountId,
    },

    // tag 1
    /// Sets the new owner of the escrow account.
    ///
    /// Accounts expected by this instruction:
    ///
    ///   0. `[writable]` Escrow derived account
    ///   1. `[signer]` Escrow owner
    SetEscrowOwner {
        /// The new owner
        new_owner: AccountId,
    },

    // tag 2
    /// Fund a job.
    ///
    /// Accounts expected by this instruction:
    ///
    ///   0. `[writable]` Source token account
    ///   1. `[writable]` Destination token account
    ///   2. `[writable]` Escrow derived account
    ///   3. `[writable]` Job derived account
    ///   4. `[signer]` Source token account authority
    ///   5. `[]` Rent sysvar
    ///   6. `[]` Token program id
    FundJob {
        /// Amount of tokens to escrow
        amount: u64,
    },

    // tag 3
    /// Disburse funds.
    ///
    /// Accounts expected by this instruction:
    ///
    ///   0. `[writable]` Source escrow token account
    ///   1. `[writable]` Destination token account
    ///   2. `[writable]` Escrow derived account
    ///   3. `[signer]` Escrow owner
    ///   4. `[]` Token program id
    DisburseFunds {
        /// Amount of tokens to disburse
        amount: u64,
    },
}

impl View for RNDRInstruction {
    type V = InstructionView;

    open spec fn view(&self) -> InstructionView {
        match self {
            RNDRInstruction::InitEscrow { owner } => InstructionView::InitEscrow { owner: owner@ },
            RNDRInstruction::SetEscrowOwner { new_owner } => InstructionView::SetEscrowOwner {
                new_owner: new_owner@,
            },
            RNDRInstruction::FundJob { amount } => InstructionView::FundJob { amount: *amount },
            RNDRInstruction::DisburseFunds { amount } => InstructionView::DisburseFunds {
                amount: *amount,
            },
        }
    }
}

/// The exact byte sequence that encodes an instruction.
pub open spec fn spec_pack(x: InstructionView) -> Seq<u8> {
    match x {
        InstructionView::InitEscrow { owner } => seq![0u8] + owner,
        InstructionView::SetEscrowOwner { new_owner } => seq![1u8] + new_owner,
        InstructionView::FundJob { amount } => seq![2u8] + spec_u64_to_le_bytes(amount),
        InstructionView::DisburseFunds { amount } => seq![3u8] + spec_u64_to_le_bytes(amount),
    }
}

/// What decoding a byte sequence yields: the instruction its tag and payload
/// spell, or the exact error owed to a malformed buffer.
pub open spec fn spec_unpack(input: Seq<u8>) -> Result<InstructionView, EscrowError> {
    if input.len() == 0 {
        Err(EscrowError::TruncatedInstruction)
    } else {
        let rest = input.subrange(1, input.len() as int);
        if input[0] == 0 {
            if rest.len() < ID_BYTES {
                Err(EscrowError::TruncatedInstruction)
            } else {
                Ok(InstructionView::InitEscrow { owner: rest.subrange(0, ID_BYTES as int) })
            }
        } else if input[0] == 1 {
            if rest.len() < ID_BYTES {
                Err(EscrowError::TruncatedInstruction)
            } else {
                Ok(InstructionView::SetEscrowOwner { new_owner: rest.subrange(0, ID_BYTES as int) })
            }
        } else if input[0] == 2 {
            if rest.len() < 8 {
                Err(EscrowError::TruncatedInstruction)
            } else {
                Ok(InstructionView::FundJob { amount: spec_u64_from_le_bytes(rest.subrange(0, 8)) })
            }
        } else if input[0] == 3 {
            if rest.len() < 8 {
                Err(EscrowError::TruncatedInstruction)
            } else {
                Ok(InstructionView::DisburseFunds {
                    amount: spec_u64_from_le_bytes(rest.subrange(0, 8)),
                })
            }
        } else {
            Err(EscrowError::UnknownInstruction)
        }
    }
}

/// A decode result, seen at the level of views.
pub open spec fn unpack_result_view(r: Result<RNDRInstruction, EscrowError>) -> Result<
    InstructionView,
    EscrowError,
> {
    match r {
        Ok(x) => Ok(x@),
        Err(e) => Err(e),
    }
}

impl RNDRInstruction {
    /// Unpacks a byte buffer into a [`RNDRInstruction`].
    pub fn unpack(input: &[u8]) -> (r: Result<RNDRInstruction, EscrowError>)
        ensures
            unpack_result_view(r) == spec_unpack(input@),
            r matches Ok(x) ==> x@.wf(),
    {
        if input.len() == 0 {
            return Err(EscrowError::TruncatedInstruction);
        }
        let tag = input[0];
        let rest = slice_subrange(input, 1, input.len());
        match tag {
            0 => match Self::unpack_pubkey(rest) {
                Ok(owner) => Ok(RNDRInstruction::InitEscrow { owner }),
                Err(e) => Err(e),
            },
            1 => match Self::unpack_pubkey(rest) {
                Ok(new_owner) => Ok(RNDRInstruction::SetEscrowOwner { new_owner }),
                Err(e) => Err(e),
            },
            2 => match Self::unpack_u64(rest) {
                Ok(amount) => Ok(RNDRInstruction::FundJob { amount }),
                Err(e) => Err(e),
            },
            3 => match Self::unpack_u64(rest) {
                Ok(amount) => Ok(RNDRInstruction::DisburseFunds { amount }),
                Err(e) => Err(e),
            },
            _ => Err(EscrowError::UnknownInstruction),
        }
    }

    /// Reads a 32-byte identifier from the front of a buffer.
    fn unpack_pubkey(input: &[u8]) -> (r: Result<AccountId, EscrowError>)
        ensures
            match r {
                Ok(id) => input@.len() >= ID_BYTES && id@ == input@.subrange(0, ID_BYTES as int),
                Err(e) => input@.len() < ID_BYTES && e == EscrowError::TruncatedInstruction,
            },
    {
        if input.len() < ID_BYTES {
            return Err(EscrowError::TruncatedInstruction);
        }
        let key = slice_subrange(input, 0, ID_BYTES);
        let bytes = slice_to_vec(key);
        match AccountId::from_bytes(bytes) {
            Some(id) => Ok(id),
            None => {
                proof {
                    assert(false);
                }
                Err(EscrowError::TruncatedInstruction)
            },
        }
    }

    /// Reads an 8-byte little-endian integer from the front of a buffer.
    fn unpack_u64(input: &[u8]) -> (r: Result<u64, EscrowError>)
        ensures
            match r {
                Ok(v) => input@.len() >= 8 && v == spec_u64_from_le_bytes(input@.subrange(0, 8)),
                Err(e) => input@.len() < 8 && e == EscrowError::TruncatedInstruction,
            },
    {
        if input.len() < 8 {
            return Err(EscrowError::TruncatedInstruction);
        }
        let bytes = slice_subrange(input, 0, 8);
        Ok(u64_from_le_bytes(bytes))
    }

    /// Packs a [`RNDRInstruction`] into a byte buffer. Encoding is total and
    /// infallible, and every constructible instruction has a well-formed view.
    pub fn pack(&self) -> (r: Vec<u8>)
        ensures
            r@ == spec_pack(self@),
            self@.wf(),
    {
        let mut buf: Vec<u8> = Vec::new();
        match self {
            RNDRInstruction::InitEscrow { owner } => {
                proof {
                    use_type_invariant(owner);
                }
                buf.push(0);
                buf.extend_from_slice(owner.as_bytes().as_slice());
            },
            RNDRInstruction::SetEscrowOwner { new_owner } => {
                proof {
                    use_type_invariant(new_owner);
                }
                buf.push(1);
                buf.extend_from_slice(new_owner.as_bytes().as_slice());
            },
            RNDRInstruction::FundJob { amount } => {
                buf.push(2);
                let mut payload = u64_to_le_bytes(*amount);
                buf.append(&mut payload);
            },
            RNDRInstruction::DisburseFunds { amount } => {
                buf.push(3);
                let mut payload = u64_to_le_bytes(*amount);
                buf.append(&mut payload);
            },
        }
        proof {
            assert(buf@ =~= spec_pack(self@));
        }
        buf
    }
}

/// Round trip of the codec: decoding an encoding yields the value that was
/// encoded, for every instruction whose identifier fields hold 32 bytes —
/// which every constructible [`RNDRInstruction`] does.
pub proof fn lemma_pack_unpack(x: InstructionView)
    requires
        x.wf(),
    ensures
        spec_unpack(spec_pack(x)) == Ok::<InstructionView, EscrowError>(x),
{
    lemma_auto_spec_u64_to_from_le_bytes();
    let enc = spec_pack(x);
    let rest = enc.subrange(1, enc.len() as int);
    match x {
        InstructionView::InitEscrow { owner } => {
            assert(rest =~= owner);
            assert(rest.subrange(0, ID_BYTES as int) =~= owner);
        },
        InstructionView::SetEscrowOwner { new_owner } => {
            assert(rest =~= new_owner);
            assert(rest.subrange(0, ID_BYTES as int) =~= new_owner);
        },
        InstructionView::FundJob { amount } => {
            assert(rest =~= spec_u64_to_le_bytes(amount));
            assert(rest.subrange(0, 8) =~= spec_u64_to_le_bytes(amount));
        },
        InstructionView::DisburseFunds { amount } => {
            assert(rest =~= spec_u64_to_le_bytes(amount));
            assert(rest.subrange(0, 8) =~= spec_u64_to_le_bytes(amount));
        },
    }
}

/// Decoding rejects exactly the malformed buffers: an empty buffer, a buffer
/// shorter than the minimum length its tag requires, and a buffer whose first
/// byte is not a known tag.
pub proof fn lemma_unpack_rejects(input: Seq<u8>)
    ensures
        input.len() == 0 ==> spec_unpack(input) == Err::<InstructionView, _>(
            EscrowError::TruncatedInstruction,
        ),
        input.len() > 0 && (input[0] == 0 || input[0] == 1) && input.len() < 1 + ID_BYTES
            ==> spec_unpack(input) == Err::<InstructionView, _>(EscrowError::TruncatedInstruction),
        input.len() > 0 && (input[0] == 2 || input[0] == 3) && input.len() < 9 ==> spec_unpack(
            input,
        ) == Err::<InstructionView, _>(EscrowError::TruncatedInstruction),
        input.len() > 0 && input[0] > 3 ==> spec_unpack(input) == Err::<InstructionView, _>(
            EscrowError::UnknownInstruction,
        ),
{
}

/// The fixed address of the token program.
pub open spec fn token_program_id_bytes() -> Seq<u8> {
    seq![
        6u8, 221u8, 246u8, 225u8, 215u8, 101u8, 161u8, 147u8, 217u8, 203u8, 225u8, 70u8, 206u8,
        235u8, 121u8, 172u8, 28u8, 180u8, 133u8, 237u8, 95u8, 91u8, 55u8, 145u8, 58u8, 140u8,
        245u8, 133u8, 126u8, 255u8, 0u8, 169u8,
    ]
}

/// The fixed address of the rent sysvar.
pub open spec fn rent_sysvar_id_bytes() -> Seq<u8> {
    seq![
        6u8, 167u8, 213u8, 23u8, 25u8, 44u8, 92u8, 81u8, 33u8, 140u8, 201u8, 76u8, 61u8, 74u8,
        241u8, 127u8, 88u8, 218u8, 238u8, 8u8, 155u8, 161u8, 253u8, 68u8, 227u8, 219u8, 217u8,
        138u8, 0u8, 0u8, 0u8, 0u8,
    ]
}

/// Relies on `spl_token::id()`: the token program's fixed, documented
/// address (base58 `Tokenkeg...`).
#[verifier::external_body]
fn token_program_id() -> (r: AccountId)
    ensures
        r@ == token_program_id_bytes(),
{
    AccountId::from_bytes(spl_token::id().to_bytes().to_vec()).unwrap()
}

/// Relies on `solana_program::sysvar::rent::id()`: the rent sysvar's fixed,
/// documented address (base58 `SysvarRent...`).
#[verifier::external_body]
fn rent_sysvar_id() -> (r: AccountId)
    ensures
        r@ == rent_sysvar_id_bytes(),
{
    AccountId::from_bytes(solana_program::sysvar::rent::id().to_bytes().to_vec()).unwrap()
}

/// One account reference an instruction carries: an address plus its signer
/// and writable flags.
#[derive(Debug, PartialEq, Eq)]
pub struct AccountRef {
    /// The referenced account's address.
    pub pubkey: AccountId,
    /// Whether the transaction must carry this account's signature.
    pub is_signer: bool,
    /// Whether the instruction may write to this account.
    pub is_writable: bool,
}

/// An account reference has the given address and flags.
pub open spec fn account_ref_is(a: AccountRef, pubkey: Seq<u8>, is_signer: bool, is_writable: bool) -> bool {
    a.pubkey@ == pubkey && a.is_signer == is_signer && a.is_writable == is_writable
}

impl AccountRef {
    /// A writable account reference.
    pub fn new(pubkey: AccountId, is_signer: bool) -> (r: AccountRef)
        ensures
            account_ref_is(r, pubkey@, is_signer, true),
    {
        AccountRef { pubkey, is_signer, is_writable: true }
    }

    /// A read-only account reference.
    pub fn new_readonly(pubkey: AccountId, is_signer: bool) -> (r: AccountRef)
        ensures
            account_ref_is(r, pubkey@, is_signer, false),
    {
        AccountRef { pubkey, is_signer, is_writable: false }
    }
}

/// A host-level instruction: the program addressed, the ordered account
/// references the operation needs, and the encoded payload.
#[derive(Debug, PartialEq, Eq)]
pub struct InstructionEnvelope {
    /// The program the instruction addresses.
    pub program_id: AccountId,
    /// The ordered account references the operation expects.
    pub accounts: Vec<AccountRef>,
    /// The encoded instruction payload.
    pub data: Vec<u8>,
}

/// Creates an 'InitEscrow' instruction.
pub fn init_escrow(
    program_id: AccountId,
    owner: AccountId,
    token_account: AccountId,
    token_mint: AccountId,
) -> (r: Result<InstructionEnvelope, EscrowError>)
    ensures
        match spec_derive_escrow(program_id@) {
            None => r == Err::<InstructionEnvelope, _>(EscrowError::DerivationFailure),
            Some((escrow_addr, bump)) => r matches Ok(env) && env.program_id@ == program_id@
                && env.data@ == spec_pack(InstructionView::InitEscrow { owner: owner@ })
                && env.accounts@.len() == 5
                && account_ref_is(env.accounts@[0], escrow_addr, false, true)
                && account_ref_is(env.accounts@[1], token_account@, false, true)
                && account_ref_is(env.accounts@[2], token_mint@, false, false)
                && account_ref_is(env.accounts@[3], rent_sysvar_id_bytes(), false, false)
                && account_ref_is(env.accounts@[4], token_program_id_bytes(), false, false),
        },
{
    match derive_escrow(&program_id) {
        None => Err(EscrowError::DerivationFailure),
        Some((escrow_pubkey, _bump_seed)) => {
            let ix = RNDRInstruction::InitEscrow { owner };
            let data = ix.pack();
            let mut accounts: Vec<AccountRef> = Vec::new();
            accounts.push(AccountRef::new(escrow_pubkey, false));
            accounts.push(AccountRef::new(token_account, false));
            accounts.push(AccountRef::new_readonly(token_mint, false));
            accounts.push(AccountRef::new_readonly(rent_sysvar_id(), false));
            accounts.push(AccountRef::new_readonly(token_program_id(), false));
            Ok(InstructionEnvelope { program_id, accounts, data })
        },
    }
}

/// Creates a 'SetEscrowOwner' instruction.
pub fn set_escrow_owner(
    program_id: AccountId,
    escrow_owner: AccountId,
    new_owner: AccountId,
) -> (r: Result<InstructionEnvelope, EscrowError>)
    ensures
        match spec_derive_escrow(program_id@) {
            None => r == Err::<InstructionEnvelope, _>(EscrowError::DerivationFailure),
            Some((escrow_addr, bump)) => r matches Ok(env) && env.program_id@ == program_id@
                && env.data@ == spec_pack(
                InstructionView::SetEscrowOwner { new_owner: new_owner@ },
            ) && env.accounts@.len() == 2 && account_ref_is(env.accounts@[0], escrow_addr, false, true)
                && account_ref_is(env.accounts@[1], escrow_owner@, true, false),
        },
{
    match derive_escrow(&program_id) {
        None => Err(EscrowError::DerivationFailure),
        Some((escrow_pubkey, _bump_seed)) => {
            let ix = RNDRInstruction::SetEscrowOwner { new_owner };
            let data = ix.pack();
            let mut accounts: Vec<AccountRef> = Vec::new();
            accounts.push(AccountRef::new(escrow_pubkey, false));
            accounts.push(AccountRef::new_readonly(escrow_owner, true));
            Ok(InstructionEnvelope { program_id, accounts, data })
        },
    }
}

/// Creates a 'FundJob' instruction.
pub fn fund_job(
    program_id: AccountId,
    amount: u64,
    source_token_account: AccountId,
    destination_token_account: AccountId,
    authority: AccountId,
) -> (r: Result<InstructionEnvelope, EscrowError>)
    ensures
        match (spec_derive_escrow(program_id@), spec_derive_job(program_id@, authority@)) {
            (Some((escrow_addr, eb)), Some((job_addr, jb))) => r matches Ok(env)
                && env.program_id@ == program_id@
                && env.data@ == spec_pack(InstructionView::FundJob { amount })
                && env.accounts@.len() == 7
                && account_ref_is(env.accounts@[0], source_token_account@, false, true)
                && account_ref_is(env.accounts@[1], destination_token_account@, false, true)
                && account_ref_is(env.accounts@[2], escrow_addr, false, true)
                && account_ref_is(env.accounts@[3], job_addr, false, true)
                && account_ref_is(env.accounts@[4], authority@, true, false)
                && account_ref_is(env.accounts@[5], rent_sysvar_id_bytes(), false, false)
                && account_ref_is(env.accounts@[6], token_program_id_bytes(), false, false),
            _ => r == Err::<InstructionEnvelope, _>(EscrowError::DerivationFailure),
        },
{
    match derive_escrow(&program_id) {
        None => Err(EscrowError::DerivationFailure),
        Some((escrow_pubkey, _bump_seed)) => match derive_job(&program_id, &authority) {
            None => Err(EscrowError::DerivationFailure),
            Some((job_pubkey, _job_bump)) => {
                let ix = RNDRInstruction::FundJob { amount };
                let data = ix.pack();
                let mut accounts: Vec<AccountRef> = Vec::new();
                accounts.push(AccountRef::new(source_token_account, false));
                accounts.push(AccountRef::new(destination_token_account, false));
                accounts.push(AccountRef::new(escrow_pubkey, false));
                accounts.push(AccountRef::new(job_pubkey, false));
                accounts.push(AccountRef::new_readonly(authority, true));
                accounts.push(AccountRef::new_readonly(rent_sysvar_id(), false));
                accounts.push(AccountRef::new_readonly(token_program_id(), false));
                Ok(InstructionEnvelope { program_id, accounts, data })
            },
        },
    }
}

/// Creates a 'DisburseFunds' instruction.
pub fn disburse_funds(
    program_id: AccountId,
    amount: u64,
    source_token_account: AccountId,
    destination_token_account: AccountId,
    escrow_owner: AccountId,
) -> (r: Result<InstructionEnvelope, EscrowError>)
    ensures
        match spec_derive_escrow(program_id@) {
            None => r == Err::<InstructionEnvelope, _>(EscrowError::DerivationFailure),
            Some((escrow_addr, bump)) => r matches Ok(env) && env.program_id@ == program_id@
                && env.data@ == spec_pack(InstructionView::DisburseFunds { amount })
                && env.accounts@.len() == 5
                && account_ref_is(env.accounts@[0], source_token_account@, false, true)
                && account_ref_is(env.accounts@[1], destination_token_account@, false, true)
                && account_ref_is(env.accounts@[2], escrow_addr, false, true)
                && account_ref_is(env.accounts@[3], escrow_owner@, true, false)
                && account_ref_is(env.accounts@[4], token_program_id_bytes(), false, false),
        },
{
    match derive_escrow(&program_id) {
        None => Err(EscrowError::DerivationFailure),
        Some((escrow_pubkey, _bump_seed)) => {
            let ix = RNDRInstruction::DisburseFunds { amount };
            let data = ix.pack();
            let mut accounts: Vec<AccountRef> = Vec::new();
            accounts.push(AccountRef::new(source_token_account, false));
            accounts.push(AccountRef::new(destination_token_account, false));
            accounts.push(AccountRef::new(escrow_pubkey, false));
            accounts.push(AccountRef::new_readonly(escrow_owner, true));
            accounts.push(AccountRef::new_readonly(token_program_id(), false));
            Ok(InstructionEnvelope { program_id, accounts, data })
        },
    }
}

} // verus!
