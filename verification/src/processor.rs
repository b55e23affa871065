use vstd::prelude::*;
use vstd::slice::slice_to_vec;
use crate::address::{
    associated_token_address, escrow_address, escrow_seed, escrow_seed_bytes, pda_for_hash,
    same_address, sha256, sha256_digest, token_account_of, unpack_token_account, vault_address,
    TokenAccount,
};
use crate::error::{EscrowError, Failure};
use crate::instruction::{decode_instruction, parse_ix, EscrowIx};
use crate::state::{decode_record, Address, EscrowState, Status, V1};

verus! {

/// An account as the caller handed it in: its address, the two flags and a
/// copy of its data.
#[derive(Clone, Debug, PartialEq, Eq)]
pub struct Account {
    pub key: Address,
    pub is_signer: bool,
    pub is_writable: bool,
    pub data: Vec<u8>,
}

/// A request to the token-transfer service.
#[derive(Clone, Copy, Debug, PartialEq, Eq)]
pub struct Transfer {
    pub source: Address,
    pub destination: Address,
    pub authority: Address,
    pub amount: u64,
}

/// The escrow's own signing capability: the domain tag, this commitment and
/// this nonce derive the escrow's address, and nothing else does.
#[derive(Clone, Copy, Debug, PartialEq, Eq)]
pub struct SignerSeeds {
    pub payment_hash: [u8; 32],
    pub bump: u8,
}

impl SignerSeeds {
    /// The seeds that sign for the escrow, in order: the domain tag, the
    /// commitment, the nonce.
    pub fn seeds(&self) -> (r: Vec<Vec<u8>>)
        ensures
            r@.len() == 3,
            r@[0]@ == escrow_seed_bytes(),
            r@[1]@ == self.payment_hash@,
            r@[2]@ == seq![self.bump],
    {
        let tag = escrow_seed();
        let mut nonce: Vec<u8> = Vec::new();
        nonce.push(self.bump);
        assert(nonce@ =~= seq![self.bump]);
        let mut out: Vec<Vec<u8>> = Vec::new();
        out.push(slice_to_vec(tag.as_slice()));
        out.push(slice_to_vec(self.payment_hash.as_slice()));
        out.push(nonce);
        out
    }
}

/// What a validated `Init` asks of the outside services, in this order:
/// create the escrow account, sized for a record and rent-exempt, signed with
/// `seeds`; create the vault if there is none; transfer; persist the record.
#[derive(Clone, Copy, Debug, PartialEq, Eq)]
pub struct InitPlan {
    /// The vault does not exist yet: create it for the escrow and the mint.
    pub create_vault: bool,
    /// The deposit, authorized by the depositor's own signature.
    pub transfer: Transfer,
    pub seeds: SignerSeeds,
    /// The record to persist once the transfer has gone through.
    pub record: EscrowState,
}

/// What a validated `Claim` or `Refund` asks: one transfer of the whole
/// amount out of the vault, signed with `seeds`, then the settled record.
#[derive(Clone, Copy, Debug, PartialEq, Eq)]
pub struct Settlement {
    pub transfer: Transfer,
    pub seeds: SignerSeeds,
    pub record: EscrowState,
}

/// What a validated instruction asks for.
#[derive(Clone, Copy, Debug, PartialEq, Eq)]
pub enum Action {
    Init(InitPlan),
    Settle(Settlement),
}

/// What unlocks a settlement: the digest of a revealed preimage, or the time
/// that the oracle reports (`None` where it could not be read).
#[derive(Clone, Copy, Debug, PartialEq, Eq)]
pub enum Unlock {
    Preimage { digest: [u8; 32] },
    Deadline { now: Option<i64> },
}

/// The number of accounts that `Init` takes.
pub const INIT_ACCOUNTS: usize = 9;

/// The number of accounts that `Claim` takes.
pub const CLAIM_ACCOUNTS: usize = 5;

/// The number of accounts that `Refund` takes.
pub const REFUND_ACCOUNTS: usize = 6;

/// Whether the derivation gave this address.
pub open spec fn derived_is(derived: Option<(Address, u8)>, key: Address) -> bool {
    derived matches Some(pair) && pair.0 == key
}

/// The nonce that the derivation gave, 0 where it gave none.
pub open spec fn derived_bump(derived: Option<(Address, u8)>) -> u8 {
    match derived {
        Some(pair) => pair.1,
        None => 0,
    }
}

/// The record that a successful `Init` persists.
pub open spec fn new_record(
    payment_hash: [u8; 32],
    recipient: Address,
    refund: Address,
    refund_after: i64,
    mint: Address,
    amount: u64,
    vault: Address,
    bump: u8,
) -> EscrowState {
    EscrowState {
        v: V1,
        status: Status::Active,
        payment_hash,
        recipient,
        refund,
        refund_after,
        mint,
        amount,
        vault,
        bump,
    }
}

/// What `Init` decides, given the escrow address derived for the commitment,
/// the vault address derived for escrow and mint, and what the depositor's
/// token account declares. The checks come in this order; the first that
/// fails names the error. An escrow account that holds data already stands
/// for a commitment in use: nothing is planned over it.
pub open spec fn init_outcome(
    accounts: Seq<Account>,
    payment_hash: [u8; 32],
    recipient: Address,
    refund: Address,
    refund_after: i64,
    amount: u64,
    derived: Option<(Address, u8)>,
    expected_vault: Option<Address>,
    payer_token: Option<TokenAccount>,
) -> Result<InitPlan, Failure> {
    if accounts.len() < INIT_ACCOUNTS {
        Err(Failure::NotEnoughAccountKeys)
    } else if !accounts[0].is_signer {
        Err(Failure::Escrow(EscrowError::InvalidSigner))
    } else if !accounts[0].is_writable || !accounts[1].is_writable || !accounts[2].is_writable
        || !accounts[3].is_writable {
        Err(Failure::InvalidAccountData)
    } else if !derived_is(derived, accounts[2].key) {
        Err(Failure::Escrow(EscrowError::InvalidEscrowAddress))
    } else if expected_vault != Some(accounts[3].key) {
        Err(Failure::Escrow(EscrowError::InvalidVaultAccount))
    } else if payer_token is None || payer_token->0.owner != accounts[0].key || payer_token->0.mint
        != accounts[4].key || payer_token->0.amount < amount {
        Err(Failure::Escrow(EscrowError::InvalidTokenAccount))
    } else if accounts[2].data.len() != 0 {
        Err(Failure::AccountAlreadyInitialized)
    } else {
        Ok(
            InitPlan {
                create_vault: accounts[3].data.len() == 0,
                transfer: Transfer {
                    source: accounts[1].key,
                    destination: accounts[3].key,
                    authority: accounts[0].key,
                    amount,
                },
                seeds: SignerSeeds { payment_hash, bump: derived_bump(derived) },
                record: new_record(
                    payment_hash,
                    recipient,
                    refund,
                    refund_after,
                    accounts[4].key,
                    amount,
                    accounts[3].key,
                    derived_bump(derived),
                ),
            },
        )
    }
}

/// The number of accounts that a settlement takes.
pub open spec fn accounts_needed(unlock: Unlock) -> int {
    match unlock {
        Unlock::Preimage { .. } => CLAIM_ACCOUNTS as int,
        Unlock::Deadline { .. } => REFUND_ACCOUNTS as int,
    }
}

/// The party that a record entitles to a settlement.
pub open spec fn entitled(record: EscrowState, unlock: Unlock) -> Address {
    match unlock {
        Unlock::Preimage { .. } => record.recipient,
        Unlock::Deadline { .. } => record.refund,
    }
}

/// Why a record stays locked, if it does: the digest is not the commitment,
/// or the time is not known or lies before the deadline.
pub open spec fn locked(record: EscrowState, unlock: Unlock) -> Option<Failure> {
    match unlock {
        Unlock::Preimage { digest } => if digest != record.payment_hash {
            Some(Failure::Escrow(EscrowError::InvalidPreimage))
        } else {
            None
        },
        Unlock::Deadline { now } => match now {
            None => Some(Failure::ClockUnavailable),
            Some(t) => if t < record.refund_after {
                Some(Failure::Escrow(EscrowError::TooEarly))
            } else {
                None
            },
        },
    }
}

/// The status that a settlement leaves behind.
pub open spec fn settled_status(unlock: Unlock) -> Status {
    match unlock {
        Unlock::Preimage { .. } => Status::Claimed,
        Unlock::Deadline { .. } => Status::Refunded,
    }
}

/// A record after its settlement: terminal status, nothing left in escrow,
/// all else as it was.
pub open spec fn settled(record: EscrowState, unlock: Unlock) -> EscrowState {
    EscrowState { status: settled_status(unlock), amount: 0, ..record }
}

/// What `Claim` or `Refund` decides, given the record that the escrow account
/// holds, the escrow address derived for its commitment, the vault address
/// derived for escrow and mint, and what the vault and the destination
/// declare. The checks come in this order; the first that fails names the
/// error.
pub open spec fn settle_outcome(
    accounts: Seq<Account>,
    unlock: Unlock,
    record: Option<EscrowState>,
    derived: Option<(Address, u8)>,
    expected_vault: Option<Address>,
    vault_token: Option<TokenAccount>,
    dest_token: Option<TokenAccount>,
) -> Result<Settlement, Failure> {
    if accounts.len() < accounts_needed(unlock) {
        Err(Failure::NotEnoughAccountKeys)
    } else if !accounts[0].is_signer {
        Err(Failure::Escrow(EscrowError::InvalidSigner))
    } else if !accounts[1].is_writable || !accounts[2].is_writable || !accounts[3].is_writable {
        Err(Failure::InvalidAccountData)
    } else if record is None {
        Err(Failure::InvalidAccountData)
    } else if record->0.status != Status::Active {
        Err(Failure::Escrow(EscrowError::NotActive))
    } else if entitled(record->0, unlock) != accounts[0].key {
        Err(Failure::Escrow(EscrowError::InvalidSigner))
    } else if record->0.vault != accounts[2].key {
        Err(Failure::Escrow(EscrowError::InvalidVaultAccount))
    } else if locked(record->0, unlock) is Some {
        Err(locked(record->0, unlock)->0)
    } else if vault_token is None || dest_token is None {
        Err(Failure::Escrow(EscrowError::InvalidTokenAccount))
    } else if vault_token->0.mint != record->0.mint || dest_token->0.mint != record->0.mint {
        Err(Failure::Escrow(EscrowError::InvalidTokenAccount))
    } else if dest_token->0.owner != accounts[0].key {
        Err(Failure::Escrow(EscrowError::InvalidTokenAccount))
    } else if !derived_is(derived, accounts[1].key) || derived_bump(derived) != record->0.bump {
        Err(Failure::Escrow(EscrowError::InvalidEscrowAddress))
    } else if expected_vault != Some(accounts[2].key) || vault_token->0.owner != accounts[1].key {
        Err(Failure::Escrow(EscrowError::InvalidVaultAccount))
    } else {
        Ok(
            Settlement {
                transfer: Transfer {
                    source: accounts[2].key,
                    destination: accounts[3].key,
                    authority: accounts[1].key,
                    amount: record->0.amount,
                },
                seeds: SignerSeeds { payment_hash: record->0.payment_hash, bump: record->0.bump },
                record: settled(record->0, unlock),
            },
        )
    }
}

/// Whether a derivation gave this address.
pub fn is_address(derived: Option<Address>, key: &Address) -> (r: bool)
    ensures
        r == (derived == Some(*key)),
{
    match derived {
        Some(address) => same_address(&address, key),
        None => false,
    }
}

/// Fails `InvalidSigner` unless the account signed.
pub fn assert_signer(account: &Account) -> (r: Result<(), Failure>)
    ensures
        r is Ok <==> account.is_signer,
        r matches Err(e) ==> e == Failure::Escrow(EscrowError::InvalidSigner),
{
    if !account.is_signer {
        return Err(Failure::Escrow(EscrowError::InvalidSigner));
    }
    Ok(())
}

/// Fails with the generic invalid-account-data error unless the account is
/// writable.
pub fn assert_writable(account: &Account) -> (r: Result<(), Failure>)
    ensures
        r is Ok <==> account.is_writable,
        r matches Err(e) ==> e == Failure::InvalidAccountData,
{
    if !account.is_writable {
        return Err(Failure::InvalidAccountData);
    }
    Ok(())
}

/// Fails `NotActive` unless the record is still active.
pub fn require_active(state: &EscrowState) -> (r: Result<(), Failure>)
    ensures
        r is Ok <==> state.status == Status::Active,
        r matches Err(e) ==> e == Failure::Escrow(EscrowError::NotActive),
{
    match state.status {
        Status::Active => Ok(()),
        _ => Err(Failure::Escrow(EscrowError::NotActive)),
    }
}

/// Decides an `Init` from the accounts, the instruction's fields and the
/// derived values.
pub fn decide_init(
    accounts: &[Account],
    payment_hash: [u8; 32],
    recipient: Address,
    refund: Address,
    refund_after: i64,
    amount: u64,
    derived: Option<(Address, u8)>,
    expected_vault: Option<Address>,
    payer_token: Option<TokenAccount>,
) -> (r: Result<InitPlan, Failure>)
    ensures
        r == init_outcome(
            accounts@,
            payment_hash,
            recipient,
            refund,
            refund_after,
            amount,
            derived,
            expected_vault,
            payer_token,
        ),
{
    if accounts.len() < INIT_ACCOUNTS {
        return Err(Failure::NotEnoughAccountKeys);
    }
    let payer = &accounts[0];
    let payer_token_account = &accounts[1];
    let escrow = &accounts[2];
    let vault = &accounts[3];
    let mint = &accounts[4];
    if let Err(e) = assert_signer(payer) {
        return Err(e);
    }
    if let Err(e) = assert_writable(payer) {
        return Err(e);
    }
    if let Err(e) = assert_writable(payer_token_account) {
        return Err(e);
    }
    if let Err(e) = assert_writable(escrow) {
        return Err(e);
    }
    if let Err(e) = assert_writable(vault) {
        return Err(e);
    }
    let bump: u8 = match derived {
        Some((address, bump)) => {
            if !same_address(&address, &escrow.key) {
                return Err(Failure::Escrow(EscrowError::InvalidEscrowAddress));
            }
            bump
        },
        None => { return Err(Failure::Escrow(EscrowError::InvalidEscrowAddress)); },
    };
    if !is_address(expected_vault, &vault.key) {
        return Err(Failure::Escrow(EscrowError::InvalidVaultAccount));
    }
    match payer_token {
        Some(t) => {
            if !same_address(&t.owner, &payer.key) || !same_address(&t.mint, &mint.key) || t.amount
                < amount {
                return Err(Failure::Escrow(EscrowError::InvalidTokenAccount));
            }
        },
        None => { return Err(Failure::Escrow(EscrowError::InvalidTokenAccount)); },
    }
    if escrow.data.len() != 0 {
        return Err(Failure::AccountAlreadyInitialized);
    }
    Ok(
        InitPlan {
            create_vault: vault.data.len() == 0,
            transfer: Transfer {
                source: payer_token_account.key,
                destination: vault.key,
                authority: payer.key,
                amount,
            },
            seeds: SignerSeeds { payment_hash, bump },
            record: EscrowState {
                v: V1,
                status: Status::Active,
                payment_hash,
                recipient,
                refund,
                refund_after,
                mint: mint.key,
                amount,
                vault: vault.key,
                bump,
            },
        },
    )
}

/// Decides a `Claim` or a `Refund` from the accounts, the record and the
/// derived values.
pub fn decide_settlement(
    accounts: &[Account],
    unlock: Unlock,
    record: Option<EscrowState>,
    derived: Option<(Address, u8)>,
    expected_vault: Option<Address>,
    vault_token: Option<TokenAccount>,
    dest_token: Option<TokenAccount>,
) -> (r: Result<Settlement, Failure>)
    ensures
        r == settle_outcome(
            accounts@,
            unlock,
            record,
            derived,
            expected_vault,
            vault_token,
            dest_token,
        ),
{
    let needed: usize = match unlock {
        Unlock::Preimage { .. } => CLAIM_ACCOUNTS,
        Unlock::Deadline { .. } => REFUND_ACCOUNTS,
    };
    if accounts.len() < needed {
        return Err(Failure::NotEnoughAccountKeys);
    }
    let party = &accounts[0];
    let escrow = &accounts[1];
    let vault = &accounts[2];
    let dest = &accounts[3];
    if let Err(e) = assert_signer(party) {
        return Err(e);
    }
    if let Err(e) = assert_writable(escrow) {
        return Err(e);
    }
    if let Err(e) = assert_writable(vault) {
        return Err(e);
    }
    if let Err(e) = assert_writable(dest) {
        return Err(e);
    }
    let state = match record {
        Some(state) => state,
        None => { return Err(Failure::InvalidAccountData); },
    };
    if let Err(e) = require_active(&state) {
        return Err(e);
    }
    let entitled_party: Address = match unlock {
        Unlock::Preimage { .. } => state.recipient,
        Unlock::Deadline { .. } => state.refund,
    };
    if !same_address(&entitled_party, &party.key) {
        return Err(Failure::Escrow(EscrowError::InvalidSigner));
    }
    if !same_address(&state.vault, &vault.key) {
        return Err(Failure::Escrow(EscrowError::InvalidVaultAccount));
    }
    let status = match unlock {
        Unlock::Preimage { digest } => {
            if !same_address(&digest, &state.payment_hash) {
                return Err(Failure::Escrow(EscrowError::InvalidPreimage));
            }
            Status::Claimed
        },
        Unlock::Deadline { now } => {
            match now {
                Some(t) => {
                    if t < state.refund_after {
                        return Err(Failure::Escrow(EscrowError::TooEarly));
                    }
                },
                None => { return Err(Failure::ClockUnavailable); },
            }
            Status::Refunded
        },
    };
    let (v, d) = match (vault_token, dest_token) {
        (Some(v), Some(d)) => (v, d),
        _ => { return Err(Failure::Escrow(EscrowError::InvalidTokenAccount)); },
    };
    if !same_address(&v.mint, &state.mint) || !same_address(&d.mint, &state.mint) {
        return Err(Failure::Escrow(EscrowError::InvalidTokenAccount));
    }
    if !same_address(&d.owner, &party.key) {
        return Err(Failure::Escrow(EscrowError::InvalidTokenAccount));
    }
    match derived {
        Some((address, bump)) => {
            if !same_address(&address, &escrow.key) || bump != state.bump {
                return Err(Failure::Escrow(EscrowError::InvalidEscrowAddress));
            }
        },
        None => { return Err(Failure::Escrow(EscrowError::InvalidEscrowAddress)); },
    }
    if !is_address(expected_vault, &vault.key) || !same_address(&v.owner, &escrow.key) {
        return Err(Failure::Escrow(EscrowError::InvalidVaultAccount));
    }
    Ok(
        Settlement {
            transfer: Transfer {
                source: vault.key,
                destination: dest.key,
                authority: escrow.key,
                amount: state.amount,
            },
            seeds: SignerSeeds { payment_hash: state.payment_hash, bump: state.bump },
            record: EscrowState {
                v: state.v,
                status,
                payment_hash: state.payment_hash,
                recipient: state.recipient,
                refund: state.refund,
                refund_after: state.refund_after,
                mint: state.mint,
                amount: 0,
                vault: state.vault,
                bump: state.bump,
            },
        },
    )
}

/// What `Init` returns: the decision on the escrow address derived for the
/// commitment, the vault address derived for the escrow account and the
/// mint, and what the depositor's token account declares.
pub open spec fn init_result(
    program_id: Address,
    accounts: Seq<Account>,
    payment_hash: [u8; 32],
    recipient: Address,
    refund: Address,
    refund_after: i64,
    amount: u64,
) -> Result<InitPlan, Failure> {
    init_outcome(
        accounts,
        payment_hash,
        recipient,
        refund,
        refund_after,
        amount,
        escrow_address(program_id, payment_hash),
        vault_address(accounts[2].key, accounts[4].key),
        token_account_of(accounts[1].data@),
    )
}

/// The escrow address derived for the commitment of the record that the
/// escrow account holds; none without a record.
pub open spec fn record_address(program_id: Address, record: Option<EscrowState>) -> Option<
    (Address, u8),
> {
    match record {
        Some(state) => escrow_address(program_id, state.payment_hash),
        None => None,
    }
}

/// The vault address derived for the escrow account and the record's mint;
/// none without a record.
pub open spec fn record_vault(accounts: Seq<Account>, record: Option<EscrowState>) -> Option<Address> {
    match record {
        Some(state) => vault_address(accounts[1].key, state.mint),
        None => None,
    }
}

/// What `Claim` or `Refund` returns: the decision on the record that the
/// escrow account holds, the addresses derived for it, and what the vault
/// and the destination declare.
pub open spec fn settle_result(program_id: Address, accounts: Seq<Account>, unlock: Unlock) -> Result<
    Settlement,
    Failure,
> {
    let record = decode_record(accounts[1].data@);
    settle_outcome(
        accounts,
        unlock,
        record,
        record_address(program_id, record),
        record_vault(accounts, record),
        token_account_of(accounts[2].data@),
        token_account_of(accounts[3].data@),
    )
}

/// What `Claim` returns for a preimage: the settlement unlocked by the
/// preimage's digest.
pub open spec fn claim_result(program_id: Address, accounts: Seq<Account>, preimage: [u8; 32]) -> Result<
    Settlement,
    Failure,
> {
    settle_result(program_id, accounts, Unlock::Preimage { digest: sha256_digest(preimage@) })
}

/// What `Refund` returns at a time: the settlement unlocked by the deadline.
pub open spec fn refund_result(program_id: Address, accounts: Seq<Account>, now: Option<i64>) -> Result<
    Settlement,
    Failure,
> {
    settle_result(program_id, accounts, Unlock::Deadline { now })
}

/// What an invocation returns: the decoded instruction's transition, or
/// `InvalidInstruction`.
pub open spec fn instruction_result(
    program_id: Address,
    accounts: Seq<Account>,
    data: Seq<u8>,
    now: Option<i64>,
) -> Result<Action, Failure> {
    match decode_instruction(data) {
        Err(e) => Err(Failure::Escrow(e)),
        Ok(EscrowIx::Init { payment_hash, recipient, refund, refund_after, amount }) => match init_result(
            program_id,
            accounts,
            payment_hash,
            recipient,
            refund,
            refund_after,
            amount,
        ) {
            Ok(plan) => Ok(Action::Init(plan)),
            Err(e) => Err(e),
        },
        Ok(EscrowIx::Claim { preimage }) => match claim_result(program_id, accounts, preimage) {
            Ok(s) => Ok(Action::Settle(s)),
            Err(e) => Err(e),
        },
        Ok(EscrowIx::Refund) => match refund_result(program_id, accounts, now) {
            Ok(s) => Ok(Action::Settle(s)),
            Err(e) => Err(e),
        },
    }
}

/// `Init`: validates the nine accounts against the derived addresses and the
/// depositor's token account, and plans account creation, the deposit and
/// the new record. Nothing is planned unless every check passes, and nothing
/// over an escrow account that exists already.
pub fn process_init(
    program_id: &Address,
    accounts: &[Account],
    payment_hash: [u8; 32],
    recipient: Address,
    refund: Address,
    refund_after: i64,
    amount: u64,
) -> (r: Result<InitPlan, Failure>)
    ensures
        r == init_result(
            *program_id,
            accounts@,
            payment_hash,
            recipient,
            refund,
            refund_after,
            amount,
        ),
        r matches Ok(plan) ==> plan.record.status == Status::Active && plan.record.amount == amount
            && plan.transfer.amount == amount && escrow_address(*program_id, payment_hash) == Some(
            (accounts[2].key, plan.record.bump),
        ) && vault_address(accounts[2].key, plan.record.mint) == Some(plan.record.vault)
            && accounts[2].data@.len() == 0,
{
    if accounts.len() < INIT_ACCOUNTS {
        return Err(Failure::NotEnoughAccountKeys);
    }
    let derived = pda_for_hash(program_id, &payment_hash);
    let expected_vault = associated_token_address(&accounts[2].key, &accounts[4].key);
    let payer_token = unpack_token_account(accounts[1].data.as_slice());
    decide_init(
        accounts,
        payment_hash,
        recipient,
        refund,
        refund_after,
        amount,
        derived,
        expected_vault,
        payer_token,
    )
}

/// Validates a settlement against the record in the escrow account and
/// plans the one transfer out of the vault.
pub fn process_settlement(program_id: &Address, accounts: &[Account], unlock: Unlock) -> (r: Result<
    Settlement,
    Failure,
>)
    ensures
        r == settle_result(*program_id, accounts@, unlock),
        r matches Ok(s) ==> decode_record(accounts[1].data@) matches Some(state) && state.status
            == Status::Active && s.record == settled(state, unlock) && s.transfer.amount
            == state.amount,
{
    if accounts.len() < 4 {
        return Err(Failure::NotEnoughAccountKeys);
    }
    let record = EscrowState::decode(accounts[1].data.as_slice());
    let (derived, expected_vault) = match record {
        Some(state) => (
            pda_for_hash(program_id, &state.payment_hash),
            associated_token_address(&accounts[1].key, &state.mint),
        ),
        None => (None, None),
    };
    let vault_token = unpack_token_account(accounts[2].data.as_slice());
    let dest_token = unpack_token_account(accounts[3].data.as_slice());
    decide_settlement(accounts, unlock, record, derived, expected_vault, vault_token, dest_token)
}

/// `Claim`: pays the recipient who reveals the preimage of the commitment.
pub fn process_claim(program_id: &Address, accounts: &[Account], preimage: [u8; 32]) -> (r: Result<
    Settlement,
    Failure,
>)
    ensures
        r == claim_result(*program_id, accounts@, preimage),
        r matches Ok(s) ==> s.record.status == Status::Claimed && s.record.amount == 0,
{
    let digest = sha256(preimage.as_slice());
    process_settlement(program_id, accounts, Unlock::Preimage { digest })
}

/// `Refund`: pays the refund party back once the deadline has come. `now` is
/// what the time oracle reports, `None` where it could not be read.
pub fn process_refund(program_id: &Address, accounts: &[Account], now: Option<i64>) -> (r: Result<
    Settlement,
    Failure,
>)
    ensures
        r == refund_result(*program_id, accounts@, now),
        r matches Ok(s) ==> s.record.status == Status::Refunded && s.record.amount == 0,
{
    process_settlement(program_id, accounts, Unlock::Deadline { now })
}

/// The entry point: decodes the instruction and runs its transition.
pub fn process_instruction(
    program_id: &Address,
    accounts: &[Account],
    instruction_data: &[u8],
    now: Option<i64>,
) -> (r: Result<Action, Failure>)
    ensures
        r == instruction_result(*program_id, accounts@, instruction_data@, now),
{
    let ix = match parse_ix(instruction_data) {
        Ok(ix) => ix,
        Err(e) => { return Err(Failure::Escrow(e)); },
    };
    match ix {
        EscrowIx::Init { payment_hash, recipient, refund, refund_after, amount } => {
            match process_init(
                program_id,
                accounts,
                payment_hash,
                recipient,
                refund,
                refund_after,
                amount,
            ) {
                Ok(plan) => Ok(Action::Init(plan)),
                Err(e) => Err(e),
            }
        },
        EscrowIx::Claim { preimage } => {
            match process_claim(program_id, accounts, preimage) {
                Ok(s) => Ok(Action::Settle(s)),
                Err(e) => Err(e),
            }
        },
        EscrowIx::Refund => {
            match process_refund(program_id, accounts, now) {
                Ok(s) => Ok(Action::Settle(s)),
                Err(e) => Err(e),
            }
        },
    }
}

} // verus!
