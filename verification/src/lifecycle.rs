use vstd::prelude::*;
use crate::address::{escrow_address, sha256_digest, vault_address, TokenAccount};
use crate::error::{EscrowError, Failure};
use crate::processor::{
    accounts_needed, claim_result, entitled, init_result, refund_result, settle_outcome,
    settle_result, settled, Account, InitPlan, Settlement, Unlock, INIT_ACCOUNTS,
};
use crate::state::{decode_record, Address, EscrowState, Status};

verus! {

/// Every `Init` that goes through leaves an active record with the amount
/// asked for, the commitment as given, and an escrow and vault address that
/// derive again from the commitment and from escrow and mint; the deposit
/// moves that amount into that vault.
pub proof fn init_record_rederives(
    program_id: Address,
    accounts: Seq<Account>,
    payment_hash: [u8; 32],
    recipient: Address,
    refund: Address,
    refund_after: i64,
    amount: u64,
)
    requires
        init_result(program_id, accounts, payment_hash, recipient, refund, refund_after, amount) is Ok,
    ensures
        ({
            let plan = init_result(
                program_id,
                accounts,
                payment_hash,
                recipient,
                refund,
                refund_after,
                amount,
            )->Ok_0;
            &&& plan.record.status == Status::Active
            &&& plan.record.amount == amount
            &&& plan.record.payment_hash == payment_hash
            &&& plan.record.recipient == recipient
            &&& plan.record.refund == refund
            &&& plan.record.refund_after == refund_after
            &&& escrow_address(program_id, plan.record.payment_hash) == Some(
                (accounts[2].key, plan.record.bump),
            )
            &&& vault_address(accounts[2].key, plan.record.mint) == Some(plan.record.vault)
            &&& accounts[2].data@.len() == 0
            &&& plan.transfer.destination == plan.record.vault
            &&& plan.transfer.amount == amount
            &&& plan.seeds.payment_hash == payment_hash
            &&& plan.seeds.bump == plan.record.bump
        }),
{
}

/// A commitment is used once: an `Init` over an escrow account that holds
/// data already fails, whatever else holds, so nothing is transferred and
/// the account stays as it is. Where every other check passes, the failure is
/// `AccountAlreadyInitialized`: the same call over the same accounts, with
/// the escrow account still empty, would have gone through.
pub proof fn init_rejects_existing_escrow(
    program_id: Address,
    accounts: Seq<Account>,
    payment_hash: [u8; 32],
    recipient: Address,
    refund: Address,
    refund_after: i64,
    amount: u64,
    fresh: Account,
)
    requires
        accounts.len() >= INIT_ACCOUNTS ==> accounts[2].data@.len() != 0 && fresh.key
            == accounts[2].key && fresh.is_writable == accounts[2].is_writable,
        fresh.data@.len() == 0,
    ensures
        init_result(program_id, accounts, payment_hash, recipient, refund, refund_after, amount) is Err,
        accounts.len() >= INIT_ACCOUNTS && init_result(
            program_id,
            accounts.update(2, fresh),
            payment_hash,
            recipient,
            refund,
            refund_after,
            amount,
        ) is Ok ==> init_result(
            program_id,
            accounts,
            payment_hash,
            recipient,
            refund,
            refund_after,
            amount,
        ) == Err::<InitPlan, Failure>(Failure::AccountAlreadyInitialized),
{
    if accounts.len() >= INIT_ACCOUNTS {
        let emptied = accounts.update(2, fresh);
        assert(emptied.len() == accounts.len());
        assert(emptied[0] == accounts[0]);
        assert(emptied[1] == accounts[1]);
        assert(emptied[2] == fresh);
        assert(emptied[3] == accounts[3]);
        assert(emptied[4] == accounts[4]);
    }
}

/// No record is made active again: over an escrow account that holds a
/// record, of whatever status, no `Init` goes through.
pub proof fn init_never_replaces_record(
    program_id: Address,
    accounts: Seq<Account>,
    payment_hash: [u8; 32],
    recipient: Address,
    refund: Address,
    refund_after: i64,
    amount: u64,
)
    requires
        decode_record(accounts[2].data@) is Some,
    ensures
        init_result(program_id, accounts, payment_hash, recipient, refund, refund_after, amount) is Err,
{
}

/// Where a `Claim` goes through with one preimage, it goes through with
/// exactly the preimages whose digest is the record's commitment; with any
/// other it fails `InvalidPreimage`, and nothing is transferred or written.
pub proof fn claim_needs_preimage(
    program_id: Address,
    accounts: Seq<Account>,
    opening: [u8; 32],
    other: [u8; 32],
)
    requires
        claim_result(program_id, accounts, opening) is Ok,
    ensures
        decode_record(accounts[1].data@) matches Some(state) && sha256_digest(opening@)
            == state.payment_hash && (sha256_digest(other@) == state.payment_hash ==> claim_result(
            program_id,
            accounts,
            other,
        ) == claim_result(program_id, accounts, opening)) && (sha256_digest(other@)
            != state.payment_hash ==> claim_result(program_id, accounts, other) == Err::<
            Settlement,
            Failure,
        >(Failure::Escrow(EscrowError::InvalidPreimage))),
{
}

/// A `Claim` never goes through on a digest that is not the commitment,
/// whatever else holds.
pub proof fn wrong_digest_never_pays(
    accounts: Seq<Account>,
    digest: [u8; 32],
    record: EscrowState,
    derived: Option<(Address, u8)>,
    expected_vault: Option<Address>,
    vault_token: Option<TokenAccount>,
    dest_token: Option<TokenAccount>,
)
    requires
        digest != record.payment_hash,
    ensures
        settle_outcome(
            accounts,
            Unlock::Preimage { digest },
            Some(record),
            derived,
            expected_vault,
            vault_token,
            dest_token,
        ) is Err,
{
}

/// A record that is no longer active pays nobody: no `Claim` and no `Refund`
/// on it goes through. Where the caller signed, gave enough accounts and
/// marked them writable, the error is `NotActive`.
pub proof fn settled_record_pays_nobody(
    accounts: Seq<Account>,
    unlock: Unlock,
    record: EscrowState,
    derived: Option<(Address, u8)>,
    expected_vault: Option<Address>,
    vault_token: Option<TokenAccount>,
    dest_token: Option<TokenAccount>,
)
    requires
        record.status != Status::Active,
    ensures
        settle_outcome(
            accounts,
            unlock,
            Some(record),
            derived,
            expected_vault,
            vault_token,
            dest_token,
        ) is Err,
        accounts.len() >= accounts_needed(unlock) && accounts[0].is_signer && accounts[1].is_writable
            && accounts[2].is_writable && accounts[3].is_writable ==> settle_outcome(
            accounts,
            unlock,
            Some(record),
            derived,
            expected_vault,
            vault_token,
            dest_token,
        ) == Err::<Settlement, Failure>(Failure::Escrow(EscrowError::NotActive)),
{
}

/// A settlement is final: the record that it leaves is terminal and empty,
/// keeps everything else, and admits no further settlement of either kind.
pub proof fn settlement_is_final(
    program_id: Address,
    accounts: Seq<Account>,
    unlock: Unlock,
    later_accounts: Seq<Account>,
    later_unlock: Unlock,
    later_derived: Option<(Address, u8)>,
    later_vault: Option<Address>,
    later_vault_token: Option<TokenAccount>,
    later_dest_token: Option<TokenAccount>,
)
    requires
        settle_result(program_id, accounts, unlock) is Ok,
    ensures
        ({
            let s = settle_result(program_id, accounts, unlock)->Ok_0;
            let before = decode_record(accounts[1].data@)->0;
            &&& before.status == Status::Active
            &&& s.record == settled(before, unlock)
            &&& s.record.status != Status::Active
            &&& s.record.amount == 0
            &&& s.record.payment_hash == before.payment_hash
            &&& s.transfer.amount == before.amount
            &&& s.transfer.source == before.vault
            &&& s.transfer.authority == accounts[1].key
            &&& escrow_address(program_id, s.seeds.payment_hash) == Some(
                (accounts[1].key, s.seeds.bump),
            )
            &&& settle_outcome(
                later_accounts,
                later_unlock,
                Some(s.record),
                later_derived,
                later_vault,
                later_vault_token,
                later_dest_token,
            ) is Err
        }),
{
}

/// Where a `Refund` goes through at one time, it goes through at exactly the
/// times from the deadline on; at any earlier time it fails `TooEarly`.
pub proof fn refund_waits_for_deadline(
    program_id: Address,
    accounts: Seq<Account>,
    at: i64,
    other: i64,
)
    requires
        refund_result(program_id, accounts, Some(at)) is Ok,
    ensures
        decode_record(accounts[1].data@) matches Some(state) && at >= state.refund_after && (other
            >= state.refund_after ==> refund_result(program_id, accounts, Some(other))
            == refund_result(program_id, accounts, Some(at))) && (other < state.refund_after
            ==> refund_result(program_id, accounts, Some(other)) == Err::<
            Settlement,
            Failure,
        >(Failure::Escrow(EscrowError::TooEarly))),
{
}

/// A `Refund` never goes through before the deadline, whatever else holds.
pub proof fn early_refund_never_pays(
    accounts: Seq<Account>,
    now: i64,
    record: EscrowState,
    derived: Option<(Address, u8)>,
    expected_vault: Option<Address>,
    vault_token: Option<TokenAccount>,
    dest_token: Option<TokenAccount>,
)
    requires
        now < record.refund_after,
    ensures
        settle_outcome(
            accounts,
            Unlock::Deadline { now: Some(now) },
            Some(record),
            derived,
            expected_vault,
            vault_token,
            dest_token,
        ) is Err,
{
}

/// Only the entitled party settles: a `Claim` or `Refund` by a signer other
/// than the record's recipient or refund party does not go through,
/// whatever preimage or time comes with it. On an active record, with enough
/// accounts and the writable ones marked so, the error is `InvalidSigner`.
pub proof fn stranger_never_settles(
    accounts: Seq<Account>,
    unlock: Unlock,
    record: EscrowState,
    derived: Option<(Address, u8)>,
    expected_vault: Option<Address>,
    vault_token: Option<TokenAccount>,
    dest_token: Option<TokenAccount>,
)
    requires
        accounts.len() >= 1 ==> accounts[0].key != entitled(record, unlock),
    ensures
        settle_outcome(
            accounts,
            unlock,
            Some(record),
            derived,
            expected_vault,
            vault_token,
            dest_token,
        ) is Err,
        accounts.len() >= accounts_needed(unlock) && accounts[1].is_writable
            && accounts[2].is_writable && accounts[3].is_writable && record.status
            == Status::Active ==> settle_outcome(
            accounts,
            unlock,
            Some(record),
            derived,
            expected_vault,
            vault_token,
            dest_token,
        ) == Err::<Settlement, Failure>(Failure::Escrow(EscrowError::InvalidSigner)),
{
}

/// A record is sound under a program when nothing is left in escrow once it
/// is settled, its nonce is the one derived for its commitment, and its vault
/// is the one derived for the escrow's address and its mint.
pub open spec fn sound_record(program_id: Address, record: EscrowState) -> bool {
    &&& record.status != Status::Active ==> record.amount == 0
    &&& escrow_address(program_id, record.payment_hash) matches Some(pair) && pair.1 == record.bump
        && vault_address(pair.0, record.mint) == Some(record.vault)
}

/// The record that an `Init` leaves is sound.
pub proof fn init_record_is_sound(
    program_id: Address,
    accounts: Seq<Account>,
    payment_hash: [u8; 32],
    recipient: Address,
    refund: Address,
    refund_after: i64,
    amount: u64,
)
    requires
        init_result(program_id, accounts, payment_hash, recipient, refund, refund_after, amount) is Ok,
    ensures
        sound_record(
            program_id,
            init_result(
                program_id,
                accounts,
                payment_hash,
                recipient,
                refund,
                refund_after,
                amount,
            )->Ok_0.record,
        ),
{
}

/// A settlement goes through on sound records only, found at the address
/// derived for their commitment, and leaves a sound record: every operation
/// verifies the addresses again and takes none from the record on trust.
pub proof fn settlement_keeps_record_sound(
    program_id: Address,
    accounts: Seq<Account>,
    unlock: Unlock,
)
    requires
        settle_result(program_id, accounts, unlock) is Ok,
    ensures
        decode_record(accounts[1].data@) matches Some(before) && sound_record(program_id, before)
            && escrow_address(program_id, before.payment_hash) == Some(
            (accounts[1].key, before.bump),
        ) && accounts[2].key == before.vault,
        sound_record(program_id, settle_result(program_id, accounts, unlock)->Ok_0.record),
{
}

} // verus!
