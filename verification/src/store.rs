//! Exclusive owner of the in-process account mirror.
//!
//! The store answers the execution engine's requests for transaction inputs
//! and account code, and applies account deltas. The genesis block header and
//! the empty chain accumulator are acquired once at startup and never
//! refreshed: every transaction is built against genesis context.

use vstd::prelude::*;

use miden_objects::assembly::ModuleAst;
use miden_objects::crypto::merkle::{MmrPeaks, PartialMmr};
use miden_objects::transaction::ChainMmr;
use miden_objects::BlockHeader;

use crate::account::{delta_accepted, spec_apply_nonce, spec_apply_storage, AccountDelta,
    FaucetAccount};
use crate::errors::{DataStoreError, FaucetError};
use crate::felt::WordValue;

verus! {

#[verifier::external_type_specification]
#[verifier::external_body]
pub struct ExBlockHeader(BlockHeader);

#[verifier::external_type_specification]
#[verifier::external_body]
pub struct ExChainMmr(ChainMmr);

#[verifier::external_type_specification]
#[verifier::external_body]
pub struct ExModuleAst(ModuleAst);

/// Relies on the derived `ChainMmr::clone`: a field-for-field copy of the
/// accumulator.
#[verifier::external_body]
fn clone_chain_mmr(c: &ChainMmr) -> (r: ChainMmr)
    ensures
        r == *c,
{
    c.clone()
}

/// Relies on the derived `ModuleAst::clone`: a field-for-field copy of the
/// module.
#[verifier::external_body]
fn clone_module_ast(m: &ModuleAst) -> (r: ModuleAst)
    ensures
        r == *m,
{
    m.clone()
}

/// Relies on `MmrPeaks::new`, `PartialMmr::from_peaks` and `ChainMmr::new`:
/// an accumulator over zero leaves with no tracked blocks is accepted, and is
/// the chain context used for every transaction in this design.
#[verifier::external_body]
fn empty_chain_mmr() -> ChainMmr {
    ChainMmr::new(
        PartialMmr::from_peaks(MmrPeaks::new(0, Vec::new()).expect("empty peaks are valid")),
        Vec::new(),
    ).expect("an empty chain accumulator is valid")
}

/// Everything the execution engine needs to execute one transaction against
/// the held account.
pub struct TransactionInputs {
    /// Snapshot of the account at request time.
    pub account: FaucetAccount,
    /// The one-time account seed, present exactly while the account is new.
    pub seed: Option<WordValue>,
    /// The genesis block header the transaction is anchored to.
    pub block_header: BlockHeader,
    /// The chain accumulator matching the header.
    pub chain_mmr: ChainMmr,
    /// Input notes consumed by the transaction; always empty for a faucet.
    pub input_notes: Vec<WordValue>,
}

/// Exclusive owner of the faucet account, its one-time seed, and the startup
/// chain snapshot.
pub struct FaucetDataStore {
    /// The single mutable account; all mutation goes through
    /// `update_faucet_account`.
    pub account: FaucetAccount,
    /// The account's executable module.
    pub code: ModuleAst,
    /// One-time proof that the account identity derives from its code and
    /// storage; handed out only while the account is new.
    pub seed: WordValue,
    /// Genesis block header, immutable after startup.
    pub block_header: BlockHeader,
    /// Chain accumulator anchored at genesis, immutable after startup.
    pub chain_mmr: ChainMmr,
}

impl FaucetDataStore {
    pub open spec fn wf(self) -> bool {
        &&& self.account.wf()
        &&& self.seed.wf()
    }

    pub fn new(
        faucet_account: FaucetAccount,
        code: ModuleAst,
        seed: WordValue,
        root_block_header: BlockHeader,
        root_chain_mmr: ChainMmr,
    ) -> (r: Self)
        ensures
            r.account == faucet_account,
            r.code == code,
            r.seed == seed,
            r.block_header == root_block_header,
            r.chain_mmr == root_chain_mmr,
    {
        Self {
            account: faucet_account,
            code,
            seed,
            block_header: root_block_header,
            chain_mmr: root_chain_mmr,
        }
    }

    /// As `new`, building the empty chain accumulator anchored at genesis
    /// itself: the snapshot is acquired once and never refreshed, so every
    /// transaction is built against genesis context.
    pub fn new_at_genesis(
        faucet_account: FaucetAccount,
        code: ModuleAst,
        seed: WordValue,
        root_block_header: BlockHeader,
    ) -> (r: Self)
        ensures
            r.account == faucet_account,
            r.code == code,
            r.seed == seed,
            r.block_header == root_block_header,
    {
        let chain_mmr = empty_chain_mmr();
        Self { account: faucet_account, code, seed, block_header: root_block_header, chain_mmr }
    }

    pub fn get_faucet_id(&self) -> (r: u64)
        ensures
            r == self.account.id,
    {
        self.account.id
    }

    /// Mismatch guard and seed exactly-once, the request side: the inputs are
    /// returned exactly when the requested id matches the held account, the
    /// seed is present exactly while the account is new, and a mismatch
    /// returns the not-found error and nothing else.
    pub fn get_transaction_inputs(
        &self,
        account_id: u64,
        _block_ref: u32,
        _note_ids: &Vec<WordValue>,
    ) -> (r: Result<TransactionInputs, DataStoreError>)
        ensures
            r is Ok <==> account_id == self.account.id,
            r matches Ok(inputs) ==> inputs.account.same_state(self.account),
            r matches Ok(inputs) ==> inputs.seed == (if self.account.is_new_spec() {
                Some(self.seed)
            } else {
                None::<WordValue>
            }),
            r matches Ok(inputs) ==> inputs.block_header == self.block_header
                && inputs.chain_mmr == self.chain_mmr,
            r matches Ok(inputs) ==> inputs.input_notes@ == Seq::<WordValue>::empty(),
            r matches Err(e) ==> e == DataStoreError::AccountNotFound(account_id),
    {
        if account_id != self.account.id {
            return Err(DataStoreError::AccountNotFound(account_id));
        }
        let seed: Option<WordValue> = if self.account.is_new() {
            Some(self.seed)
        } else {
            None
        };
        let input_notes: Vec<WordValue> = Vec::new();
        proof {
            assert(input_notes@ =~= Seq::<WordValue>::empty());
        }
        Ok(
            TransactionInputs {
                account: self.account.snapshot(),
                seed,
                block_header: self.block_header,
                chain_mmr: clone_chain_mmr(&self.chain_mmr),
                input_notes,
            },
        )
    }

    /// Returns the account's executable module, with the same mismatch guard
    /// as the inputs request.
    pub fn get_account_code(&self, account_id: u64) -> (r: Result<ModuleAst, DataStoreError>)
        ensures
            r is Ok <==> account_id == self.account.id,
            r matches Ok(m) ==> m == self.code,
            r matches Err(e) ==> e == DataStoreError::AccountNotFound(account_id),
    {
        if account_id != self.account.id {
            return Err(DataStoreError::AccountNotFound(account_id));
        }
        Ok(clone_module_ast(&self.code))
    }

    /// Applies one delta to the held account; everything else the store holds
    /// is untouched, and a rejected delta leaves the account unchanged too.
    pub fn update_faucet_account(&mut self, delta: &AccountDelta) -> (r: Result<(), FaucetError>)
        requires
            old(self).wf(),
            delta.wf(),
        ensures
            final(self).wf(),
            r is Ok <==> delta_accepted(old(self).account, *delta),
            r is Ok ==> final(self).account.id == old(self).account.id,
            r is Ok ==> final(self).account.nonce == spec_apply_nonce(
                old(self).account.nonce,
                *delta,
            ),
            r is Ok ==> final(self).account.storage@ == spec_apply_storage(
                old(self).account.storage@,
                *delta,
            ),
            r is Err ==> final(self).account == old(self).account,
            r matches Err(e) ==> e is InternalServerError,
            final(self).code == old(self).code,
            final(self).seed == old(self).seed,
            final(self).block_header == old(self).block_header,
            final(self).chain_mmr == old(self).chain_mmr,
    {
        self.account.apply_delta(delta)
    }
}

/// Seed exactly-once, the consumption side: any accepted well-formed delta
/// that changes the account — it touches storage, hence carries a nonce —
/// moves the account out of its new state, so later transaction inputs no
/// longer carry the seed.
pub proof fn lemma_seed_consumed_once(pre: FaucetAccount, delta: AccountDelta)
    requires
        delta.wf(),
        delta.touches_storage(),
        delta_accepted(pre, delta),
    ensures
        spec_apply_nonce(pre.nonce, delta) != 0,
{
}

} // verus!
