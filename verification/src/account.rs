//! Plain-value model of the faucet's account and of account deltas.
//!
//! The account mirror holds an identity, a code commitment, 256 storage
//! slots and a monotonic nonce. A delta carries the net storage and nonce
//! effect of one executed transaction and is applied atomically: a malformed
//! delta leaves the account untouched.

use vstd::prelude::*;
use vstd::string::StringExecFns;

use crate::errors::FaucetError;
use crate::felt::{is_felt, FIELD_MODULUS, WordValue};

verus! {

/// Number of storage slots of an account.
pub const NUM_SLOTS: usize = 256;

/// In-process mirror of the faucet account.
#[derive(Debug, Clone)]
#[verifier::ext_equal]
pub struct FaucetAccount {
    /// Account identity, a single field element.
    pub id: u64,
    /// Commitment to the account's executable code.
    pub code_root: WordValue,
    /// The 256 storage slots, one word each.
    pub storage: Vec<WordValue>,
    /// Monotonic nonce; zero exactly while the account is new.
    pub nonce: u64,
}

/// An account id carries its type in the low two bits of the top nibble;
/// `0b10` marks a fungible-token faucet.
pub open spec fn is_fungible_faucet_id(id: u64) -> bool {
    (id >> 60) & 0x3 == 2
}

impl FaucetAccount {
    pub open spec fn wf(self) -> bool {
        &&& is_felt(self.id)
        &&& is_fungible_faucet_id(self.id)
        &&& self.code_root.wf()
        &&& self.storage@.len() == NUM_SLOTS
        &&& (forall|i: int| 0 <= i < self.storage@.len() ==> (#[trigger] self.storage@[i]).wf())
        &&& is_felt(self.nonce)
    }

    /// The account is new until its first delta lands.
    pub open spec fn is_new_spec(self) -> bool {
        self.nonce == 0
    }

    pub fn is_new(&self) -> (r: bool)
        ensures
            r == self.is_new_spec(),
    {
        self.nonce == 0
    }

    /// Two accounts agree on identity, code commitment, storage contents and
    /// nonce.
    pub open spec fn same_state(self, other: FaucetAccount) -> bool {
        &&& self.id == other.id
        &&& self.code_root == other.code_root
        &&& self.storage@ == other.storage@
        &&& self.nonce == other.nonce
    }

    /// A field-by-field copy of the account.
    pub fn snapshot(&self) -> (r: FaucetAccount)
        ensures
            r.same_state(*self),
    {
        let mut storage: Vec<WordValue> = Vec::new();
        let mut i: usize = 0;
        while i < self.storage.len()
            invariant
                i <= self.storage@.len(),
                storage@ =~= self.storage@.subrange(0, i as int),
            decreases self.storage@.len() - i,
        {
            storage.push(self.storage[i]);
            i = i + 1;
        }
        proof {
            assert(storage@ =~= self.storage@);
        }
        FaucetAccount { id: self.id, code_root: self.code_root, storage, nonce: self.nonce }
    }
}

/// Net effect of one executed transaction on the account.
#[derive(Debug, Clone)]
pub struct AccountDelta {
    /// Slots reset to the zero word, in application order.
    pub cleared_slots: Vec<u8>,
    /// Slots overwritten with a new word, in application order.
    pub updated_slots: Vec<(u8, WordValue)>,
    /// New nonce, if the transaction advanced it.
    pub nonce: Option<u64>,
}

impl AccountDelta {
    /// The delta changes at least one storage slot.
    pub open spec fn touches_storage(self) -> bool {
        self.cleared_slots@.len() > 0 || self.updated_slots@.len() > 0
    }

    /// Well-formed as the engine constructs deltas: slot values are words of
    /// field elements, a delta that touches storage carries a nonzero nonce,
    /// and an empty delta carries none.
    pub open spec fn wf(self) -> bool {
        &&& (self.nonce matches Some(n) ==> is_felt(n))
        &&& (forall|i: int|
            0 <= i < self.updated_slots@.len() ==> (#[trigger] self.updated_slots@[i]).1.wf())
        &&& (self.touches_storage() ==> (self.nonce matches Some(n) && n != 0))
        &&& (!self.touches_storage() ==> self.nonce is None)
    }
}

/// Storage after resetting the given slots to zero, in order.
pub open spec fn apply_cleared(storage: Seq<WordValue>, cleared: Seq<u8>) -> Seq<WordValue>
    decreases cleared.len(),
{
    if cleared.len() == 0 {
        storage
    } else {
        apply_cleared(storage, cleared.drop_last()).update(
            cleared.last() as int,
            WordValue::zero_spec(),
        )
    }
}

/// Storage after overwriting the given slots, in order.
pub open spec fn apply_updated(storage: Seq<WordValue>, updated: Seq<(u8, WordValue)>) -> Seq<
    WordValue,
>
    decreases updated.len(),
{
    if updated.len() == 0 {
        storage
    } else {
        apply_updated(storage, updated.drop_last()).update(
            updated.last().0 as int,
            updated.last().1,
        )
    }
}

/// The nonce a delta leaves behind.
pub open spec fn spec_apply_nonce(nonce: u64, delta: AccountDelta) -> u64 {
    match delta.nonce {
        Some(n) => n,
        None => nonce,
    }
}

/// View of the storage a delta produces.
pub open spec fn spec_apply_storage(storage: Seq<WordValue>, delta: AccountDelta) -> Seq<
    WordValue,
> {
    apply_updated(apply_cleared(storage, delta.cleared_slots@), delta.updated_slots@)
}

/// A delta is accepted exactly when the nonce it carries, if any, is strictly
/// greater than the account's current nonce.
pub open spec fn delta_accepted(acc: FaucetAccount, delta: AccountDelta) -> bool {
    delta.nonce matches Some(n) ==> n > acc.nonce
}

impl FaucetAccount {
    /// Applies one delta atomically: on success the nonce and storage move to
    /// the delta's values; on rejection the account is unchanged.
    pub fn apply_delta(&mut self, delta: &AccountDelta) -> (r: Result<(), FaucetError>)
        requires
            old(self).wf(),
            delta.wf(),
        ensures
            final(self).wf(),
            r is Ok <==> delta_accepted(*old(self), *delta),
            r is Ok ==> final(self).id == old(self).id,
            r is Ok ==> final(self).code_root == old(self).code_root,
            r is Ok ==> final(self).nonce == spec_apply_nonce(old(self).nonce, *delta),
            r is Ok ==> final(self).storage@ == spec_apply_storage(old(self).storage@, *delta),
            r is Err ==> *final(self) == *old(self),
            r matches Err(e) ==> e is InternalServerError,
    {
        match delta.nonce {
            Some(n) => {
                if n <= self.nonce {
                    return Err(
                        FaucetError::InternalServerError(
                            String::from_str("delta nonce does not advance the account nonce"),
                        ),
                    );
                }
            },
            None => {},
        }
        let ghost start_storage = self.storage@;
        let mut i: usize = 0;
        while i < delta.cleared_slots.len()
            invariant
                old(self).wf(),
                delta.wf(),
                i <= delta.cleared_slots@.len(),
                self.id == old(self).id,
                self.code_root == old(self).code_root,
                self.nonce == old(self).nonce,
                self.storage@.len() == NUM_SLOTS,
                self.storage@ == apply_cleared(
                    start_storage,
                    delta.cleared_slots@.subrange(0, i as int),
                ),
                start_storage == old(self).storage@,
            decreases delta.cleared_slots@.len() - i,
        {
            let idx = delta.cleared_slots[i];
            proof {
                let pre = delta.cleared_slots@.subrange(0, i as int);
                let post = delta.cleared_slots@.subrange(0, i + 1);
                assert(post.drop_last() =~= pre);
                assert(post.last() == delta.cleared_slots@[i as int]);
            }
            self.storage.set(idx as usize, WordValue::zero());
            i = i + 1;
        }
        proof {
            assert(delta.cleared_slots@.subrange(0, delta.cleared_slots@.len() as int)
                =~= delta.cleared_slots@);
        }
        let ghost cleared_storage = self.storage@;
        let mut j: usize = 0;
        while j < delta.updated_slots.len()
            invariant
                old(self).wf(),
                delta.wf(),
                j <= delta.updated_slots@.len(),
                self.id == old(self).id,
                self.code_root == old(self).code_root,
                self.nonce == old(self).nonce,
                self.storage@.len() == NUM_SLOTS,
                cleared_storage == apply_cleared(old(self).storage@, delta.cleared_slots@),
                cleared_storage.len() == NUM_SLOTS,
                self.storage@ == apply_updated(
                    cleared_storage,
                    delta.updated_slots@.subrange(0, j as int),
                ),
            decreases delta.updated_slots@.len() - j,
        {
            let (idx, value) = delta.updated_slots[j];
            proof {
                let pre = delta.updated_slots@.subrange(0, j as int);
                let post = delta.updated_slots@.subrange(0, j + 1);
                assert(post.drop_last() =~= pre);
                assert(post.last() == delta.updated_slots@[j as int]);
            }
            self.storage.set(idx as usize, value);
            j = j + 1;
        }
        proof {
            assert(delta.updated_slots@.subrange(0, delta.updated_slots@.len() as int)
                =~= delta.updated_slots@);
        }
        match delta.nonce {
            Some(n) => {
                self.nonce = n;
            },
            None => {},
        }
        proof {
            lemma_apply_storage_preserves_wf(old(self).storage@, *delta);
        }
        Ok(())
    }
}

/// Applying a well-formed delta keeps every slot well formed and the length
/// unchanged.
pub proof fn lemma_apply_cleared_wf(storage: Seq<WordValue>, cleared: Seq<u8>)
    requires
        storage.len() == NUM_SLOTS,
        forall|i: int| 0 <= i < storage.len() ==> (#[trigger] storage[i]).wf(),
    ensures
        apply_cleared(storage, cleared).len() == NUM_SLOTS,
        forall|i: int|
            0 <= i < apply_cleared(storage, cleared).len() ==> (#[trigger] apply_cleared(
                storage,
                cleared,
            )[i]).wf(),
    decreases cleared.len(),
{
    if cleared.len() > 0 {
        lemma_apply_cleared_wf(storage, cleared.drop_last());
    }
}

/// As above, for the overwritten slots.
pub proof fn lemma_apply_updated_wf(storage: Seq<WordValue>, updated: Seq<(u8, WordValue)>)
    requires
        storage.len() == NUM_SLOTS,
        forall|i: int| 0 <= i < storage.len() ==> (#[trigger] storage[i]).wf(),
        forall|i: int| 0 <= i < updated.len() ==> (#[trigger] updated[i]).1.wf(),
    ensures
        apply_updated(storage, updated).len() == NUM_SLOTS,
        forall|i: int|
            0 <= i < apply_updated(storage, updated).len() ==> (#[trigger] apply_updated(
                storage,
                updated,
            )[i]).wf(),
    decreases updated.len(),
{
    if updated.len() > 0 {
        lemma_apply_updated_wf(storage, updated.drop_last());
        assert(forall|i: int|
            0 <= i < updated.drop_last().len() ==> (#[trigger] updated.drop_last()[i]).1.wf());
    }
}

pub proof fn lemma_apply_storage_preserves_wf(storage: Seq<WordValue>, delta: AccountDelta)
    requires
        storage.len() == NUM_SLOTS,
        forall|i: int| 0 <= i < storage.len() ==> (#[trigger] storage[i]).wf(),
        delta.wf(),
    ensures
        spec_apply_storage(storage, delta).len() == NUM_SLOTS,
        forall|i: int|
            0 <= i < spec_apply_storage(storage, delta).len() ==> (#[trigger] spec_apply_storage(
                storage,
                delta,
            )[i]).wf(),
{
    lemma_apply_cleared_wf(storage, delta.cleared_slots@);
    lemma_apply_updated_wf(apply_cleared(storage, delta.cleared_slots@), delta.updated_slots@);
}

/// Nonce after a run of deltas, each applied in submission order.
pub open spec fn nonce_after(genesis: u64, deltas: Seq<AccountDelta>) -> u64
    decreases deltas.len(),
{
    if deltas.len() == 0 {
        genesis
    } else {
        match deltas.last().nonce {
            Some(n) => n,
            None => nonce_after(genesis, deltas.drop_last()),
        }
    }
}

/// Delta monotonicity: when every delta of a run advances the nonce by
/// exactly one over the nonce it meets, the nonce after N deltas is the
/// genesis nonce plus N.
pub proof fn lemma_nonce_monotonic(genesis: u64, deltas: Seq<AccountDelta>)
    requires
        genesis + deltas.len() < FIELD_MODULUS,
        forall|i: int|
            0 <= i < deltas.len() ==> (#[trigger] deltas[i]).nonce == Some(
                (nonce_after(genesis, deltas.subrange(0, i)) + 1) as u64,
            ),
    ensures
        nonce_after(genesis, deltas) == genesis + deltas.len(),
    decreases deltas.len(),
{
    if deltas.len() > 0 {
        let prefix = deltas.drop_last();
        assert forall|i: int| 0 <= i < prefix.len() implies (#[trigger] prefix[i]).nonce == Some(
            (nonce_after(genesis, prefix.subrange(0, i)) + 1) as u64,
        ) by {
            assert(prefix.subrange(0, i) =~= deltas.subrange(0, i));
            assert(prefix[i] == deltas[i]);
        }
        lemma_nonce_monotonic(genesis, prefix);
        assert(deltas.subrange(0, deltas.len() - 1) =~= prefix);
        assert(deltas.last() == deltas[deltas.len() - 1]);
    }
}

} // verus!
