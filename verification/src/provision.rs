//! Deterministic provisioning of the faucet account.
//!
//! From a configuration and the commitment to the account's executable code,
//! provisioning derives the account identity, its one-time seed and the
//! signing keypair. Everything is a function of the inputs alone, so two
//! runs over the same configuration agree bit for bit. The bootstrap seed of
//! the observed design is fixed (all zero bytes), not randomized — a
//! deliberate, documented property, preserved here as an explicit
//! configuration field rather than silently randomized.

use vstd::prelude::*;
use vstd::string::StringExecFns;

use miden_objects::accounts::{AccountId, AccountStorage, AccountStorageType, AccountType,
    SlotItem, StorageSlot};
use miden_objects::assets::TokenSymbol;
use miden_objects::crypto::dsa::rpo_falcon512::SecretKey;
use miden_objects::{AccountError, AssetError, Digest, Felt, Word};
use rand_chacha::rand_core::SeedableRng;
use rand_chacha::ChaCha20Rng;

use crate::account::{is_fungible_faucet_id, FaucetAccount, NUM_SLOTS};
use crate::errors::FaucetError;
use crate::felt::{is_felt, WordValue};

verus! {

/// Largest representable token supply: one below 2^63.
pub const MAX_TOKEN_SUPPLY: u64 = 0x7fff_ffff_ffff_ffff;

/// Largest accepted decimal precision.
pub const MAX_DECIMALS: u8 = 12;

/// Configuration the provisioner consumes.
pub struct FaucetConfig {
    /// Token symbol: one to six ASCII uppercase letters.
    pub token_symbol: String,
    /// Decimal precision of the token, at most twelve.
    pub decimals: u8,
    /// Maximum token supply; must fit the field's integer range.
    pub max_supply: u64,
    /// The fixed bootstrap seed, 32 bytes.
    pub bootstrap_seed: Vec<u8>,
}

impl FaucetConfig {
    pub open spec fn wf(self) -> bool {
        self.bootstrap_seed@.len() == 32
    }
}

/// A valid token symbol: one to six ASCII uppercase letters.
pub open spec fn valid_token_symbol(s: Seq<char>) -> bool {
    &&& 1 <= s.len() <= 6
    &&& forall|i: int| 0 <= i < s.len() ==> 'A' <= #[trigger] s[i] <= 'Z'
}

/// The base-26 encoding of a token symbol.
pub open spec fn symbol_code_spec(s: Seq<char>) -> int
    decreases s.len(),
{
    if s.len() == 0 {
        0
    } else {
        symbol_code_spec(s.drop_last()) * 26 + (s.last() as int - 'A' as int)
    }
}

#[verifier::external_type_specification]
#[verifier::external_body]
pub struct ExAssetError(AssetError);

#[verifier::external_type_specification]
#[verifier::external_body]
pub struct ExAccountError(AccountError);

/// Relies on the error's `Display` implementation for the message the
/// taxonomy carries along.
#[verifier::external_body]
fn asset_error_message(e: &AssetError) -> String {
    format!("{e}")
}

/// Relies on the error's `Display` implementation for the message the
/// taxonomy carries along.
#[verifier::external_body]
fn account_error_message(e: &AccountError) -> String {
    format!("{e}")
}

/// Relies on `TokenSymbol::new`: accepted exactly for one to six ASCII
/// uppercase letters, and the accepted encoding is the base-26 fold of the
/// letters.
#[verifier::external_body]
fn token_symbol_code(symbol: &str) -> (r: Result<u64, AssetError>)
    ensures
        r is Ok <==> valid_token_symbol(symbol@),
        r matches Ok(c) ==> c == symbol_code_spec(symbol@) && c < 308915776,
{
    TokenSymbol::new(symbol).map(|s| Felt::from(s).as_int())
}

/// The public key commitment of the keypair drawn from a 32-byte seed.
pub uninterp spec fn pub_key_word_of(seed: Seq<u8>) -> WordValue;

/// Relies on `SecretKey::with_rng` over a seed-determined generator and on
/// `SecretKey::public_key`: the keypair and its public commitment are a
/// function of the seed alone (the reference design's reproducible sampler),
/// and the commitment is a word of canonical field elements.
#[verifier::external_body]
fn falcon_keygen_from_seed(seed: &Vec<u8>) -> (r: (SecretKey, WordValue))
    requires
        seed@.len() == 32,
    ensures
        r.1 == pub_key_word_of(seed@),
        r.1.wf(),
{
    let mut s = [0u8; 32];
    s.copy_from_slice(seed.as_slice());
    let mut rng = ChaCha20Rng::from_seed(s);
    let sk = SecretKey::with_rng(&mut rng);
    let pk: Word = sk.public_key().into();
    let word = WordValue { e0: pk[0].as_int(), e1: pk[1].as_int(), e2: pk[2].as_int(), e3: pk[3].as_int() };
    (sk, word)
}

/// The storage commitment over the two occupied slots.
pub uninterp spec fn storage_root_of(auth: WordValue, metadata: WordValue) -> WordValue;

/// Relies on `AccountStorage::new` and its Merkle commitment: the root is a
/// function of the slot contents alone; slot 0 holds the authentication
/// data, slot 1 the token metadata. The call always succeeds: its failure
/// branches are a reserved index (255), a duplicated index, and more maps
/// than map slots — none of which two distinct value slots at indices 0 and
/// 1 with no maps can reach.
#[verifier::external_body]
fn faucet_storage_root(auth: &WordValue, metadata: &WordValue) -> (r: Result<
    WordValue,
    AccountError,
>)
    ensures
        r is Ok,
        r matches Ok(w) ==> w == storage_root_of(*auth, *metadata) && w.wf(),
{
    let a: Word = [auth.e0, auth.e1, auth.e2, auth.e3].map(Felt::new);
    let m: Word = [metadata.e0, metadata.e1, metadata.e2, metadata.e3].map(Felt::new);
    let storage = AccountStorage::new(
        vec![
            SlotItem { index: 0, slot: StorageSlot::new_value(a) },
            SlotItem { index: 1, slot: StorageSlot::new_value(m) },
        ],
        vec![],
    )?;
    let root = storage.root();
    Ok(WordValue { e0: root[0].as_int(), e1: root[1].as_int(), e2: root[2].as_int(), e3: root[3].as_int() })
}

/// The one-time account seed ground for a fungible faucet.
pub uninterp spec fn account_seed_of(
    init_seed: Seq<u8>,
    code_root: WordValue,
    storage_root: WordValue,
) -> WordValue;

/// Relies on `AccountId::get_account_seed` for a fungible faucet with
/// off-chain storage: the proof-of-work search is compiled single-threaded
/// in this build (the thread-racing variant sits behind a feature that is
/// off), so the result is a function of the initial seed and the two
/// commitments alone, and the search loops until it succeeds — it returns
/// only `Ok`.
#[verifier::external_body]
fn grind_account_seed(init_seed: &Vec<u8>, code_root: &WordValue, storage_root: &WordValue) -> (r:
    Result<WordValue, AccountError>)
    requires
        init_seed@.len() == 32,
    ensures
        r is Ok,
        r matches Ok(w) ==> w == account_seed_of(init_seed@, *code_root, *storage_root) && w.wf(),
{
    let mut s = [0u8; 32];
    s.copy_from_slice(init_seed.as_slice());
    let c = Digest::new([code_root.e0, code_root.e1, code_root.e2, code_root.e3].map(Felt::new));
    let t = Digest::new(
        [storage_root.e0, storage_root.e1, storage_root.e2, storage_root.e3].map(Felt::new),
    );
    let ty = AccountType::FungibleFaucet;
    let seed = AccountId::get_account_seed(s, ty, AccountStorageType::OffChain, c, t)?;
    Ok(WordValue { e0: seed[0].as_int(), e1: seed[1].as_int(), e2: seed[2].as_int(), e3: seed[3].as_int() })
}

/// The account identity derived from the seed and the two commitments.
pub uninterp spec fn account_id_of(
    seed: WordValue,
    code_root: WordValue,
    storage_root: WordValue,
) -> u64;

/// The seed is one the proof-of-work search returned for these commitments,
/// for some 32-byte initial seed.
pub open spec fn is_ground_seed(
    seed: WordValue,
    code_root: WordValue,
    storage_root: WordValue,
) -> bool {
    exists|init: Seq<u8>|
        init.len() == 32 && seed == #[trigger] account_seed_of(init, code_root, storage_root)
}

/// Relies on `AccountId::new`: the identity is one element of the digest of
/// (seed, code root, storage root), so a canonical field element and a
/// function of those values alone. On a seed the proof-of-work search
/// returned for the same commitments the derivation succeeds and yields a
/// fungible-faucet identity: the search's own exit condition re-validates
/// exactly this digest and accepts only identities of that type.
#[verifier::external_body]
fn derive_account_id(seed: &WordValue, code_root: &WordValue, storage_root: &WordValue) -> (r:
    Result<u64, AccountError>)
    ensures
        r matches Ok(id) ==> id == account_id_of(*seed, *code_root, *storage_root) && is_felt(id),
        is_ground_seed(*seed, *code_root, *storage_root) ==> r is Ok,
        r matches Ok(id) ==> (is_ground_seed(*seed, *code_root, *storage_root)
            ==> is_fungible_faucet_id(id)),
{
    let s: Word = [seed.e0, seed.e1, seed.e2, seed.e3].map(Felt::new);
    let c = Digest::new([code_root.e0, code_root.e1, code_root.e2, code_root.e3].map(Felt::new));
    let t = Digest::new(
        [storage_root.e0, storage_root.e1, storage_root.e2, storage_root.e3].map(Felt::new),
    );
    let id = AccountId::new(s, c, t)?;
    Ok(id.into())
}

/// The token metadata word stored at slot 1: maximum supply, decimal
/// precision, symbol code, zero.
pub open spec fn metadata_word(symbol_code: u64, decimals: u8, max_supply: u64) -> WordValue {
    WordValue { e0: max_supply, e1: decimals as u64, e2: symbol_code, e3: 0 }
}

/// What provisioning pins down about a successful run: every output is a
/// function of the configuration and the code commitment.
pub open spec fn provision_pins(
    symbol: Seq<char>,
    decimals: u8,
    max_supply: u64,
    bootstrap_seed: Seq<u8>,
    code_root: WordValue,
    account: FaucetAccount,
    account_seed: WordValue,
) -> bool {
    let code = symbol_code_spec(symbol) as u64;
    let meta = metadata_word(code, decimals, max_supply);
    let auth = pub_key_word_of(bootstrap_seed);
    let storage_root = storage_root_of(auth, meta);
    let seed = account_seed_of(bootstrap_seed, code_root, storage_root);
    &&& account_seed == seed
    &&& account.id == account_id_of(seed, code_root, storage_root)
    &&& account.code_root == code_root
    &&& account.nonce == 0
    &&& account.storage@.len() == NUM_SLOTS
    &&& account.storage@[0] == auth
    &&& account.storage@[1] == meta
    &&& (forall|i: int| 2 <= i < NUM_SLOTS ==> account.storage@[i] == WordValue::zero_spec())
}

/// Derives the faucet account, its one-time seed and the signing keypair
/// from the configuration, deterministically. Accepts exactly a valid
/// symbol, a precision of at most twelve and a supply below 2^63 (which
/// also fits the field), and rejects everything else with the
/// account-creation error before any derivation runs.
pub fn build_account(config: &FaucetConfig, code_root: WordValue) -> (r: Result<
    (FaucetAccount, WordValue, SecretKey),
    FaucetError,
>)
    requires
        config.wf(),
        code_root.wf(),
    ensures
        r is Ok <==> valid_token_symbol(config.token_symbol@) && config.decimals <= MAX_DECIMALS
            && config.max_supply <= MAX_TOKEN_SUPPLY,
        r matches Err(e) ==> e is AccountCreationError,
        r matches Ok(out) ==> out.0.wf() && out.0.is_new_spec() && out.1.wf() && provision_pins(
            config.token_symbol@,
            config.decimals,
            config.max_supply,
            config.bootstrap_seed@,
            code_root,
            out.0,
            out.1,
        ),
{
    let symbol_code = match token_symbol_code(config.token_symbol.as_str()) {
        Ok(c) => c,
        Err(e) => {
            return Err(FaucetError::AccountCreationError(asset_error_message(&e)));
        },
    };
    if config.decimals > MAX_DECIMALS {
        return Err(
            FaucetError::AccountCreationError(
                String::from_str("decimal precision must be at most twelve"),
            ),
        );
    }
    if config.max_supply > MAX_TOKEN_SUPPLY {
        return Err(
            FaucetError::AccountCreationError(String::from_str("maximum supply must be below 2^63")),
        );
    }
    let (secret_key, auth_word) = falcon_keygen_from_seed(&config.bootstrap_seed);
    proof {
        assert(symbol_code_spec(config.token_symbol@) == symbol_code as int);
    }
    let meta = WordValue { e0: config.max_supply, e1: config.decimals as u64, e2: symbol_code, e3: 0 };
    let storage_root = match faucet_storage_root(&auth_word, &meta) {
        Ok(w) => w,
        Err(e) => {
            return Err(FaucetError::AccountCreationError(account_error_message(&e)));
        },
    };
    let account_seed = match grind_account_seed(&config.bootstrap_seed, &code_root, &storage_root) {
        Ok(w) => w,
        Err(e) => {
            return Err(FaucetError::AccountCreationError(account_error_message(&e)));
        },
    };
    proof {
        assert(config.bootstrap_seed@.len() == 32 && account_seed == account_seed_of(
            config.bootstrap_seed@,
            code_root,
            storage_root,
        ));
        assert(is_ground_seed(account_seed, code_root, storage_root));
    }
    let id = match derive_account_id(&account_seed, &code_root, &storage_root) {
        Ok(v) => v,
        Err(e) => {
            return Err(FaucetError::AccountCreationError(account_error_message(&e)));
        },
    };
    let mut storage: Vec<WordValue> = Vec::new();
    storage.push(auth_word);
    storage.push(meta);
    let mut i: usize = 2;
    while i < NUM_SLOTS
        invariant
            2 <= i <= NUM_SLOTS,
            storage@.len() == i,
            storage@[0] == auth_word,
            storage@[1] == meta,
            forall|j: int| 2 <= j < i ==> storage@[j] == WordValue::zero_spec(),
        decreases NUM_SLOTS - i,
    {
        storage.push(WordValue::zero());
        i = i + 1;
    }
    let account = FaucetAccount { id, code_root, storage, nonce: 0 };
    proof {
        assert(is_fungible_faucet_id(id));
        assert forall|j: int| 0 <= j < account.storage@.len() implies (
        #[trigger] account.storage@[j]).wf() by {
            if j >= 2 {
                assert(account.storage@[j] == WordValue::zero_spec());
            }
        }
        assert(account.wf());
    }
    Ok((account, account_seed, secret_key))
}

/// Provisioning determinism: two successful runs over the same symbol,
/// precision, supply, bootstrap seed and code commitment produce the same
/// account state, the same one-time seed, and the same public key
/// commitment in storage slot 0.
pub proof fn lemma_provisioning_deterministic(
    symbol: Seq<char>,
    decimals: u8,
    max_supply: u64,
    bootstrap_seed: Seq<u8>,
    code_root: WordValue,
    account1: FaucetAccount,
    seed1: WordValue,
    account2: FaucetAccount,
    seed2: WordValue,
)
    requires
        provision_pins(symbol, decimals, max_supply, bootstrap_seed, code_root, account1, seed1),
        provision_pins(symbol, decimals, max_supply, bootstrap_seed, code_root, account2, seed2),
    ensures
        seed1 == seed2,
        account1.id == account2.id,
        account1.code_root == account2.code_root,
        account1.nonce == account2.nonce,
        account1.storage@ == account2.storage@,
{
    assert(account1.storage@ =~= account2.storage@);
}

} // verus!
