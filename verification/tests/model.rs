//! Tests of the plain-value model: decimal rendering, script instantiation,
//! delta application and the store's request/submission behaviour.

use faucet_core::account::{AccountDelta, FaucetAccount};
use faucet_core::errors::{DataStoreError, FaucetError};
use faucet_core::felt::{u64_to_decimal, WordValue};
use faucet_core::mint::apply_submission_outcome;
use faucet_core::script::{instantiate_script, recipient_string};
use faucet_core::store::FaucetDataStore;

use miden_objects::assembly::ModuleAst;
use miden_objects::{BlockHeader, Digest};

const MODULE_SOURCE: &str = "export.dummy\n    push.1 drop\nend\n";

fn word(a: u64, b: u64, c: u64, d: u64) -> WordValue {
    WordValue { e0: a, e1: b, e2: c, e3: d }
}

fn test_account(nonce: u64) -> FaucetAccount {
    FaucetAccount {
        id: 0x2000_0000_0000_001f,
        code_root: word(1, 2, 3, 4),
        storage: vec![WordValue::zero(); 256],
        nonce,
    }
}

fn test_header() -> BlockHeader {
    BlockHeader::new(
        0,
        Digest::default(),
        0,
        Digest::default(),
        Digest::default(),
        Digest::default(),
        Digest::default(),
        Digest::default(),
        Digest::default(),
        0,
    )
}

fn test_store(nonce: u64) -> FaucetDataStore {
    FaucetDataStore::new_at_genesis(
        test_account(nonce),
        ModuleAst::parse(MODULE_SOURCE).expect("test module parses"),
        word(11, 22, 33, 44),
        test_header(),
    )
}

// A delta that touches storage must carry a nonzero nonce, and only such a
// delta may carry one; slot 3 stands for the issuance bookkeeping a mint
// transaction writes.
fn nonce_delta(nonce: u64) -> AccountDelta {
    AccountDelta {
        cleared_slots: vec![],
        updated_slots: vec![(3, word(nonce, 0, 0, 0))],
        nonce: Some(nonce),
    }
}

#[test]
fn decimal_rendering_exact() {
    assert_eq!(u64_to_decimal(0), "0");
    assert_eq!(u64_to_decimal(7), "7");
    assert_eq!(u64_to_decimal(10), "10");
    assert_eq!(u64_to_decimal(1234567890), "1234567890");
    assert_eq!(u64_to_decimal(u64::MAX), "18446744073709551615");
}

#[test]
fn recipient_string_joins_elements() {
    assert_eq!(recipient_string(&word(1, 2, 3, 4)), "1.2.3.4");
    assert_eq!(
        recipient_string(&word(0, 18446744073709551615, 5, 0)),
        "0.18446744073709551615.5.0"
    );
}

#[test]
fn script_instantiation_no_placeholder_remains() {
    let s = instantiate_script(&word(5, 6, 7, 8), 1, 42, 100);
    assert!(s.contains("push.5.6.7.8"));
    assert!(s.contains("push.1\n"));
    assert!(s.contains("push.42"));
    assert!(s.contains("push.100"));
    assert!(!s.contains("{recipient}"));
    assert!(!s.contains("{note_type}"));
    assert!(!s.contains("{tag}"));
    assert!(!s.contains("{amount}"));
    assert!(!s.contains('{'));
    assert!(!s.contains('}'));
    assert!(s.contains("call.faucet::distribute"));
    assert!(s.contains("call.auth_tx::auth_tx_rpo_falcon512"));
}

#[test]
fn seed_handed_out_exactly_once() {
    let mut store = test_store(0);
    let id = store.get_faucet_id();

    let inputs = store.get_transaction_inputs(id, 0, &vec![]).expect("matching id");
    assert_eq!(inputs.seed, Some(word(11, 22, 33, 44)));
    assert!(inputs.input_notes.is_empty());

    // The first applied delta consumes the account's new state.
    store.update_faucet_account(&nonce_delta(1)).expect("first delta lands");

    let inputs = store.get_transaction_inputs(id, 0, &vec![]).expect("matching id");
    assert_eq!(inputs.seed, None);
    assert_eq!(inputs.account.nonce, 1);
}

#[test]
fn mismatch_guard_returns_not_found() {
    let store = test_store(0);
    let bad_id = store.get_faucet_id() + 1;
    let r = store.get_transaction_inputs(bad_id, 0, &vec![]);
    assert!(matches!(r, Err(DataStoreError::AccountNotFound(id)) if id == bad_id));
    let r = store.get_account_code(bad_id);
    assert!(matches!(r, Err(DataStoreError::AccountNotFound(id)) if id == bad_id));
}

#[test]
fn nonce_advances_by_one_per_submission() {
    let mut store = test_store(0);
    for i in 1..=5u64 {
        apply_submission_outcome(&mut store, &nonce_delta(i), true).expect("submission lands");
    }
    assert_eq!(store.account.nonce, 5);
}

#[test]
fn failed_submission_leaves_state_unchanged() {
    let mut store = test_store(3);
    let delta = AccountDelta {
        cleared_slots: vec![],
        updated_slots: vec![(9, word(1, 1, 1, 1))],
        nonce: Some(4),
    };
    let r = apply_submission_outcome(&mut store, &delta, false);
    assert!(matches!(r, Err(FaucetError::InternalServerError(_))));
    assert_eq!(store.account.nonce, 3);
    assert_eq!(store.account.storage[9], WordValue::zero());
}

#[test]
fn non_monotonic_delta_rejected_without_effect() {
    let mut store = test_store(3);
    let delta = AccountDelta {
        cleared_slots: vec![],
        updated_slots: vec![(4, word(2, 2, 2, 2))],
        nonce: Some(3),
    };
    let r = store.update_faucet_account(&delta);
    assert!(matches!(r, Err(FaucetError::InternalServerError(_))));
    assert_eq!(store.account.nonce, 3);
    assert_eq!(store.account.storage[4], WordValue::zero());
}

#[test]
fn empty_delta_applies_as_no_op() {
    let mut account = test_account(4);
    let empty = AccountDelta { cleared_slots: vec![], updated_slots: vec![], nonce: None };
    account.apply_delta(&empty).expect("an empty delta is accepted");
    assert_eq!(account.nonce, 4);
    assert_eq!(account.storage, test_account(4).storage);
}

#[test]
fn delta_updates_and_clears_storage() {
    let mut account = test_account(0);
    let first = AccountDelta {
        cleared_slots: vec![],
        updated_slots: vec![(2, word(9, 9, 9, 9)), (5, word(8, 8, 8, 8))],
        nonce: Some(1),
    };
    account.apply_delta(&first).expect("first delta lands");
    assert_eq!(account.storage[2], word(9, 9, 9, 9));
    assert_eq!(account.storage[5], word(8, 8, 8, 8));
    assert_eq!(account.nonce, 1);

    let second = AccountDelta {
        cleared_slots: vec![2],
        updated_slots: vec![],
        nonce: Some(2),
    };
    account.apply_delta(&second).expect("second delta lands");
    assert_eq!(account.storage[2], WordValue::zero());
    assert_eq!(account.storage[5], word(8, 8, 8, 8));
    assert_eq!(account.nonce, 2);
}
