//! Building a mint transaction and applying its outcome.
//!
//! A mint request turns into a transfer note bound to the faucet's own
//! identity and the requested amount, and into the instantiated distribution
//! script. After the engine has executed and the proof was submitted, the
//! resulting delta lands on the local account mirror only on submission
//! success; on failure it is discarded whole.

use vstd::prelude::*;
use vstd::string::StringExecFns;

use miden_objects::crypto::rand::{FeltRng, RpoRandomCoin};
use miden_objects::notes::{NoteExecutionHint, NoteInputs, NoteRecipient, NoteScript, NoteTag};
use miden_objects::accounts::AccountId;
use miden_objects::{Felt, Word};

use crate::account::{delta_accepted, is_fungible_faucet_id, spec_apply_nonce, spec_apply_storage,
    AccountDelta};
use crate::errors::FaucetError;
use crate::felt::{is_felt, WordValue};
use crate::script::{instantiate_script, instantiated_script};
use crate::store::FaucetDataStore;

verus! {

/// Largest representable amount of a fungible asset: one below 2^63.
pub const MAX_ASSET_AMOUNT: u64 = 0x7fff_ffff_ffff_ffff;

/// Note-type code of a note whose content stays off chain.
pub const NOTE_TYPE_PRIVATE: u64 = 2;

/// Note-type code of a note fully shared with the network.
pub const NOTE_TYPE_PUBLIC: u64 = 1;

#[verifier::external_type_specification]
#[verifier::external_body]
pub struct ExNoteScript(NoteScript);

#[verifier::external_type_specification]
#[verifier::external_body]
pub struct ExRpoRandomCoin(RpoRandomCoin);

/// Relies on `FeltRng::draw_word`: the drawn serial number is a word of
/// canonical field elements; its value depends on the coin's state, so
/// nothing more is promised.
#[verifier::external_body]
fn draw_serial_number(rng: &mut RpoRandomCoin) -> (r: WordValue)
    ensures
        r.wf(),
{
    let w: Word = rng.draw_word();
    WordValue { e0: w[0].as_int(), e1: w[1].as_int(), e2: w[2].as_int(), e3: w[3].as_int() }
}



/// The recipient commitment of a transfer note: a function of the serial
/// number, the note script's root, and the target identity it is payable to.
pub uninterp spec fn recipient_digest_of(
    serial: WordValue,
    script_root: WordValue,
    target: u64,
) -> WordValue;

/// Relies on `NoteInputs::new` (infallible for a single input),
/// `NoteRecipient::new` and its digest: the commitment is a function of the
/// serial number, the script and the target alone; its elements are
/// canonical. Returns the commitment together with the script root it was
/// computed against.
#[verifier::external_body]
fn p2id_recipient_digest(target: u64, serial: &WordValue, script: &NoteScript) -> (r: (
    WordValue,
    WordValue,
))
    requires
        is_felt(target),
        serial.wf(),
    ensures
        r.0 == recipient_digest_of(*serial, r.1, target),
        r.0.wf(),
        r.1.wf(),
{
    let root = script.hash();
    let inputs = NoteInputs::new(vec![Felt::new(target)]).expect("one input is always accepted");
    let s: Word = [serial.e0, serial.e1, serial.e2, serial.e3].map(Felt::new);
    let g = NoteRecipient::new(s, script.clone(), inputs).digest();
    let d = WordValue { e0: g[0].as_int(), e1: g[1].as_int(), e2: g[2].as_int(), e3: g[3].as_int() };
    let rt = WordValue { e0: root[0].as_int(), e1: root[1].as_int(), e2: root[2].as_int(), e3: root[3].as_int() };
    (d, rt)
}

/// Number of one-bits among the low `bits` bits of a value.
pub open spec fn one_bits(v: u64, bits: nat) -> nat
    decreases bits,
{
    if bits == 0 {
        0
    } else {
        (v % 2) as nat + one_bits(v / 2, (bits - 1) as nat)
    }
}

/// A field element is a valid account identity when it carries at least five
/// one-bits and its top two bits name an accepted storage location.
pub open spec fn is_valid_account_id(v: u64) -> bool {
    &&& one_bits(v, 64) >= 5
    &&& ((v >> 62) & 0x3 == 0 || (v >> 62) & 0x3 == 2)
}

/// The tag of a locally-executed transfer note: the top two bits mark local
/// execution with any note type, the next 14 bits are the target identity's
/// 14 most significant bits, and the low 16 bits are zero.
pub open spec fn note_tag_spec(target: u64) -> u32 {
    (((target >> 34) & 0xFFFF0000) | 0xC000_0000) as u32
}

/// Relies on `AccountId::try_from` and `NoteTag::from_account_id` with the
/// local execution hint: a field element converts to an account identity
/// exactly when it has at least five one-bits and accepted storage bits, and
/// the local-execution tag is then the identity's 14 most significant bits
/// under the local-execution marker.
#[verifier::external_body]
fn p2id_note_tag(target: u64) -> (r: Result<u32, FaucetError>)
    requires
        is_felt(target),
    ensures
        r is Ok <==> is_valid_account_id(target),
        r matches Ok(t) ==> t == note_tag_spec(target),
        r matches Err(e) ==> e is InternalServerError,
{
    let id = AccountId::try_from(target)
        .map_err(|e| FaucetError::InternalServerError(format!("{e}")))?;
    let tag = NoteTag::from_account_id(id, NoteExecutionHint::Local)
        .map_err(|e| FaucetError::InternalServerError(format!("{e}")))?;
    Ok(tag.inner())
}

/// What the engine must produce: one transfer note with this shape.
#[derive(Clone, Copy, PartialEq, Eq, Structural, Debug)]
pub struct NoteDetails {
    /// The faucet's own identity, the note's sender.
    pub sender: u64,
    /// The identity the note is payable to.
    pub target: u64,
    /// Note-type code: private or public visibility.
    pub note_type_code: u64,
    /// Routing tag derived from the target.
    pub tag: u32,
    /// Amount of the asset carried.
    pub amount: u64,
    /// The note's recipient commitment.
    pub recipient_digest: WordValue,
    /// Serial number the commitment was drawn for.
    pub serial: WordValue,
}

/// Arguments handed to the execution engine: the instantiated script source
/// and the note the transaction is expected to output.
pub struct TransactionArgs {
    pub script_source: String,
    pub expected_note: NoteDetails,
}

/// Instantiates the distribution script for a note: exactly the four values
/// recipient digest, note-type code, tag and amount are substituted.
pub fn build_transaction_arguments(note: &NoteDetails) -> (r: TransactionArgs)
    ensures
        r.expected_note == *note,
        r.script_source@ == instantiated_script(
            note.recipient_digest,
            note.note_type_code,
            note.tag as u64,
            note.amount,
        ),
{
    let script_source = instantiate_script(
        &note.recipient_digest,
        note.note_type_code,
        note.tag as u64,
        note.amount,
    );
    TransactionArgs { script_source, expected_note: *note }
}

/// Builds the note and the engine arguments for one mint request: checks the
/// amount against the representable range, chooses the visibility, draws a
/// fresh serial number, derives the recipient commitment and tag, and
/// instantiates the script.
pub fn build_mint_transaction(
    faucet_id: u64,
    target_account_id: u64,
    is_private_note: bool,
    asset_amount: u64,
    note_script: &NoteScript,
    rng: &mut RpoRandomCoin,
) -> (r: Result<TransactionArgs, FaucetError>)
    requires
        is_felt(faucet_id),
        is_fungible_faucet_id(faucet_id),
        is_felt(target_account_id),
    ensures
        r is Ok <==> asset_amount <= MAX_ASSET_AMOUNT && is_valid_account_id(target_account_id),
        r matches Err(e) ==> e is InternalServerError,
        r matches Ok(args) ==> {
            let note = args.expected_note;
            &&& note.sender == faucet_id
            &&& note.target == target_account_id
            &&& note.amount == asset_amount
            &&& asset_amount <= MAX_ASSET_AMOUNT
            &&& note.note_type_code == (if is_private_note {
                NOTE_TYPE_PRIVATE
            } else {
                NOTE_TYPE_PUBLIC
            })
            &&& note.tag == note_tag_spec(target_account_id)
            &&& note.serial.wf()
            &&& note.recipient_digest.wf()
            &&& exists|root: WordValue|
                note.recipient_digest == #[trigger] recipient_digest_of(
                    note.serial,
                    root,
                    target_account_id,
                )
            &&& args.script_source@ == instantiated_script(
                note.recipient_digest,
                note.note_type_code,
                note.tag as u64,
                note.amount,
            )
        },
{
    if asset_amount > MAX_ASSET_AMOUNT {
        return Err(
            FaucetError::InternalServerError(
                String::from_str("asset amount exceeds the representable range"),
            ),
        );
    }
    let note_type_code: u64 = if is_private_note {
        NOTE_TYPE_PRIVATE
    } else {
        NOTE_TYPE_PUBLIC
    };
    let serial = draw_serial_number(rng);
    let (recipient_digest, script_root) = p2id_recipient_digest(
        target_account_id,
        &serial,
        note_script,
    );
    let tag = match p2id_note_tag(target_account_id) {
        Ok(t) => t,
        Err(e) => {
            return Err(e);
        },
    };
    let note = NoteDetails {
        sender: faucet_id,
        target: target_account_id,
        note_type_code,
        tag,
        amount: asset_amount,
        recipient_digest,
        serial,
    };
    proof {
        assert(note.recipient_digest == recipient_digest_of(
            note.serial,
            script_root,
            target_account_id,
        ));
    }
    Ok(build_transaction_arguments(&note))
}

/// Prove-and-submit, the decision side: the delta lands on the account
/// mirror only when the submission succeeded; on failure the delta is
/// discarded and the store — nonce, storage, seed and pending state — is
/// left exactly as it was.
pub fn apply_submission_outcome(
    store: &mut FaucetDataStore,
    delta: &AccountDelta,
    submit_ok: bool,
) -> (r: Result<(), FaucetError>)
    requires
        old(store).wf(),
        delta.wf(),
    ensures
        final(store).wf(),
        !submit_ok ==> r is Err && final(store).account == old(store).account,
        submit_ok ==> (r is Ok <==> delta_accepted(old(store).account, *delta)),
        r is Ok ==> final(store).account.id == old(store).account.id,
        r is Ok ==> final(store).account.nonce == spec_apply_nonce(
            old(store).account.nonce,
            *delta,
        ),
        r is Ok ==> final(store).account.storage@ == spec_apply_storage(
            old(store).account.storage@,
            *delta,
        ),
        r is Err ==> final(store).account == old(store).account,
        r matches Err(e) ==> e is InternalServerError,
        final(store).code == old(store).code,
        final(store).seed == old(store).seed,
        final(store).block_header == old(store).block_header,
        final(store).chain_mmr == old(store).chain_mmr,
{
    if !submit_ok {
        return Err(
            FaucetError::InternalServerError(
                String::from_str("submission failed; the delta is discarded"),
            ),
        );
    }
    store.update_faucet_account(delta)
}

} // verus!
