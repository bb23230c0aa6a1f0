//! Instantiation of the fixed token-distribution script template.
//!
//! The template takes exactly four values: the note's recipient digest, the
//! note-type code, the tag and the amount. All four are decimal images of
//! field elements (the digest joins four of them with dots), so literal
//! substitution is safe: the instantiated script provably contains no brace
//! character, hence no leftover placeholder.

use vstd::prelude::*;
use vstd::string::StringExecFns;

use crate::felt::{decimal_digits, is_decimal_char, lemma_decimal_digits_are_digits,
    u64_to_decimal, WordValue};

verus! {

/// Template text before the recipient value.
pub open spec fn seg_head() -> Seq<char> {
    "use.miden::contracts::faucets::basic_fungible->faucet\nuse.miden::contracts::auth::basic->auth_tx\n\nbegin\n    push."@
}

/// Template text between the recipient and the note-type code.
pub open spec fn seg_note_type() -> Seq<char> {
    "\n    push."@
}

/// Template text between the note-type code and the tag.
pub open spec fn seg_tag() -> Seq<char> {
    "\n    push."@
}

/// Template text between the tag and the amount.
pub open spec fn seg_amount() -> Seq<char> {
    "\n    push."@
}

/// Template text after the amount.
pub open spec fn seg_tail() -> Seq<char> {
    "\n\n    call.faucet::distribute\n\n    call.auth_tx::auth_tx_rpo_falcon512\n    dropw dropw\n\nend\n"@
}

/// The template with its four placeholders still in place.
pub open spec fn script_template() -> Seq<char> {
    seg_head() + "{recipient}"@ + seg_note_type() + "{note_type}"@ + seg_tag() + "{tag}"@
        + seg_amount() + "{amount}"@ + seg_tail()
}

/// The recipient value: the digest's four elements in decimal, joined by
/// dots.
pub open spec fn recipient_text(digest: WordValue) -> Seq<char> {
    decimal_digits(digest.e0 as nat) + "."@ + decimal_digits(digest.e1 as nat) + "."@
        + decimal_digits(digest.e2 as nat) + "."@ + decimal_digits(digest.e3 as nat)
}

/// The template with all four placeholders substituted.
pub open spec fn instantiated_script(
    digest: WordValue,
    note_type_code: u64,
    tag: u64,
    amount: u64,
) -> Seq<char> {
    seg_head() + recipient_text(digest) + seg_note_type() + decimal_digits(note_type_code as nat)
        + seg_tag() + decimal_digits(tag as nat) + seg_amount() + decimal_digits(amount as nat)
        + seg_tail()
}

/// Renders the recipient digest as its decimal-joined text.
pub fn recipient_string(digest: &WordValue) -> (s: String)
    ensures
        s@ == recipient_text(*digest),
{
    let mut s = u64_to_decimal(digest.e0);
    s.append(".");
    let d1 = u64_to_decimal(digest.e1);
    s.append(d1.as_str());
    s.append(".");
    let d2 = u64_to_decimal(digest.e2);
    s.append(d2.as_str());
    s.append(".");
    let d3 = u64_to_decimal(digest.e3);
    s.append(d3.as_str());
    s
}

/// Substitutes the four values into the template.
pub fn instantiate_script(digest: &WordValue, note_type_code: u64, tag: u64, amount: u64) -> (s:
    String)
    ensures
        s@ == instantiated_script(*digest, note_type_code, tag, amount),
{
    let mut s = String::new();
    s.append(
        "use.miden::contracts::faucets::basic_fungible->faucet\nuse.miden::contracts::auth::basic->auth_tx\n\nbegin\n    push.",
    );
    let recipient = recipient_string(digest);
    s.append(recipient.as_str());
    s.append("\n    push.");
    let nt = u64_to_decimal(note_type_code);
    s.append(nt.as_str());
    s.append("\n    push.");
    let tg = u64_to_decimal(tag);
    s.append(tg.as_str());
    s.append("\n    push.");
    let am = u64_to_decimal(amount);
    s.append(am.as_str());
    s.append(
        "\n\n    call.faucet::distribute\n\n    call.auth_tx::auth_tx_rpo_falcon512\n    dropw dropw\n\nend\n",
    );
    s
}

/// A character a substituted value may contain: a decimal digit or the dot
/// joining digest elements.
pub open spec fn is_value_char(c: char) -> bool {
    is_decimal_char(c) || c == '.'
}

/// Script instantiation: all four placeholders are substituted by decimal
/// values, so the instantiated script contains a brace character only where
/// the template's fixed text does — and the fixed text has none, which the
/// companion test checks on the rendered output. Stated here: every
/// character of the instantiated script is either a character of one of the
/// template's fixed segments or a decimal-value character, never a character
/// of a placeholder name inserted by the substitution.
pub proof fn lemma_substituted_values_are_plain(
    digest: WordValue,
    note_type_code: u64,
    tag: u64,
    amount: u64,
)
    ensures
        forall|i: int|
            0 <= i < recipient_text(digest).len() ==> is_value_char(
                #[trigger] recipient_text(digest)[i],
            ),
        forall|i: int|
            0 <= i < decimal_digits(note_type_code as nat).len() ==> is_value_char(
                #[trigger] decimal_digits(note_type_code as nat)[i],
            ),
        forall|i: int|
            0 <= i < decimal_digits(tag as nat).len() ==> is_value_char(
                #[trigger] decimal_digits(tag as nat)[i],
            ),
        forall|i: int|
            0 <= i < decimal_digits(amount as nat).len() ==> is_value_char(
                #[trigger] decimal_digits(amount as nat)[i],
            ),
{
    lemma_decimal_digits_are_digits(digest.e0 as nat);
    lemma_decimal_digits_are_digits(digest.e1 as nat);
    lemma_decimal_digits_are_digits(digest.e2 as nat);
    lemma_decimal_digits_are_digits(digest.e3 as nat);
    lemma_decimal_digits_are_digits(note_type_code as nat);
    lemma_decimal_digits_are_digits(tag as nat);
    lemma_decimal_digits_are_digits(amount as nat);
    reveal_strlit(".");
    let r = recipient_text(digest);
    assert forall|i: int| 0 <= i < r.len() implies is_value_char(#[trigger] r[i]) by {
        let d0 = decimal_digits(digest.e0 as nat);
        let d1 = decimal_digits(digest.e1 as nat);
        let d2 = decimal_digits(digest.e2 as nat);
        let d3 = decimal_digits(digest.e3 as nat);
        let dot = "."@;
        assert(dot.len() == 1 && dot[0] == '.');
        if i < d0.len() {
            assert(r[i] == d0[i]);
        } else if i < d0.len() + 1 {
            assert(r[i] == '.');
        } else if i < d0.len() + 1 + d1.len() {
            assert(r[i] == d1[i - d0.len() - 1]);
        } else if i < d0.len() + 1 + d1.len() + 1 {
            assert(r[i] == '.');
        } else if i < d0.len() + 1 + d1.len() + 1 + d2.len() {
            assert(r[i] == d2[i - d0.len() - 1 - d1.len() - 1]);
        } else if i < d0.len() + 1 + d1.len() + 1 + d2.len() + 1 {
            assert(r[i] == '.');
        } else {
            assert(r[i] == d3[i - d0.len() - 1 - d1.len() - 1 - d2.len() - 1]);
        }
    }
}

/// No placeholder survives: a value character is never a brace, so the
/// substitution inserts no brace anywhere.
pub proof fn lemma_value_chars_have_no_brace()
    ensures
        forall|c: char| #[trigger] is_value_char(c) ==> c != '{' && c != '}',
{
}

/// The template's fixed segments hold no brace either, so the instantiated
/// script has no brace character at all: no literal placeholder text can
/// remain in it.
#[verifier::rlimit(40)]
pub proof fn lemma_instantiated_script_has_no_brace(
    digest: WordValue,
    note_type_code: u64,
    tag: u64,
    amount: u64,
)
    ensures
        forall|i: int|
            0 <= i < instantiated_script(digest, note_type_code, tag, amount).len()
                ==> #[trigger] instantiated_script(digest, note_type_code, tag, amount)[i] != '{'
                && instantiated_script(digest, note_type_code, tag, amount)[i] != '}',
{
    reveal_strlit(
        "use.miden::contracts::faucets::basic_fungible->faucet\nuse.miden::contracts::auth::basic->auth_tx\n\nbegin\n    push.",
    );
    reveal_strlit("\n    push.");
    reveal_strlit(
        "\n\n    call.faucet::distribute\n\n    call.auth_tx::auth_tx_rpo_falcon512\n    dropw dropw\n\nend\n",
    );
    lemma_substituted_values_are_plain(digest, note_type_code, tag, amount);
    let s = instantiated_script(digest, note_type_code, tag, amount);
    let head = seg_head();
    let mid = seg_note_type();
    let tail = seg_tail();
    assert(forall|i: int| 0 <= i < head.len() ==> head[i] != '{' && head[i] != '}');
    assert(forall|i: int| 0 <= i < mid.len() ==> mid[i] != '{' && mid[i] != '}');
    assert(forall|i: int| 0 <= i < tail.len() ==> tail[i] != '{' && tail[i] != '}');
    let rcp = recipient_text(digest);
    let d1 = decimal_digits(note_type_code as nat);
    let d2 = decimal_digits(tag as nat);
    let d3 = decimal_digits(amount as nat);
    assert forall|i: int| 0 <= i < s.len() implies #[trigger] s[i] != '{' && s[i] != '}' by {
        let b0 = head.len() as int;
        let b1 = b0 + rcp.len();
        let b2 = b1 + mid.len();
        let b3 = b2 + d1.len();
        let b4 = b3 + mid.len();
        let b5 = b4 + d2.len();
        let b6 = b5 + mid.len();
        let b7 = b6 + d3.len();
        if i < b0 {
            assert(s[i] == head[i]);
        } else if i < b1 {
            assert(s[i] == rcp[i - b0]);
            assert(is_value_char(rcp[i - b0]));
        } else if i < b2 {
            assert(s[i] == mid[i - b1]);
        } else if i < b3 {
            assert(s[i] == d1[i - b2]);
            assert(is_value_char(d1[i - b2]));
        } else if i < b4 {
            assert(s[i] == mid[i - b3]);
        } else if i < b5 {
            assert(s[i] == d2[i - b4]);
            assert(is_value_char(d2[i - b4]));
        } else if i < b6 {
            assert(s[i] == mid[i - b5]);
        } else if i < b7 {
            assert(s[i] == d3[i - b6]);
            assert(is_value_char(d3[i - b6]));
        } else {
            assert(s[i] == tail[i - b7]);
        }
    }
}

} // verus!
