//! The authorization callback: lattice-based signature advice for the
//! verification circuit.
//!
//! The advice layout is a wire contract: the reversal of nonce (8 elements)
//! ++ expanded public key (512 coefficients) ++ signature polynomial (512
//! coefficients) ++ their raw convolution (1024 coefficients). Any deviation
//! breaks proof verification silently, so the layout and the convolution are
//! verified here; only the signing operation itself is trusted.

use vstd::prelude::*;

use miden_objects::crypto::dsa::rpo_falcon512::SecretKey;
use miden_objects::{Felt, Word};
use rand_chacha::rand_core::SeedableRng;
use rand_chacha::ChaCha20Rng;

use crate::errors::AuthenticationError;
use crate::felt::{is_felt, WordValue};

verus! {

/// The lattice signature's own modulus.
pub const FALCON_MODULUS: u64 = 12289;

/// One term of the convolution of two coefficient sequences.
pub open spec fn conv_term(a: Seq<u64>, b: Seq<u64>, k: int, i: int) -> int {
    if 0 <= i < a.len() && 0 <= k - i < b.len() {
        a[i] * b[k - i]
    } else {
        0
    }
}

/// Sum of the first `n` terms of the convolution at position `k`.
pub open spec fn conv_sum(a: Seq<u64>, b: Seq<u64>, k: int, n: int) -> int
    decreases n,
{
    if n <= 0 {
        0
    } else {
        conv_sum(a, b, k, n - 1) + conv_term(a, b, k, n - 1)
    }
}

/// The convolution is bounded by the number of terms times the largest
/// product of two coefficients below the lattice modulus.
pub proof fn lemma_conv_sum_bound(a: Seq<u64>, b: Seq<u64>, k: int, n: int)
    requires
        forall|i: int| 0 <= i < a.len() ==> a[i] < FALCON_MODULUS,
        forall|i: int| 0 <= i < b.len() ==> b[i] < FALCON_MODULUS,
        0 <= n,
    ensures
        0 <= conv_sum(a, b, k, n) <= n * 150994944,
    decreases n,
{
    if n > 0 {
        lemma_conv_sum_bound(a, b, k, n - 1);
        assert(conv_term(a, b, k, n - 1) <= 150994944) by {
            if 0 <= n - 1 < a.len() && 0 <= k - (n - 1) < b.len() {
                let x = a[n - 1];
                let y = b[k - (n - 1)];
                assert(x * y <= 12288 * 12288) by (nonlinear_arith)
                    requires
                        x <= 12288,
                        y <= 12288,
                ;
            }
        }
    }
}

/// The raw product of two degree-512 coefficient vectors, as the circuit
/// expects it: 1024 coefficients, each the plain integer convolution with no
/// reduction.
pub fn poly_mul_modulo(a: &Vec<u64>, b: &Vec<u64>) -> (r: Vec<u64>)
    requires
        a@.len() == 512,
        b@.len() == 512,
        forall|i: int| 0 <= i < a@.len() ==> a@[i] < FALCON_MODULUS,
        forall|i: int| 0 <= i < b@.len() ==> b@[i] < FALCON_MODULUS,
    ensures
        r@.len() == 1024,
        forall|k: int| 0 <= k < 1024 ==> r@[k] == conv_sum(a@, b@, k, 512),
{
    let mut r: Vec<u64> = Vec::new();
    let mut k: usize = 0;
    while k < 1024
        invariant
            a@.len() == 512,
            b@.len() == 512,
            forall|i: int| 0 <= i < a@.len() ==> a@[i] < FALCON_MODULUS,
            forall|i: int| 0 <= i < b@.len() ==> b@[i] < FALCON_MODULUS,
            k <= 1024,
            r@.len() == k,
            forall|j: int| 0 <= j < k ==> r@[j] == conv_sum(a@, b@, j, 512),
        decreases 1024 - k,
    {
        let mut acc: u64 = 0;
        let mut i: usize = 0;
        while i < 512
            invariant
                a@.len() == 512,
                b@.len() == 512,
                forall|n: int| 0 <= n < a@.len() ==> a@[n] < FALCON_MODULUS,
                forall|n: int| 0 <= n < b@.len() ==> b@[n] < FALCON_MODULUS,
                k < 1024,
                i <= 512,
                acc == conv_sum(a@, b@, k as int, i as int),
                acc <= i * 150994944,
            decreases 512 - i,
        {
            if i <= k && k - i < 512 {
                let x = a[i];
                let y = b[k - i];
                proof {
                    assert(x * y <= 12288 * 12288) by (nonlinear_arith)
                        requires
                            x <= 12288,
                            y <= 12288,
                    ;
                }
                acc = acc + x * y;
            }
            i = i + 1;
        }
        r.push(acc);
        k = k + 1;
    }
    r
}

/// The ordered field-element sequence handed to the verifier as advice:
/// nonce, expanded public key, signature polynomial and their convolution,
/// reversed as one sequence.
pub open spec fn advice_layout(nonce: Seq<u64>, h: Seq<u64>, s2: Seq<u64>) -> Seq<u64> {
    (nonce + h + s2 + Seq::new(1024, |k: int| conv_sum(h, s2, k, 512) as u64)).reverse()
}

/// Signature layout, the shape side: the advice holds 8 + 512 + 512 + 1024
/// elements, and each input coefficient stands at its mirrored position.
pub proof fn lemma_advice_layout(nonce: Seq<u64>, h: Seq<u64>, s2: Seq<u64>)
    requires
        nonce.len() == 8,
        h.len() == 512,
        s2.len() == 512,
    ensures
        advice_layout(nonce, h, s2).len() == 2056,
        forall|i: int|
            0 <= i < 8 ==> #[trigger] advice_layout(nonce, h, s2)[2055 - i] == nonce[i],
        forall|i: int|
            0 <= i < 512 ==> #[trigger] advice_layout(nonce, h, s2)[2055 - 8 - i] == h[i],
        forall|i: int|
            0 <= i < 512 ==> #[trigger] advice_layout(nonce, h, s2)[2055 - 520 - i] == s2[i],
        forall|k: int|
            0 <= k < 1024 ==> #[trigger] advice_layout(nonce, h, s2)[2055 - 1032 - k] == conv_sum(
                h,
                s2,
                k,
                512,
            ) as u64,
{
    let pi = Seq::new(1024, |k: int| conv_sum(h, s2, k, 512) as u64);
    let forward = nonce + h + s2 + pi;
    assert(forward.len() == 2056);
    assert forall|i: int| 0 <= i < 2056 implies advice_layout(nonce, h, s2)[2055 - i]
        == forward[i] by {
        assert(advice_layout(nonce, h, s2) == forward.reverse());
    }
}

/// Assembles the advice from the signature artifacts, in the exact order and
/// reversal the circuit expects.
pub fn assemble_advice(nonce: &Vec<u64>, h: &Vec<u64>, s2: &Vec<u64>) -> (r: Vec<u64>)
    requires
        nonce@.len() == 8,
        h@.len() == 512,
        s2@.len() == 512,
        forall|i: int| 0 <= i < nonce@.len() ==> is_felt(#[trigger] nonce@[i]),
        forall|i: int| 0 <= i < h@.len() ==> h@[i] < FALCON_MODULUS,
        forall|i: int| 0 <= i < s2@.len() ==> s2@[i] < FALCON_MODULUS,
    ensures
        r@ == advice_layout(nonce@, h@, s2@),
        r@.len() == 2056,
        forall|i: int| 0 <= i < r@.len() ==> is_felt(#[trigger] r@[i]),
{
    let pi = poly_mul_modulo(h, s2);
    let mut forward: Vec<u64> = Vec::new();
    let mut i: usize = 0;
    while i < 8
        invariant
            nonce@.len() == 8,
            i <= 8,
            forward@ =~= nonce@.subrange(0, i as int),
        decreases 8 - i,
    {
        forward.push(nonce[i]);
        i = i + 1;
    }
    let mut j: usize = 0;
    while j < 512
        invariant
            nonce@.len() == 8,
            h@.len() == 512,
            j <= 512,
            forward@ =~= nonce@ + h@.subrange(0, j as int),
        decreases 512 - j,
    {
        forward.push(h[j]);
        j = j + 1;
    }
    let mut m: usize = 0;
    while m < 512
        invariant
            nonce@.len() == 8,
            h@.len() == 512,
            s2@.len() == 512,
            m <= 512,
            forward@ =~= nonce@ + h@ + s2@.subrange(0, m as int),
        decreases 512 - m,
    {
        forward.push(s2[m]);
        m = m + 1;
    }
    let mut p: usize = 0;
    while p < 1024
        invariant
            nonce@.len() == 8,
            h@.len() == 512,
            s2@.len() == 512,
            pi@.len() == 1024,
            forall|k: int| 0 <= k < 1024 ==> pi@[k] == conv_sum(h@, s2@, k, 512),
            p <= 1024,
            forward@ =~= nonce@ + h@ + s2@ + pi@.subrange(0, p as int),
        decreases 1024 - p,
    {
        forward.push(pi[p]);
        p = p + 1;
    }
    proof {
        let pi_spec = Seq::new(1024, |k: int| conv_sum(h@, s2@, k, 512) as u64);
        assert forall|k: int| 0 <= k < 1024 implies pi@[k] == pi_spec[k] by {
            lemma_conv_sum_bound(h@, s2@, k, 512);
        }
        assert(pi@ =~= pi_spec);
        assert(forward@ =~= nonce@ + h@ + s2@ + pi_spec);
    }
    let mut r: Vec<u64> = Vec::new();
    let mut q: usize = 0;
    let total: usize = forward.len();
    while q < total
        invariant
            total == forward@.len(),
            total == 2056,
            q <= total,
            r@.len() == q,
            forall|x: int| 0 <= x < q ==> r@[x] == forward@[total - 1 - x],
        decreases total - q,
    {
        r.push(forward[total - 1 - q]);
        q = q + 1;
    }
    proof {
        assert(r@ =~= forward@.reverse());
        lemma_conv_sum_bound_all(h@, s2@);
        assert forall|x: int| 0 <= x < r@.len() implies is_felt(#[trigger] r@[x]) by {
            assert(r@[x] == forward@[2055 - x]);
        }
    }
    r
}

/// Every convolution coefficient of two vectors below the lattice modulus is
/// a canonical field element.
proof fn lemma_conv_sum_bound_all(h: Seq<u64>, s2: Seq<u64>)
    requires
        forall|i: int| 0 <= i < h.len() ==> h[i] < FALCON_MODULUS,
        forall|i: int| 0 <= i < s2.len() ==> s2[i] < FALCON_MODULUS,
    ensures
        forall|k: int| #![trigger conv_sum(h, s2, k, 512)]
            0 <= conv_sum(h, s2, k, 512) <= 512 * 150994944,
{
    assert forall|k: int| 0 <= #[trigger] conv_sum(h, s2, k, 512) <= 512 * 150994944 by {
        lemma_conv_sum_bound(h, s2, k, 512);
    }
}

#[verifier::external_type_specification]
#[verifier::external_body]
pub struct ExSecretKey(SecretKey);

#[verifier::external_type_specification]
#[verifier::external_body]
pub struct ExChaCha20Rng(ChaCha20Rng);

/// Relies on `ChaCha20Rng::from_entropy`: a generator seeded from the
/// operating system, once per process lifetime.
#[verifier::external_body]
fn chacha20_from_entropy() -> ChaCha20Rng {
    ChaCha20Rng::from_entropy()
}

/// Relies on `SecretKey::sign_with_rng`: the signature's nonce converts to
/// exactly 8 field elements of at most 40 bits each (5-byte little-endian
/// chunks of a 40-byte nonce), and its polynomial s2 carries exactly 512
/// coefficients, each canonical modulo 12289. The signature depends on the
/// generator's state, so nothing more is promised of the values.
#[verifier::external_body]
fn falcon_sign_raw(key: &SecretKey, message: &WordValue, rng: &mut ChaCha20Rng) -> (r: (
    Vec<u64>,
    Vec<u64>,
))
    ensures
        r.0@.len() == 8,
        forall|i: int| 0 <= i < r.0@.len() ==> r.0@[i] < 0x100_0000_0000u64,
        r.1@.len() == 512,
        forall|i: int| 0 <= i < r.1@.len() ==> r.1@[i] < 12289,
{
    let msg: Word = [message.e0, message.e1, message.e2, message.e3].map(Felt::new);
    let sig = key.sign_with_rng(msg, rng);
    let nonce: Vec<u64> = sig.nonce().to_elements().iter().map(|f| f.as_int()).collect();
    let s2: Vec<u64> = sig.sig_poly().coefficients.iter().map(|c| c.value() as u64).collect();
    (nonce, s2)
}

/// Relies on `SecretKey::compute_pub_key_poly`: the expanded public key is a
/// polynomial of exactly 512 coefficients, each canonical modulo 12289.
#[verifier::external_body]
fn falcon_pub_key_poly(key: &SecretKey) -> (r: Vec<u64>)
    ensures
        r@.len() == 512,
        forall|i: int| 0 <= i < r@.len() ==> r@[i] < 12289,
{
    key.compute_pub_key_poly().0.coefficients.iter().map(|c| c.value() as u64).collect()
}

/// Signs a message and lays the artifacts out as verifier advice.
///
/// The values are, before the final reversal: the nonce as 8 field elements,
/// the expanded public key (512 coefficients), the signature polynomial (512
/// coefficients), and the raw convolution of those two polynomials.
pub fn get_falcon_signature(key: &SecretKey, message: WordValue, rng: &mut ChaCha20Rng) -> (r:
    Result<Vec<u64>, AuthenticationError>)
    ensures
        r is Ok,
        r matches Ok(v) ==> v@.len() == 2056,
        r matches Ok(v) ==> forall|i: int| 0 <= i < v@.len() ==> is_felt(#[trigger] v@[i]),
        r matches Ok(v) ==> exists|n: Seq<u64>, h: Seq<u64>, s2: Seq<u64>|
            n.len() == 8 && h.len() == 512 && s2.len() == 512 && v@ == #[trigger] advice_layout(
                n,
                h,
                s2,
            ),
{
    let (nonce, s2) = falcon_sign_raw(key, &message, rng);
    let h = falcon_pub_key_poly(key);
    proof {
        assert(forall|i: int| 0 <= i < nonce@.len() ==> is_felt(#[trigger] nonce@[i]));
    }
    let advice = assemble_advice(&nonce, &h, &s2);
    proof {
        assert(advice@ == advice_layout(nonce@, h@, s2@));
    }
    Ok(advice)
}

/// The authorization callback's state: the account's secret key and a
/// generator seeded once per process lifetime, not per call.
pub struct FaucetAuthenticator {
    secret_key: SecretKey,
    rng: ChaCha20Rng,
}

impl FaucetAuthenticator {
    pub fn new(secret_key: SecretKey) -> Self {
        Self { secret_key, rng: chacha20_from_entropy() }
    }

    /// As `new`, with a caller-provided generator, for deterministic runs.
    pub fn with_rng(secret_key: SecretKey, rng: ChaCha20Rng) -> Self {
        Self { secret_key, rng }
    }

    /// The contract the execution engine requires: an ordered field-element
    /// sequence usable as auxiliary verifier input. Always succeeds for a
    /// well-formed key.
    pub fn get_signature(&mut self, _pub_key: WordValue, message: WordValue) -> (r: Result<
        Vec<u64>,
        AuthenticationError,
    >)
        ensures
            r is Ok,
            r matches Ok(v) ==> v@.len() == 2056,
            r matches Ok(v) ==> forall|i: int| 0 <= i < v@.len() ==> is_felt(#[trigger] v@[i]),
            r matches Ok(v) ==> exists|n: Seq<u64>, h: Seq<u64>, s2: Seq<u64>|
                n.len() == 8 && h.len() == 512 && s2.len() == 512 && v@
                    == #[trigger] advice_layout(n, h, s2),
    {
        get_falcon_signature(&self.secret_key, message, &mut self.rng)
    }
}

} // verus!
