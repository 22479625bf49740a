//! The signing identity: an ed25519 key pair held as its encoded seed and
//! public key strings, with the outside signing primitive behind trusted
//! wrappers.
use vstd::prelude::*;

verus! {

/// Whether an encoded seed string decodes to a signing key pair: the result
/// of nkeys' `KeyPair::from_seed` succeeding, a function of the seed alone.
pub uninterp spec fn seed_ok(seed: Seq<char>) -> bool;

/// The encoded public key of the key pair decoded from `seed`: the result
/// of nkeys' `KeyPair::public_key`, a function of the seed alone.
pub uninterp spec fn seed_public_key(seed: Seq<char>) -> Seq<char>;

/// The ed25519 signature over `msg` by the key pair of `seed`: the result
/// of nkeys' `KeyPair::sign`, which is deterministic in seed and message.
pub uninterp spec fn sig_of(seed: Seq<char>, msg: Seq<u8>) -> Seq<u8>;

/// Whether `sig` is accepted as a signature over `msg` under the encoded
/// public key `pk`: the result of nkeys' `KeyPair::verify`, a function of
/// the three values alone.
pub uninterp spec fn verify_ok(pk: Seq<char>, msg: Seq<u8>, sig: Seq<u8>) -> bool;

/// The client's signing identity, generated once per client and read-only
/// afterwards.
pub struct Identity {
    seed: String,
    public_key: String,
}

impl Identity {
    /// The identity's seed and public key belong to one key pair.
    #[verifier::type_invariant]
    pub closed spec fn wf(self) -> bool {
        seed_ok(self.seed@) && self.public_key@ == seed_public_key(self.seed@)
    }

    pub closed spec fn spec_seed(self) -> Seq<char> {
        self.seed@
    }

    pub closed spec fn spec_public_key(self) -> Seq<char> {
        self.public_key@
    }

    /// Relies on nkeys' `KeyPair::new_server`, `KeyPair::seed` and
    /// `KeyPair::public_key`: a freshly generated pair has a seed, the seed
    /// decodes back to the pair, and the pair's public key is derived from
    /// it. Nothing is promised about which pair comes out.
    #[verifier::external_body]
    pub(crate) fn generate() -> (r: Identity)
        ensures
            r.wf(),
            seed_ok(r.spec_seed()),
            r.spec_public_key() == seed_public_key(r.spec_seed()),
    {
        let kp = wascap::prelude::KeyPair::new_server();
        let seed = kp.seed().expect("a generated key pair carries its seed");
        Identity { seed, public_key: kp.public_key() }
    }

    /// The public key attached to outgoing invocations as their issuer.
    pub fn public_key(&self) -> (r: String)
        ensures
            r@ == self.spec_public_key(),
    {
        self.public_key.clone()
    }

    /// Sign `msg` with this identity's key.
    pub fn sign(&self, msg: &[u8]) -> (r: Vec<u8>)
        ensures
            r@ == sig_of(self.spec_seed(), msg@),
            verify_ok(self.spec_public_key(), msg@, r@),
    {
        proof {
            use_type_invariant(self);
        }
        sign_with_seed(self.seed.as_str(), msg)
    }
}

/// Relies on nkeys' `KeyPair::from_seed` and `KeyPair::sign`: signing is
/// ed25519, deterministic in the seed and the message, it cannot fail on a
/// pair decoded from a seed, and the signature it produces is accepted by
/// `KeyPair::verify` under the same pair's public key.
#[verifier::external_body]
fn sign_with_seed(seed: &str, msg: &[u8]) -> (r: Vec<u8>)
    requires
        seed_ok(seed@),
    ensures
        r@ == sig_of(seed@, msg@),
        verify_ok(seed_public_key(seed@), msg@, r@),
{
    let kp = wascap::prelude::KeyPair::from_seed(seed).expect("the seed decodes to a key pair");
    kp.sign(msg).expect("a pair with a seed can sign")
}

/// Relies on nkeys' `KeyPair::from_public_key` and `KeyPair::verify`:
/// whether a signature is accepted depends on the public key, the message
/// and the signature alone; an undecodable public key accepts nothing.
#[verifier::external_body]
pub(crate) fn verify_with_key(pk: &str, msg: &[u8], sig: &[u8]) -> (r: bool)
    ensures
        r == verify_ok(pk@, msg@, sig@),
{
    match wascap::prelude::KeyPair::from_public_key(pk) {
        Ok(kp) => kp.verify(msg, sig).is_ok(),
        Err(_) => false,
    }
}

/// Relies on uuid's `Uuid::new_v4`: a fresh random correlation token.
/// Nothing is promised about its value.
#[verifier::external_body]
pub(crate) fn new_correlation_id() -> (r: String) {
    uuid::Uuid::new_v4().to_string()
}

} // verus!
