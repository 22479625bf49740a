//! The invocation signer: builds a signed invocation envelope and checks
//! one on receipt.
//!
//! The signature covers the canonical concatenation of origin, target,
//! operation and payload, so a receiver can detect tampering with any of
//! the covered fields before dispatch.
use vstd::prelude::*;

use crate::codec::{enc_bytesv, enc_entityv, enc_strv, put_bytes, put_entity, put_str};
use crate::keys::{new_correlation_id, sig_of, verify_ok, verify_with_key, Identity};
use crate::types::{EntityV, Invocation, WasccEntity};

verus! {

/// The canonical byte string covered by an invocation's signature: origin,
/// target, operation and payload, each in the envelope codec's encoding.
pub open spec fn sig_input(
    origin: EntityV,
    target: EntityV,
    operation: Seq<char>,
    payload: Seq<u8>,
) -> Seq<u8> {
    enc_entityv(origin) + enc_entityv(target) + enc_strv(operation) + enc_bytesv(payload)
}

/// Build the canonical byte string covered by the signature.
pub fn canonical_invocation_bytes(
    origin: &WasccEntity,
    target: &WasccEntity,
    operation: &str,
    payload: &Vec<u8>,
) -> (r: Vec<u8>)
    ensures
        r@ == sig_input(origin@, target@, operation@, payload@),
{
    let mut out: Vec<u8> = Vec::new();
    put_entity(&mut out, origin);
    put_entity(&mut out, target);
    put_str(&mut out, operation);
    put_bytes(&mut out, payload);
    proof {
        assert(out@ =~= sig_input(origin@, target@, operation@, payload@));
    }
    out
}

impl Invocation {
    /// Build a signed invocation: a fresh correlation id, the given origin,
    /// target, operation and payload, the identity's signature over the
    /// canonical concatenation of those covered fields, and the identity's
    /// public key as issuer. The signature verifies against the attached
    /// issuer key.
    pub fn new(
        identity: &Identity,
        origin: WasccEntity,
        target: WasccEntity,
        operation: &str,
        msg: Vec<u8>,
    ) -> (r: Invocation)
        ensures
            r.origin@ == origin@,
            r.target@ == target@,
            r.operation@ == operation@,
            r.msg@ == msg@,
            r.issuer@ == identity.spec_public_key(),
            r.signature@ == sig_of(
                identity.spec_seed(),
                sig_input(origin@, target@, operation@, msg@),
            ),
            verify_ok(r.issuer@, sig_input(r.origin@, r.target@, r.operation@, r.msg@), r.signature@),
    {
        let covered = canonical_invocation_bytes(&origin, &target, operation, &msg);
        let signature = identity.sign(covered.as_slice());
        let issuer = identity.public_key();
        let id = new_correlation_id();
        Invocation { id, origin, target, operation: operation.to_owned(), msg, signature, issuer }
    }
}

/// The receiver-side check: whether the invocation's signature verifies
/// against its attached issuer public key over the covered fields. A
/// receiver must reject an invocation for which this returns false.
pub fn validate_invocation(inv: &Invocation) -> (r: bool)
    ensures
        r == verify_ok(
            inv.issuer@,
            sig_input(inv.origin@, inv.target@, inv.operation@, inv.msg@),
            inv.signature@,
        ),
{
    let covered = canonical_invocation_bytes(
        &inv.origin,
        &inv.target,
        inv.operation.as_str(),
        &inv.msg,
    );
    verify_with_key(inv.issuer.as_str(), covered.as_slice(), inv.signature.as_slice())
}

} // verus!
