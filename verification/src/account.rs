//! Principals and the subaccount under which a neuron's stake is held.
//!
//! The subaccount of a staking neuron is the SHA-256 digest of a domain tag,
//! the label `neuron-stake`, the controller's bytes and the nonce as eight
//! big-endian bytes. The bytes that are digested are built and specified
//! here; the digest itself is computed by OpenSSL.

use crate::memo::be_value;
use vstd::prelude::*;

verus! {

/// The longest byte string that identifies a principal.
pub const MAX_PRINCIPAL_BYTES: usize = 29;

/// The byte that separates this digest from digests made for other purposes.
pub const DOMAIN_TAG: u8 = 0x0c;

/// The ASCII bytes of `neuron-stake`.
pub const STAKE_LABEL: [u8; 12] = [
    0x6e, 0x65, 0x75, 0x72, 0x6f, 0x6e, 0x2d, 0x73, 0x74, 0x61, 0x6b, 0x65,
];

/// The byte that alone identifies the anonymous principal.
pub const ANONYMOUS_TAG: u8 = 4;

/// Whether a byte string identifies a principal: at most 29 bytes, and not
/// the anonymous tag behind other bytes.
pub open spec fn is_principal_bytes(bytes: Seq<u8>) -> bool {
    &&& bytes.len() <= MAX_PRINCIPAL_BYTES
    &&& bytes.len() >= 2 ==> bytes.last() != ANONYMOUS_TAG
}

/// The SHA-256 digest of a byte string, as OpenSSL computes it.
pub uninterp spec fn sha256(data: Seq<u8>) -> Seq<u8>;

/// The bytes of the principal that a text denotes, where it denotes one, as
/// `ic_types` reads the textual form of a principal.
pub uninterp spec fn principal_from_text(text: Seq<char>) -> Option<Seq<u8>>;

#[verifier::external_type_specification]
#[verifier::external_body]
pub struct ExPrincipalError(ic_types::PrincipalError);

/// `openssl::sha::sha256`: the 32 bytes returned are the SHA-256 digest of
/// the data, a function of the data alone.
#[verifier::external_body]
pub(crate) fn sha256_digest(data: &[u8]) -> (digest: [u8; 32])
    ensures
        digest@ == sha256(data@),
{
    openssl::sha::sha256(data)
}

/// `ic_types::Principal::from_text`, followed by `as_slice` on the principal
/// it gives: the outcome depends on the text alone, and the bytes of a
/// principal are at most 29, the last of two or more never being the
/// anonymous tag.
#[verifier::external_body]
pub(crate) fn parse_principal_text(text: &str) -> (res: Result<Vec<u8>, ic_types::PrincipalError>)
    ensures
        res matches Ok(bytes) ==> principal_from_text(text@) == Some(bytes@) && is_principal_bytes(
            bytes@,
        ),
        res is Err ==> principal_from_text(text@) is None,
{
    let principal = ic_types::Principal::from_text(text)?;
    Ok(principal.as_slice().to_vec())
}

/// The identifier of an actor: a caller or a canister.
#[derive(Debug)]
pub struct Principal {
    bytes: Vec<u8>,
}

impl View for Principal {
    type V = Seq<u8>;

    closed spec fn view(&self) -> Seq<u8> {
        self.bytes@
    }
}

impl Principal {
    #[verifier::type_invariant]
    spec fn well_formed(self) -> bool {
        is_principal_bytes(self.bytes@)
    }

    /// The principal with the given bytes, if they identify one.
    pub fn from_bytes(bytes: Vec<u8>) -> (res: Option<Principal>)
        ensures
            res is Some <==> is_principal_bytes(bytes@),
            res matches Some(p) ==> p@ == bytes@,
    {
        let len = bytes.len();
        if len > MAX_PRINCIPAL_BYTES || (len >= 2 && bytes[len - 1] == ANONYMOUS_TAG) {
            None
        } else {
            Some(Principal { bytes })
        }
    }

    /// The principal that a text denotes, if it denotes one.
    pub fn from_text(text: &str) -> (res: Option<Principal>)
        ensures
            res is Some <==> principal_from_text(text@) is Some,
            res matches Some(p) ==> Some(p@) == principal_from_text(text@),
    {
        match parse_principal_text(text) {
            Ok(bytes) => Principal::from_bytes(bytes),
            Err(_) => None,
        }
    }

    /// The bytes of the principal.
    pub fn as_slice(&self) -> (bytes: &[u8])
        ensures
            bytes@ == self@,
            is_principal_bytes(bytes@),
    {
        proof {
            use_type_invariant(self);
        }
        self.bytes.as_slice()
    }
}

impl Clone for Principal {
    fn clone(&self) -> (res: Self)
        ensures
            res@ == self@,
    {
        proof {
            use_type_invariant(self);
        }
        Principal { bytes: self.bytes.clone() }
    }
}

/// A 32-byte extension of a principal's account space.
#[derive(Debug, Clone, Copy)]
pub struct Subaccount(pub [u8; 32]);

impl View for Subaccount {
    type V = Seq<u8>;

    open spec fn view(&self) -> Seq<u8> {
        self.0@
    }
}

/// An account: a principal together with one of its subaccounts.
#[derive(Debug)]
pub struct AccountAddress {
    pub owner: Principal,
    pub subaccount: Subaccount,
}

/// The eight bytes of a 64-bit integer, most significant first.
pub open spec fn be_bytes(n: u64) -> Seq<u8> {
    seq![
        (n / 0x100_0000_0000_0000) as u8,
        (n / 0x1_0000_0000_0000 % 256) as u8,
        (n / 0x100_0000_0000 % 256) as u8,
        (n / 0x1_0000_0000 % 256) as u8,
        (n / 0x100_0000 % 256) as u8,
        (n / 0x1_0000 % 256) as u8,
        (n / 0x100 % 256) as u8,
        (n % 256) as u8,
    ]
}

/// The bytes whose digest is the subaccount of the neuron that `controller`
/// stakes under `nonce`.
pub open spec fn subaccount_preimage(controller: Seq<u8>, nonce: u64) -> Seq<u8> {
    seq![DOMAIN_TAG] + STAKE_LABEL@ + controller + be_bytes(nonce)
}

/// The subaccount of the neuron that `controller` stakes under `nonce`.
pub open spec fn neuron_subaccount(controller: Seq<u8>, nonce: u64) -> Seq<u8> {
    sha256(subaccount_preimage(controller, nonce))
}

/// Each quotient of an integer by a power of 256 is 256 times the next
/// quotient plus one byte.
proof fn lemma_quotients(n: u64)
    ensures
        n / 0x100_0000_0000_0000 < 256,
        n / 0x1_0000_0000_0000 == 256 * (n / 0x100_0000_0000_0000) + n / 0x1_0000_0000_0000 % 256,
        n / 0x100_0000_0000 == 256 * (n / 0x1_0000_0000_0000) + n / 0x100_0000_0000 % 256,
        n / 0x1_0000_0000 == 256 * (n / 0x100_0000_0000) + n / 0x1_0000_0000 % 256,
        n / 0x100_0000 == 256 * (n / 0x1_0000_0000) + n / 0x100_0000 % 256,
        n / 0x1_0000 == 256 * (n / 0x100_0000) + n / 0x1_0000 % 256,
        n / 0x100 == 256 * (n / 0x1_0000) + n / 0x100 % 256,
        n == 256 * (n / 0x100) + n % 256,
{
    assert(n / 0x100_0000_0000_0000 < 256) by (bit_vector);
    assert(n / 0x1_0000_0000_0000 == 256 * (n / 0x100_0000_0000_0000) + n / 0x1_0000_0000_0000
        % 256) by (bit_vector);
    assert(n / 0x100_0000_0000 == 256 * (n / 0x1_0000_0000_0000) + n / 0x100_0000_0000 % 256)
        by (bit_vector);
    assert(n / 0x1_0000_0000 == 256 * (n / 0x100_0000_0000) + n / 0x1_0000_0000 % 256)
        by (bit_vector);
    assert(n / 0x100_0000 == 256 * (n / 0x1_0000_0000) + n / 0x100_0000 % 256) by (bit_vector);
    assert(n / 0x1_0000 == 256 * (n / 0x100_0000) + n / 0x1_0000 % 256) by (bit_vector);
    assert(n / 0x100 == 256 * (n / 0x1_0000) + n / 0x100 % 256) by (bit_vector);
    assert(n == 256 * (n / 0x100) + n % 256) by (bit_vector);
}

/// The value of a non-empty byte string, from the value of all but its
/// last byte.
proof fn lemma_be_value_step(bytes: Seq<u8>, k: int)
    requires
        0 < k <= bytes.len(),
    ensures
        be_value(bytes.take(k)) == 256 * be_value(bytes.take(k - 1)) + bytes[k - 1] as nat,
{
    assert(bytes.take(k).drop_last() =~= bytes.take(k - 1));
}

/// The eight bytes of an integer denote that integer.
pub proof fn lemma_be_bytes_value(n: u64)
    ensures
        be_bytes(n).len() == 8,
        be_value(be_bytes(n)) == n,
{
    let b = be_bytes(n);
    lemma_quotients(n);
    assert(be_value(b.take(0)) == 0);
    lemma_be_value_step(b, 1);
    assert(be_value(b.take(1)) == n / 0x100_0000_0000_0000);
    lemma_be_value_step(b, 2);
    assert(be_value(b.take(2)) == n / 0x1_0000_0000_0000);
    lemma_be_value_step(b, 3);
    assert(be_value(b.take(3)) == n / 0x100_0000_0000);
    lemma_be_value_step(b, 4);
    assert(be_value(b.take(4)) == n / 0x1_0000_0000);
    lemma_be_value_step(b, 5);
    assert(be_value(b.take(5)) == n / 0x100_0000);
    lemma_be_value_step(b, 6);
    assert(be_value(b.take(6)) == n / 0x1_0000);
    lemma_be_value_step(b, 7);
    assert(be_value(b.take(7)) == n / 0x100);
    lemma_be_value_step(b, 8);
    assert(b.take(8) =~= b);
}

/// Different integers have different big-endian bytes.
pub proof fn lemma_be_bytes_injective(a: u64, b: u64)
    requires
        be_bytes(a) == be_bytes(b),
    ensures
        a == b,
{
    lemma_be_bytes_value(a);
    lemma_be_bytes_value(b);
}

/// The digested bytes determine both the controller and the nonce: two
/// derivations digest the same bytes only if they agree on both inputs.
pub proof fn lemma_preimage_injective(c1: Seq<u8>, n1: u64, c2: Seq<u8>, n2: u64)
    requires
        subaccount_preimage(c1, n1) == subaccount_preimage(c2, n2),
    ensures
        c1 == c2,
        n1 == n2,
{
    let left = subaccount_preimage(c1, n1);
    let right = subaccount_preimage(c2, n2);
    assert(left.len() == 13 + c1.len() + 8);
    assert(right.len() == 13 + c2.len() + 8);
    assert(c1 =~= left.subrange(13, 13 + c1.len() as int));
    assert(c2 =~= right.subrange(13, 13 + c2.len() as int));
    assert(be_bytes(n1) =~= left.subrange(13 + c1.len() as int, left.len() as int));
    assert(be_bytes(n2) =~= right.subrange(13 + c2.len() as int, right.len() as int));
    lemma_be_bytes_injective(n1, n2);
}

/// Appends the eight big-endian bytes of `n`.
fn push_be_bytes(out: &mut Vec<u8>, n: u64)
    ensures
        final(out)@ == old(out)@ + be_bytes(n),
{
    out.push((n / 0x100_0000_0000_0000) as u8);
    out.push((n / 0x1_0000_0000_0000 % 256) as u8);
    out.push((n / 0x100_0000_0000 % 256) as u8);
    out.push((n / 0x1_0000_0000 % 256) as u8);
    out.push((n / 0x100_0000 % 256) as u8);
    out.push((n / 0x1_0000 % 256) as u8);
    out.push((n / 0x100 % 256) as u8);
    out.push((n % 256) as u8);
    assert(out@ =~= old(out)@ + be_bytes(n));
}

/// Builds the bytes that are digested into a neuron's subaccount.
pub fn neuron_subaccount_preimage(controller: &Principal, nonce: u64) -> (data: Vec<u8>)
    ensures
        data@ == subaccount_preimage(controller@, nonce),
{
    let mut data: Vec<u8> = Vec::new();
    data.push(DOMAIN_TAG);
    let label = STAKE_LABEL;
    let mut i: usize = 0;
    while i < 12
        invariant
            i <= 12,
            label@ == STAKE_LABEL@,
            data@ == seq![DOMAIN_TAG] + STAKE_LABEL@.take(i as int),
        decreases 12 - i,
    {
        data.push(label[i]);
        i += 1;
        assert(data@ =~= seq![DOMAIN_TAG] + STAKE_LABEL@.take(i as int));
    }
    assert(STAKE_LABEL@.take(12) =~= STAKE_LABEL@);
    let id = controller.as_slice();
    let mut j: usize = 0;
    while j < id.len()
        invariant
            j <= id.len(),
            data@ == seq![DOMAIN_TAG] + STAKE_LABEL@ + id@.take(j as int),
        decreases id.len() - j,
    {
        data.push(id[j]);
        j += 1;
        assert(data@ =~= seq![DOMAIN_TAG] + STAKE_LABEL@ + id@.take(j as int));
    }
    assert(id@.take(j as int) =~= id@);
    push_be_bytes(&mut data, nonce);
    data
}

/// Derives the subaccount of the neuron that `controller` stakes under
/// `nonce`: the SHA-256 digest of the domain tag, the stake label, the
/// controller's bytes and the big-endian nonce.
pub fn get_neuron_subaccount(controller: &Principal, nonce: u64) -> (subaccount: Subaccount)
    ensures
        subaccount@ == neuron_subaccount(controller@, nonce),
{
    let data = neuron_subaccount_preimage(controller, nonce);
    Subaccount(sha256_digest(data.as_slice()))
}

} // verus!
