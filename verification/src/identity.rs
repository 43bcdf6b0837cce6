//! Identity translation between the node's account-style address space and
//! the transport's peer-identifier space.
//!
//! The mapping is a deterministic, invertible derivation, not a stored
//! table: a peer identifier is a two-byte header (a hash code of zero, for
//! an identity digest, followed by the digest length) in front of the raw
//! address bytes.  Both directions fail exactly on malformed input and
//! never panic.

use vstd::prelude::*;
use crate::byteutil::{append_bytes, bytes_eq, copy_bytes};

verus! {

/// Length in bytes of a node-level account address.
pub const ADDRESS_LENGTH: usize = 16;

/// First header byte of a peer identifier: the code of the identity digest.
pub const PEER_ID_CODE: u8 = 0;

/// Second header byte of a peer identifier: the digest length.
pub const PEER_ID_DIGEST_LENGTH: u8 = 16;

/// A node-level account address: a fixed-width byte string.  Values of the
/// wrong width can be constructed (callers hand the library raw bytes), but
/// every translation rejects them.
#[derive(Debug, Clone)]
pub struct AccountAddress {
    bytes: Vec<u8>,
}

/// A transport-level peer identifier: header plus address bytes.
#[derive(Debug, Clone)]
pub struct PeerId {
    bytes: Vec<u8>,
}

impl View for AccountAddress {
    type V = Seq<u8>;

    closed spec fn view(&self) -> Seq<u8> {
        self.bytes@
    }
}

impl View for PeerId {
    type V = Seq<u8>;

    closed spec fn view(&self) -> Seq<u8> {
        self.bytes@
    }
}

/// A well-formed address is exactly `ADDRESS_LENGTH` bytes.
pub open spec fn address_wf(a: Seq<u8>) -> bool {
    a.len() == ADDRESS_LENGTH
}

/// A well-formed peer identifier carries the two-byte header and exactly
/// `ADDRESS_LENGTH` bytes of address after it.
pub open spec fn peer_id_wf(p: Seq<u8>) -> bool {
    &&& p.len() == ADDRESS_LENGTH + 2
    &&& p[0] == PEER_ID_CODE
    &&& p[1] == PEER_ID_DIGEST_LENGTH
}

/// The peer identifier derived from a well-formed address.
pub open spec fn spec_to_peer_id(a: Seq<u8>) -> Seq<u8>
    recommends
        address_wf(a),
{
    seq![PEER_ID_CODE, PEER_ID_DIGEST_LENGTH] + a
}

/// The address held inside a well-formed peer identifier.
pub open spec fn spec_to_address(p: Seq<u8>) -> Seq<u8>
    recommends
        peer_id_wf(p),
{
    p.subrange(2, p.len() as int)
}

/// Why an identity translation was refused.
#[derive(Debug, Clone, Copy, PartialEq, Eq, Structural)]
pub enum IdentityError {
    /// The address does not have `ADDRESS_LENGTH` bytes.
    BadAddressLength,
    /// The peer identifier is not a header followed by an address.
    BadPeerIdFormat,
}

impl AccountAddress {
    /// Wraps raw address bytes, without validating them.
    pub fn new(bytes: Vec<u8>) -> (r: AccountAddress)
        ensures
            r@ == bytes@,
    {
        AccountAddress { bytes }
    }

    /// Whether the address has the required width.
    pub open spec fn wf(&self) -> bool {
        address_wf(self@)
    }

    /// Runtime check of [`Self::wf`], for unverified callers.
    pub fn is_valid(&self) -> (r: bool)
        ensures
            r == self.wf(),
    {
        self.bytes.len() == ADDRESS_LENGTH
    }

    /// The raw bytes of the address.
    pub fn as_bytes(&self) -> (r: &Vec<u8>)
        ensures
            r@ == self@,
    {
        &self.bytes
    }

    /// A verified copy of the address.
    pub fn duplicate(&self) -> (r: AccountAddress)
        ensures
            r@ == self@,
    {
        AccountAddress { bytes: copy_bytes(&self.bytes) }
    }

    /// Whether two addresses hold the same bytes.
    pub fn same(&self, other: &AccountAddress) -> (r: bool)
        ensures
            r == (self@ == other@),
    {
        bytes_eq(&self.bytes, &other.bytes)
    }
}

impl PeerId {
    /// Wraps raw peer-identifier bytes, without validating them.
    pub fn new(bytes: Vec<u8>) -> (r: PeerId)
        ensures
            r@ == bytes@,
    {
        PeerId { bytes }
    }

    /// Whether the peer identifier has the required header and width.
    pub open spec fn wf(&self) -> bool {
        peer_id_wf(self@)
    }

    /// Runtime check of [`Self::wf`], for unverified callers.
    pub fn is_valid(&self) -> (r: bool)
        ensures
            r == self.wf(),
    {
        self.bytes.len() == ADDRESS_LENGTH + 2 && self.bytes[0] == PEER_ID_CODE
            && self.bytes[1] == PEER_ID_DIGEST_LENGTH
    }

    /// The raw bytes of the peer identifier.
    pub fn as_bytes(&self) -> (r: &Vec<u8>)
        ensures
            r@ == self@,
    {
        &self.bytes
    }

    /// A verified copy of the peer identifier.
    pub fn duplicate(&self) -> (r: PeerId)
        ensures
            r@ == self@,
    {
        PeerId { bytes: copy_bytes(&self.bytes) }
    }

    /// Whether two peer identifiers hold the same bytes.
    pub fn same(&self, other: &PeerId) -> (r: bool)
        ensures
            r == (self@ == other@),
    {
        bytes_eq(&self.bytes, &other.bytes)
    }
}

/// Derives the transport-level peer identifier of an address.
///
/// Succeeds exactly on well-formed addresses; the failure is reported, never
/// a panic.
pub fn convert_account_address_to_peer_id(address: &AccountAddress) -> (r: Result<
    PeerId,
    IdentityError,
>)
    ensures
        address.wf() ==> (r matches Ok(p) && p@ == spec_to_peer_id(address@)),
        !address.wf() ==> r == Err::<PeerId, IdentityError>(IdentityError::BadAddressLength),
{
    if address.bytes.len() != ADDRESS_LENGTH {
        return Err(IdentityError::BadAddressLength);
    }
    let mut bytes: Vec<u8> = Vec::new();
    bytes.push(PEER_ID_CODE);
    bytes.push(PEER_ID_DIGEST_LENGTH);
    append_bytes(&mut bytes, &address.bytes);
    assert(bytes@ =~= spec_to_peer_id(address@));
    Ok(PeerId { bytes })
}

/// Recovers the address held inside a transport-level peer identifier.
///
/// Succeeds exactly on well-formed peer identifiers; the failure is
/// reported, never a panic.
pub fn convert_peer_id_to_account_address(peer_id: &PeerId) -> (r: Result<
    AccountAddress,
    IdentityError,
>)
    ensures
        peer_id.wf() ==> (r matches Ok(a) && a@ == spec_to_address(peer_id@) && a.wf()),
        !peer_id.wf() ==> r == Err::<AccountAddress, IdentityError>(IdentityError::BadPeerIdFormat),
{
    if peer_id.bytes.len() != ADDRESS_LENGTH + 2 {
        return Err(IdentityError::BadPeerIdFormat);
    }
    if peer_id.bytes[0] != PEER_ID_CODE || peer_id.bytes[1] != PEER_ID_DIGEST_LENGTH {
        return Err(IdentityError::BadPeerIdFormat);
    }
    let mut bytes: Vec<u8> = Vec::new();
    let mut i: usize = 2;
    while i < peer_id.bytes.len()
        invariant
            2 <= i <= peer_id@.len(),
            peer_id@.len() == ADDRESS_LENGTH + 2,
            bytes@ == peer_id@.subrange(2, i as int),
        decreases peer_id@.len() - i,
    {
        bytes.push(peer_id.bytes[i]);
        assert(bytes@ =~= peer_id@.subrange(2, i + 1));
        i = i + 1;
    }
    assert(bytes@ =~= spec_to_address(peer_id@));
    Ok(AccountAddress { bytes })
}

/// Law: deriving a peer identifier from a well-formed address and reading
/// the address back returns the original address.
pub proof fn lemma_identity_round_trip(a: Seq<u8>)
    requires
        address_wf(a),
    ensures
        peer_id_wf(spec_to_peer_id(a)),
        spec_to_address(spec_to_peer_id(a)) == a,
{
    assert(spec_to_address(spec_to_peer_id(a)) =~= a);
}

/// Law: reading the address out of a well-formed peer identifier and
/// deriving a peer identifier from it returns the original identifier.
pub proof fn lemma_peer_id_round_trip(p: Seq<u8>)
    requires
        peer_id_wf(p),
    ensures
        address_wf(spec_to_address(p)),
        spec_to_peer_id(spec_to_address(p)) == p,
{
    assert(spec_to_peer_id(spec_to_address(p)) =~= p);
}

} // verus!
