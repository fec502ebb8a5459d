//! Addresses derived from public keys: the address of a BLS key is the key;
//! that of a secp256k1 key is a 20-byte BLAKE2b digest of it; a delegated
//! address is the Ethereum address of the key, under the Ethereum
//! account manager's namespace.
use vstd::prelude::*;

verus! {

/// Length of a BLS public key.
pub const BLS_PUB_LEN: usize = 48;

/// Length of an uncompressed secp256k1 public key.
pub const SECP_PUB_LEN: usize = 65;

/// Length of a secp256k1 address payload.
pub const PAYLOAD_HASH_LEN: usize = 20;

/// Namespace of delegated addresses made from Ethereum addresses.
pub const EAM_ACTOR_ID: u64 = 10;

/// First byte of an uncompressed secp256k1 public key.
pub const UNCOMPRESSED_TAG: u8 = 4;

/// The kinds of key a wallet holds.
#[derive(Debug, Clone, Copy, PartialEq, Eq, Structural)]
pub enum SignatureType {
    Secp256k1,
    Bls,
    Delegated,
}

/// An address on the chain.
#[derive(Debug, Clone, PartialEq, Eq)]
pub enum Address {
    Id(u64),
    Secp256k1(Vec<u8>),
    Bls(Vec<u8>),
    Delegated { namespace: u64, subaddress: Vec<u8> },
}

/// The mathematical form of an address.
pub enum AddressView {
    Id(int),
    Secp256k1(Seq<u8>),
    Bls(Seq<u8>),
    Delegated { namespace: int, subaddress: Seq<u8> },
}

impl View for Address {
    type V = AddressView;

    open spec fn view(&self) -> AddressView {
        match self {
            Address::Id(id) => AddressView::Id(*id as int),
            Address::Secp256k1(p) => AddressView::Secp256k1(p@),
            Address::Bls(p) => AddressView::Bls(p@),
            Address::Delegated { namespace, subaddress } => AddressView::Delegated {
                namespace: *namespace as int,
                subaddress: subaddress@,
            },
        }
    }
}

/// Why no address could be made from a key.
#[derive(Debug, Clone, Copy, PartialEq, Eq, Structural)]
pub enum AddressError {
    InvalidSecpLength,
    InvalidBlsLength,
    InvalidEthPublicKey,
}

/// The 20-byte BLAKE2b digest of some bytes.
pub uninterp spec fn blake2b_160_of(data: Seq<u8>) -> Seq<u8>;

/// The Keccak-256 digest of some bytes.
pub uninterp spec fn keccak_256_of(data: Seq<u8>) -> Seq<u8>;

/// Relies on blake2b_simd::Params with a hash length of 20: the digest of
/// the bytes, 20 bytes long.
#[verifier::external_body]
fn blake2b_160(data: &[u8]) -> (r: Vec<u8>)
    ensures
        r@ == blake2b_160_of(data@),
        r@.len() == PAYLOAD_HASH_LEN,
{
    blake2b_simd::Params::new().hash_length(PAYLOAD_HASH_LEN).hash(data).as_bytes().to_vec()
}

/// Relies on keccak_hash::keccak: the Keccak-256 digest, 32 bytes long.
#[verifier::external_body]
fn keccak_256(data: &[u8]) -> (r: Vec<u8>)
    ensures
        r@ == keccak_256_of(data@),
        r@.len() == 32,
{
    keccak_hash::keccak(data).as_bytes().to_vec()
}

/// The bytes of `s` from `lo` up to `hi`.
fn copy_range(s: &[u8], lo: usize, hi: usize) -> (r: Vec<u8>)
    requires
        lo <= hi <= s@.len(),
    ensures
        r@ == s@.subrange(lo as int, hi as int),
{
    let mut out: Vec<u8> = Vec::new();
    let mut i: usize = lo;
    while i < hi
        invariant
            lo <= i <= hi,
            hi <= s@.len(),
            out@ == s@.subrange(lo as int, i as int),
        decreases hi - i,
    {
        out.push(s[i]);
        i = i + 1;
        assert(out@ =~= s@.subrange(lo as int, i as int));
    }
    out
}

/// The value of big-endian bytes.
pub open spec fn be_value(s: Seq<u8>) -> nat
    decreases s.len(),
{
    if s.len() == 0 {
        0
    } else {
        be_value(s.drop_last()) * 256 + s.last() as nat
    }
}

proof fn lemma_be_value_bound(s: Seq<u8>)
    ensures
        be_value(s) < pow256(s.len()),
    decreases s.len(),
{
    if s.len() > 0 {
        lemma_be_value_bound(s.drop_last());
        let a = be_value(s.drop_last());
        let p = pow256(s.drop_last().len());
        assert(a * 256 + s.last() < p * 256) by (nonlinear_arith)
            requires
                a < p,
                s.last() < 256,
        ;
    }
}

/// 256 to the power `n`.
pub open spec fn pow256(n: nat) -> nat
    decreases n,
{
    if n == 0 {
        1
    } else {
        pow256((n - 1) as nat) * 256
    }
}

/// The value of eight big-endian bytes.
fn be_u64(s: &Vec<u8>) -> (r: u64)
    requires
        s@.len() == 8,
    ensures
        r == be_value(s@),
{
    let mut acc: u64 = 0;
    let mut i: usize = 0;
    proof {
        reveal_with_fuel(pow256, 9);
    }
    assert(pow256(8) == 0x1_0000_0000_0000_0000nat);
    while i < 8
        invariant
            0 <= i <= 8,
            s@.len() == 8,
            acc == be_value(s@.take(i as int)),
            pow256(8) == 0x1_0000_0000_0000_0000nat,
        decreases 8 - i,
    {
        assert(s@.take(i as int + 1).drop_last() =~= s@.take(i as int));
        assert(s@.take(i as int + 1).last() == s@[i as int]);
        assert(be_value(s@.take(i as int + 1)) == acc * 256 + s@[i as int]);
        proof {
            lemma_be_value_bound(s@.take(i as int + 1));
            lemma_pow256_mono((i + 1) as nat, 8);
        }
        acc = acc * 256 + s[i] as u64;
        i = i + 1;
    }
    assert(s@.take(8) =~= s@);
    acc
}

proof fn lemma_pow256_mono(a: nat, b: nat)
    requires
        a <= b,
    ensures
        pow256(a) <= pow256(b),
    decreases b,
{
    if a < b {
        lemma_pow256_mono(a, (b - 1) as nat);
    }
}

/// Whether an Ethereum address masks an actor identifier: the byte 0xff,
/// then eleven zero bytes.
pub open spec fn masks_id(eth: Seq<u8>) -> bool {
    eth[0] == 0xff && forall|i: int| 1 <= i < 12 ==> eth[i] == 0
}

/// The address of an Ethereum address: the masked actor identifier, or a
/// delegated address in the account manager's namespace.
pub open spec fn filecoin_address_of(eth: Seq<u8>) -> AddressView {
    if masks_id(eth) {
        AddressView::Id(be_value(eth.subrange(12, 20)) as int)
    } else {
        AddressView::Delegated { namespace: EAM_ACTOR_ID as int, subaddress: eth }
    }
}

/// The Ethereum address of an uncompressed secp256k1 key: the last 20
/// bytes of the Keccak-256 digest of the key without its tag byte.
pub open spec fn eth_address_of(public_key: Seq<u8>) -> Seq<u8> {
    keccak_256_of(public_key.subrange(1, public_key.len() as int)).subrange(12, 32)
}

/// The address that a public key of a kind gives.
pub open spec fn address_of(sig_type: SignatureType, public_key: Seq<u8>) -> Result<AddressView, AddressError> {
    match sig_type {
        SignatureType::Bls => if public_key.len() == BLS_PUB_LEN {
            Ok(AddressView::Bls(public_key))
        } else {
            Err(AddressError::InvalidBlsLength)
        },
        SignatureType::Secp256k1 => if public_key.len() == SECP_PUB_LEN {
            Ok(AddressView::Secp256k1(blake2b_160_of(public_key)))
        } else {
            Err(AddressError::InvalidSecpLength)
        },
        SignatureType::Delegated => if public_key.len() == SECP_PUB_LEN && public_key[0] == UNCOMPRESSED_TAG {
            Ok(filecoin_address_of(eth_address_of(public_key)))
        } else {
            Err(AddressError::InvalidEthPublicKey)
        },
    }
}

/// The address of kind `sig_type` for `public_key`.
pub fn new_address(sig_type: SignatureType, public_key: &[u8]) -> (r: Result<Address, AddressError>)
    ensures
        match (r, address_of(sig_type, public_key@)) {
            (Ok(a), Ok(v)) => a@ == v,
            (Err(e), Err(f)) => e == f,
            _ => false,
        },
{
    match sig_type {
        SignatureType::Bls => {
            if public_key.len() != BLS_PUB_LEN {
                return Err(AddressError::InvalidBlsLength);
            }
            let key = copy_range(public_key, 0, public_key.len());
            assert(key@ =~= public_key@);
            Ok(Address::Bls(key))
        },
        SignatureType::Secp256k1 => {
            if public_key.len() != SECP_PUB_LEN {
                return Err(AddressError::InvalidSecpLength);
            }
            Ok(Address::Secp256k1(blake2b_160(public_key)))
        },
        SignatureType::Delegated => {
            if public_key.len() != SECP_PUB_LEN || public_key[0] != UNCOMPRESSED_TAG {
                return Err(AddressError::InvalidEthPublicKey);
            }
            let body = copy_range(public_key, 1, public_key.len());
            let digest = keccak_256(body.as_slice());
            let eth = copy_range(digest.as_slice(), 12, 32);
            let mut masked = eth[0] == 0xff;
            let mut i: usize = 1;
            while i < 12
                invariant
                    1 <= i <= 12,
                    eth@.len() == 20,
                    masked == (eth@[0] == 0xff && forall|j: int| 1 <= j < i ==> eth@[j] == 0),
                decreases 12 - i,
            {
                masked = masked && eth[i] == 0;
                i = i + 1;
            }
            if masked {
                let id_bytes = copy_range(eth.as_slice(), 12, 20);
                Ok(Address::Id(be_u64(&id_bytes)))
            } else {
                Ok(Address::Delegated { namespace: EAM_ACTOR_ID, subaddress: eth })
            }
        },
    }
}

} // verus!
