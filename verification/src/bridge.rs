use vstd::prelude::*;

use crate::memory::region_of;
use crate::memory::region_ok;
use crate::memory::try_slice;
use crate::memory::write_region;

verus! {

#[verifier::external_type_specification]
#[verifier::external_body]
pub struct ExCid<const S: usize>(cid::CidGeneric<S>);

#[verifier::external_type_specification]
#[verifier::external_body]
pub struct ExSignature(fvm_shared::crypto::signature::Signature);

#[verifier::external_type_specification]
#[verifier::external_body]
pub struct ExAddress(fvm_shared::address::Address);

#[verifier::external_type_specification]
#[verifier::external_body]
pub struct ExPieceInfo(fvm_shared::piece::PieceInfo);

#[verifier::external_type_specification]
#[verifier::external_body]
pub struct ExRegisteredSealProof(fvm_shared::sector::RegisteredSealProof);

#[verifier::external_type_specification]
#[verifier::external_body]
pub struct ExSealVerifyInfo(fvm_shared::sector::SealVerifyInfo);

#[verifier::external_type_specification]
#[verifier::external_body]
pub struct ExWindowPoStVerifyInfo(fvm_shared::sector::WindowPoStVerifyInfo);

#[verifier::external_type_specification]
#[verifier::external_body]
pub struct ExAggregateSealVerifyProofAndInfos(fvm_shared::sector::AggregateSealVerifyProofAndInfos);

#[verifier::external_type_specification]
#[verifier::external_body]
pub struct ExConsensusFault(fvm_shared::consensus::ConsensusFault);

/// The digest length every hashing syscall writes back.
pub const HASH_LEN: usize = 32;

/// The guest-visible abort signal: every fatal syscall condition converts to
/// one of these and unwinds the current guest call.
#[derive(Debug, Eq, PartialEq, Copy, Clone, Structural)]
pub enum Abort {
    /// An argument region lies (partly) outside guest memory.
    MemoryAccess,
    /// A validated argument region failed to decode.
    Decode,
    /// The host capability operation itself reported a failure.
    Host,
    /// An internal contract violation, such as a digest of the wrong size.
    Internal,
}

/// A typed failure reported by a host capability operation.
#[derive(Debug, Eq, PartialEq, Copy, Clone, Structural)]
pub struct HostError;

/// The host capability interface: the cryptographic and consensus operations
/// the syscall bridge dispatches to, implemented by the surrounding execution
/// environment. Every operation must be byte-for-byte deterministic across
/// conforming implementations, since its results affect consensus. Gas for
/// these operations is charged by the capability layer itself, not here.
pub trait Kernel {
    /// Whether the signature signs the plaintext for the address.
    fn verify_signature(
        &mut self,
        sig: &fvm_shared::crypto::signature::Signature,
        addr: &fvm_shared::address::Address,
        plaintext: &Vec<u8>,
    ) -> Result<bool, HostError>;

    /// The 256-bit digest of the data.
    fn hash_blake2b(&mut self, data: &Vec<u8>) -> Result<Vec<u8>, HostError>;

    /// The unsealed sector identifier derived from the piece descriptors.
    fn compute_unsealed_sector_cid(
        &mut self,
        proof_type: fvm_shared::sector::RegisteredSealProof,
        pieces: &Vec<fvm_shared::piece::PieceInfo>,
    ) -> Result<cid::Cid, HostError>;

    /// Whether the sector seal proof verifies.
    fn verify_seal(&mut self, info: &fvm_shared::sector::SealVerifyInfo) -> Result<
        bool,
        HostError,
    >;

    /// Whether the window proof-of-spacetime verifies.
    fn verify_post(&mut self, info: &fvm_shared::sector::WindowPoStVerifyInfo) -> Result<
        bool,
        HostError,
    >;

    /// Tri-state: a fault with its payload, no fault, or a failed evaluation.
    fn verify_consensus_fault(
        &mut self,
        h1: &Vec<u8>,
        h2: &Vec<u8>,
        extra: &Vec<u8>,
    ) -> Result<Option<fvm_shared::consensus::ConsensusFault>, HostError>;

    /// Whether the aggregate seal proof verifies.
    fn verify_aggregate_seals(
        &mut self,
        agg: &fvm_shared::sector::AggregateSealVerifyProofAndInfos,
    ) -> Result<bool, HostError>;

    /// Pushes a variable-size result onto the auxiliary return-value channel.
    fn return_push(&mut self, fault: fvm_shared::consensus::ConsensusFault) -> Result<
        (),
        HostError,
    >;
}

/// Whether the bytes decode as an encoded signature.
pub uninterp spec fn signature_decodes(b: Seq<u8>) -> bool;

/// Relies on fvm_ipld_encoding::from_slice for fvm_shared's Signature: the
/// self-describing encoding either decodes or fails on the bytes alone.
#[verifier::external_body]
fn decode_signature(b: &Vec<u8>) -> (r: Option<fvm_shared::crypto::signature::Signature>)
    ensures
        (r is Some) == signature_decodes(b@),
{
    fvm_ipld_encoding::from_slice::<fvm_shared::crypto::signature::Signature>(b.as_slice()).ok()
}

/// Whether the bytes decode as an address.
pub uninterp spec fn address_decodes(b: Seq<u8>) -> bool;

/// Relies on fvm_shared's Address::from_bytes: the encoding either decodes or
/// fails on the bytes alone.
#[verifier::external_body]
fn decode_address(b: &Vec<u8>) -> (r: Option<fvm_shared::address::Address>)
    ensures
        (r is Some) == address_decodes(b@),
{
    fvm_shared::address::Address::from_bytes(b.as_slice()).ok()
}

/// Whether the bytes decode as a list of piece descriptors.
pub uninterp spec fn piece_infos_decode(b: Seq<u8>) -> bool;

/// Relies on fvm_ipld_encoding::from_slice for a vector of fvm_shared's
/// PieceInfo: the encoding either decodes or fails on the bytes alone.
#[verifier::external_body]
fn decode_piece_infos(b: &Vec<u8>) -> (r: Option<Vec<fvm_shared::piece::PieceInfo>>)
    ensures
        (r is Some) == piece_infos_decode(b@),
{
    fvm_ipld_encoding::from_slice::<Vec<fvm_shared::piece::PieceInfo>>(b.as_slice()).ok()
}

/// Whether the bytes decode as a seal verification descriptor.
pub uninterp spec fn seal_info_decodes(b: Seq<u8>) -> bool;

/// Relies on fvm_ipld_encoding::from_slice for fvm_shared's SealVerifyInfo.
#[verifier::external_body]
fn decode_seal_info(b: &Vec<u8>) -> (r: Option<fvm_shared::sector::SealVerifyInfo>)
    ensures
        (r is Some) == seal_info_decodes(b@),
{
    fvm_ipld_encoding::from_slice::<fvm_shared::sector::SealVerifyInfo>(b.as_slice()).ok()
}

/// Whether the bytes decode as a window proof-of-spacetime descriptor.
pub uninterp spec fn post_info_decodes(b: Seq<u8>) -> bool;

/// Relies on fvm_ipld_encoding::from_slice for fvm_shared's
/// WindowPoStVerifyInfo.
#[verifier::external_body]
fn decode_post_info(b: &Vec<u8>) -> (r: Option<fvm_shared::sector::WindowPoStVerifyInfo>)
    ensures
        (r is Some) == post_info_decodes(b@),
{
    fvm_ipld_encoding::from_slice::<fvm_shared::sector::WindowPoStVerifyInfo>(b.as_slice()).ok()
}

/// Whether the bytes decode as an aggregate seal descriptor.
pub uninterp spec fn aggregate_info_decodes(b: Seq<u8>) -> bool;

/// Relies on fvm_ipld_encoding::from_slice for fvm_shared's
/// AggregateSealVerifyProofAndInfos.
#[verifier::external_body]
fn decode_aggregate_info(b: &Vec<u8>) -> (r: Option<
    fvm_shared::sector::AggregateSealVerifyProofAndInfos,
>)
    ensures
        (r is Some) == aggregate_info_decodes(b@),
{
    fvm_ipld_encoding::from_slice::<fvm_shared::sector::AggregateSealVerifyProofAndInfos>(
        b.as_slice(),
    ).ok()
}

/// Relies on fvm_shared's From<i64> for RegisteredSealProof: a total mapping
/// from the wire discriminant to a proof type.
#[verifier::external_body]
fn seal_proof_from_i64(n: i64) -> fvm_shared::sector::RegisteredSealProof {
    fvm_shared::sector::RegisteredSealProof::from(n)
}

/// Verifies that a signature is valid for an address and plaintext, all three
/// read from bounds-checked guest memory regions. A bad region aborts with a
/// memory-access fault before any decoding; a malformed signature or address
/// encoding aborts with a decode fault; otherwise the outcome is the host
/// capability's answer, or its failure.
pub fn verify_signature<K: Kernel>(
    k: &mut K,
    mem: &Vec<u8>,
    sig_off: u32,
    sig_len: u32,
    addr_off: u32,
    addr_len: u32,
    plaintext_off: u32,
    plaintext_len: u32,
) -> (r: Result<bool, Abort>)
    ensures
        !region_ok(mem@.len() as int, sig_off, sig_len) ==> r == Err::<bool, Abort>(
            Abort::MemoryAccess,
        ),
        region_ok(mem@.len() as int, sig_off, sig_len) && !signature_decodes(
            region_of(mem@, sig_off, sig_len),
        ) ==> r == Err::<bool, Abort>(Abort::Decode),
        region_ok(mem@.len() as int, sig_off, sig_len) && signature_decodes(
            region_of(mem@, sig_off, sig_len),
        ) ==> {
            &&& !region_ok(mem@.len() as int, addr_off, addr_len) ==> r == Err::<bool, Abort>(
                Abort::MemoryAccess,
            )
            &&& region_ok(mem@.len() as int, addr_off, addr_len) && !address_decodes(
                region_of(mem@, addr_off, addr_len),
            ) ==> r == Err::<bool, Abort>(Abort::Decode)
            &&& region_ok(mem@.len() as int, addr_off, addr_len) && address_decodes(
                region_of(mem@, addr_off, addr_len),
            ) ==> {
                &&& !region_ok(mem@.len() as int, plaintext_off, plaintext_len) ==> r == Err::<
                    bool,
                    Abort,
                >(Abort::MemoryAccess)
                &&& region_ok(mem@.len() as int, plaintext_off, plaintext_len) ==> (r is Ok || r
                    == Err::<bool, Abort>(Abort::Host))
            }
        },
{
    let sig_bytes = match try_slice(mem, sig_off, sig_len) {
        Some(b) => b,
        None => {
            return Err(Abort::MemoryAccess);
        },
    };
    let sig = match decode_signature(&sig_bytes) {
        Some(s) => s,
        None => {
            return Err(Abort::Decode);
        },
    };
    let addr_bytes = match try_slice(mem, addr_off, addr_len) {
        Some(b) => b,
        None => {
            return Err(Abort::MemoryAccess);
        },
    };
    let addr = match decode_address(&addr_bytes) {
        Some(a) => a,
        None => {
            return Err(Abort::Decode);
        },
    };
    let plaintext = match try_slice(mem, plaintext_off, plaintext_len) {
        Some(b) => b,
        None => {
            return Err(Abort::MemoryAccess);
        },
    };
    match k.verify_signature(&sig, &addr, &plaintext) {
        Ok(b) => Ok(b),
        Err(_) => Err(Abort::Host),
    }
}

/// Hashes a bounds-checked input region with the host's 256-bit hash and
/// writes the digest into the guest's output buffer, exactly filling its 32
/// bytes and touching no other guest memory; on any abort the guest memory is
/// left unchanged. A digest of the wrong size from the host is an internal
/// contract violation, not a guest-visible recoverable condition.
pub fn hash_blake2b<K: Kernel>(
    k: &mut K,
    mem: &mut Vec<u8>,
    data_off: u32,
    data_len: u32,
    obuf_off: u32,
) -> (r: Result<(), Abort>)
    ensures
        r is Err ==> final(mem)@ == old(mem)@,
        !region_ok(old(mem)@.len() as int, data_off, data_len) ==> r == Err::<(), Abort>(
            Abort::MemoryAccess,
        ),
        r is Ok ==> {
            &&& region_ok(old(mem)@.len() as int, obuf_off, HASH_LEN as u32)
            &&& final(mem)@.len() == old(mem)@.len()
            &&& (forall|i: int|
                0 <= i < old(mem)@.len() && !(obuf_off as int <= i < obuf_off as int
                    + HASH_LEN as int) ==> final(mem)@[i] == old(mem)@[i])
        },
{
    let data = match try_slice(mem, data_off, data_len) {
        Some(b) => b,
        None => {
            return Err(Abort::MemoryAccess);
        },
    };
    let digest = match k.hash_blake2b(&data) {
        Ok(d) => d,
        Err(_) => {
            return Err(Abort::Host);
        },
    };
    if digest.len() != HASH_LEN {
        return Err(Abort::Internal);
    }
    if write_region(mem, obuf_off, &digest) {
        Ok(())
    } else {
        Err(Abort::MemoryAccess)
    }
}

/// Computes an unsealed sector identifier from piece descriptors read from a
/// bounds-checked guest memory region.
pub fn compute_unsealed_sector_cid<K: Kernel>(
    k: &mut K,
    mem: &Vec<u8>,
    proof_type: i64,
    pieces_off: u32,
    pieces_len: u32,
) -> (r: Result<cid::Cid, Abort>)
    ensures
        !region_ok(mem@.len() as int, pieces_off, pieces_len) ==> r == Err::<cid::Cid, Abort>(
            Abort::MemoryAccess,
        ),
        region_ok(mem@.len() as int, pieces_off, pieces_len) && !piece_infos_decode(
            region_of(mem@, pieces_off, pieces_len),
        ) ==> r == Err::<cid::Cid, Abort>(Abort::Decode),
        region_ok(mem@.len() as int, pieces_off, pieces_len) && piece_infos_decode(
            region_of(mem@, pieces_off, pieces_len),
        ) ==> (r is Ok || r == Err::<cid::Cid, Abort>(Abort::Host)),
{
    let pieces_bytes = match try_slice(mem, pieces_off, pieces_len) {
        Some(b) => b,
        None => {
            return Err(Abort::MemoryAccess);
        },
    };
    let pieces = match decode_piece_infos(&pieces_bytes) {
        Some(p) => p,
        None => {
            return Err(Abort::Decode);
        },
    };
    let typ = seal_proof_from_i64(proof_type);
    match k.compute_unsealed_sector_cid(typ, &pieces) {
        Ok(c) => Ok(c),
        Err(_) => Err(Abort::Host),
    }
}

/// Verifies a sector seal proof read from a bounds-checked guest memory
/// region.
pub fn verify_seal<K: Kernel>(k: &mut K, mem: &Vec<u8>, info_off: u32, info_len: u32) -> (r:
    Result<bool, Abort>)
    ensures
        !region_ok(mem@.len() as int, info_off, info_len) ==> r == Err::<bool, Abort>(
            Abort::MemoryAccess,
        ),
        region_ok(mem@.len() as int, info_off, info_len) && !seal_info_decodes(
            region_of(mem@, info_off, info_len),
        ) ==> r == Err::<bool, Abort>(Abort::Decode),
        region_ok(mem@.len() as int, info_off, info_len) && seal_info_decodes(
            region_of(mem@, info_off, info_len),
        ) ==> (r is Ok || r == Err::<bool, Abort>(Abort::Host)),
{
    let info_bytes = match try_slice(mem, info_off, info_len) {
        Some(b) => b,
        None => {
            return Err(Abort::MemoryAccess);
        },
    };
    let info = match decode_seal_info(&info_bytes) {
        Some(i) => i,
        None => {
            return Err(Abort::Decode);
        },
    };
    match k.verify_seal(&info) {
        Ok(b) => Ok(b),
        Err(_) => Err(Abort::Host),
    }
}

/// Verifies a window proof-of-spacetime read from a bounds-checked guest
/// memory region.
pub fn verify_post<K: Kernel>(k: &mut K, mem: &Vec<u8>, info_off: u32, info_len: u32) -> (r:
    Result<bool, Abort>)
    ensures
        !region_ok(mem@.len() as int, info_off, info_len) ==> r == Err::<bool, Abort>(
            Abort::MemoryAccess,
        ),
        region_ok(mem@.len() as int, info_off, info_len) && !post_info_decodes(
            region_of(mem@, info_off, info_len),
        ) ==> r == Err::<bool, Abort>(Abort::Decode),
        region_ok(mem@.len() as int, info_off, info_len) && post_info_decodes(
            region_of(mem@, info_off, info_len),
        ) ==> (r is Ok || r == Err::<bool, Abort>(Abort::Host)),
{
    let info_bytes = match try_slice(mem, info_off, info_len) {
        Some(b) => b,
        None => {
            return Err(Abort::MemoryAccess);
        },
    };
    let info = match decode_post_info(&info_bytes) {
        Some(i) => i,
        None => {
            return Err(Abort::Decode);
        },
    };
    match k.verify_post(&info) {
        Ok(b) => Ok(b),
        Err(_) => Err(Abort::Host),
    }
}

/// Verifies that two serialized block headers (plus an optional third,
/// disambiguating one) prove a consensus fault. The outcome is tri-state:
/// `Ok(true)` means a fault was found and its payload was pushed onto the
/// auxiliary return channel; `Ok(false)` means the evaluation ran and found
/// no fault; an abort means the evaluation itself failed. The header regions
/// are copied out of guest memory before the capability is borrowed.
pub fn verify_consensus_fault<K: Kernel>(
    k: &mut K,
    mem: &Vec<u8>,
    h1_off: u32,
    h1_len: u32,
    h2_off: u32,
    h2_len: u32,
    extra_off: u32,
    extra_len: u32,
) -> (r: Result<bool, Abort>)
    ensures
        !region_ok(mem@.len() as int, h1_off, h1_len) ==> r == Err::<bool, Abort>(
            Abort::MemoryAccess,
        ),
        region_ok(mem@.len() as int, h1_off, h1_len) && !region_ok(
            mem@.len() as int,
            h2_off,
            h2_len,
        ) ==> r == Err::<bool, Abort>(Abort::MemoryAccess),
        region_ok(mem@.len() as int, h1_off, h1_len) && region_ok(mem@.len() as int, h2_off, h2_len)
            && !region_ok(mem@.len() as int, extra_off, extra_len) ==> r == Err::<bool, Abort>(
            Abort::MemoryAccess,
        ),
        region_ok(mem@.len() as int, h1_off, h1_len) && region_ok(mem@.len() as int, h2_off, h2_len)
            && region_ok(mem@.len() as int, extra_off, extra_len) ==> (r is Ok || r == Err::<
            bool,
            Abort,
        >(Abort::Host)),
{
    let h1 = match try_slice(mem, h1_off, h1_len) {
        Some(b) => b,
        None => {
            return Err(Abort::MemoryAccess);
        },
    };
    let h2 = match try_slice(mem, h2_off, h2_len) {
        Some(b) => b,
        None => {
            return Err(Abort::MemoryAccess);
        },
    };
    let extra = match try_slice(mem, extra_off, extra_len) {
        Some(b) => b,
        None => {
            return Err(Abort::MemoryAccess);
        },
    };
    let ret = match k.verify_consensus_fault(&h1, &h2, &extra) {
        Ok(x) => x,
        Err(_) => {
            return Err(Abort::Host);
        },
    };
    match ret {
        Some(fault) => match k.return_push(fault) {
            Ok(_) => Ok(true),
            Err(_) => Err(Abort::Host),
        },
        None => Ok(false),
    }
}

/// Verifies an aggregate seal proof read from a bounds-checked guest memory
/// region.
pub fn verify_aggregate_seals<K: Kernel>(k: &mut K, mem: &Vec<u8>, agg_off: u32, agg_len: u32) -> (r:
    Result<bool, Abort>)
    ensures
        !region_ok(mem@.len() as int, agg_off, agg_len) ==> r == Err::<bool, Abort>(
            Abort::MemoryAccess,
        ),
        region_ok(mem@.len() as int, agg_off, agg_len) && !aggregate_info_decodes(
            region_of(mem@, agg_off, agg_len),
        ) ==> r == Err::<bool, Abort>(Abort::Decode),
        region_ok(mem@.len() as int, agg_off, agg_len) && aggregate_info_decodes(
            region_of(mem@, agg_off, agg_len),
        ) ==> (r is Ok || r == Err::<bool, Abort>(Abort::Host)),
{
    let agg_bytes = match try_slice(mem, agg_off, agg_len) {
        Some(b) => b,
        None => {
            return Err(Abort::MemoryAccess);
        },
    };
    let info = match decode_aggregate_info(&agg_bytes) {
        Some(i) => i,
        None => {
            return Err(Abort::Decode);
        },
    };
    match k.verify_aggregate_seals(&info) {
        Ok(b) => Ok(b),
        Err(_) => Err(Abort::Host),
    }
}

} // verus!
