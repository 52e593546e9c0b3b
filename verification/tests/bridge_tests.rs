use cid::Cid;
use fvm::bridge::{self, Abort, HostError, Kernel};
use fvm_shared::address::Address;
use fvm_shared::consensus::{ConsensusFault, ConsensusFaultType};
use fvm_shared::crypto::signature::Signature;
use fvm_shared::piece::PieceInfo;
use fvm_shared::randomness::Randomness;
use fvm_shared::sector::{
    AggregateSealVerifyProofAndInfos, RegisteredSealProof, SealVerifyInfo, SectorID,
    WindowPoStVerifyInfo,
};

fn blake2b_256(data: &[u8]) -> Vec<u8> {
    blake2b_simd::Params::new()
        .hash_length(32)
        .hash(data)
        .as_bytes()
        .to_vec()
}

/// What the test kernel answers a consensus-fault evaluation with.
enum FaultMode {
    Detected,
    NoFault,
    Fail,
}

/// A host capability stub: a signature is "valid" when its bytes equal the
/// 256-bit digest of the plaintext, hashing is real blake2b-256, and proof
/// verifications succeed unconditionally.
struct TestKernel {
    fault_mode: FaultMode,
    pushed: Vec<ConsensusFault>,
}

impl TestKernel {
    fn new(fault_mode: FaultMode) -> Self {
        TestKernel {
            fault_mode,
            pushed: Vec::new(),
        }
    }
}

impl Kernel for TestKernel {
    fn verify_signature(
        &mut self,
        sig: &Signature,
        _addr: &Address,
        plaintext: &Vec<u8>,
    ) -> Result<bool, HostError> {
        Ok(sig.bytes == blake2b_256(plaintext))
    }

    fn hash_blake2b(&mut self, data: &Vec<u8>) -> Result<Vec<u8>, HostError> {
        Ok(blake2b_256(data))
    }

    fn compute_unsealed_sector_cid(
        &mut self,
        _proof_type: RegisteredSealProof,
        _pieces: &Vec<PieceInfo>,
    ) -> Result<Cid, HostError> {
        Ok(Cid::default())
    }

    fn verify_seal(&mut self, _info: &SealVerifyInfo) -> Result<bool, HostError> {
        Ok(true)
    }

    fn verify_post(&mut self, _info: &WindowPoStVerifyInfo) -> Result<bool, HostError> {
        Ok(true)
    }

    fn verify_consensus_fault(
        &mut self,
        _h1: &Vec<u8>,
        _h2: &Vec<u8>,
        _extra: &Vec<u8>,
    ) -> Result<Option<ConsensusFault>, HostError> {
        match self.fault_mode {
            FaultMode::Detected => Ok(Some(ConsensusFault {
                target: Address::new_id(7),
                epoch: 42,
                fault_type: ConsensusFaultType::DoubleForkMining,
            })),
            FaultMode::NoFault => Ok(None),
            FaultMode::Fail => Err(HostError),
        }
    }

    fn verify_aggregate_seals(
        &mut self,
        _agg: &AggregateSealVerifyProofAndInfos,
    ) -> Result<bool, HostError> {
        Ok(true)
    }

    fn return_push(&mut self, fault: ConsensusFault) -> Result<(), HostError> {
        self.pushed.push(fault);
        Ok(())
    }
}

/// Lays out the three signature-syscall arguments in one guest memory image.
fn signature_memory(plaintext: &[u8]) -> (Vec<u8>, u32, u32, u32) {
    let sig = Signature::new_bls(blake2b_256(plaintext));
    let sig_bytes = fvm_ipld_encoding::to_vec(&sig).expect("encode signature");
    let addr_bytes = Address::new_id(1000).to_bytes();
    let mut mem = Vec::new();
    mem.extend_from_slice(&sig_bytes);
    mem.extend_from_slice(&addr_bytes);
    mem.extend_from_slice(plaintext);
    (
        mem,
        sig_bytes.len() as u32,
        addr_bytes.len() as u32,
        plaintext.len() as u32,
    )
}

#[test]
fn signature_syscall_accepts_matching_plaintext() {
    let plaintext = b"consensus-critical message";
    let (mem, sig_len, addr_len, pt_len) = signature_memory(plaintext);
    let mut k = TestKernel::new(FaultMode::NoFault);
    let r = bridge::verify_signature(
        &mut k,
        &mem,
        0,
        sig_len,
        sig_len,
        addr_len,
        sig_len + addr_len,
        pt_len,
    );
    assert_eq!(r, Ok(true));
}

#[test]
fn signature_syscall_rejects_tampered_plaintext() {
    let plaintext = b"consensus-critical message";
    let (mut mem, sig_len, addr_len, pt_len) = signature_memory(plaintext);
    // Flip one plaintext byte after the signature was made.
    let pt_start = (sig_len + addr_len) as usize;
    mem[pt_start] ^= 0xff;
    let mut k = TestKernel::new(FaultMode::NoFault);
    let r = bridge::verify_signature(
        &mut k,
        &mem,
        0,
        sig_len,
        sig_len,
        addr_len,
        sig_len + addr_len,
        pt_len,
    );
    // A failed check is a normal false outcome, not an abort.
    assert_eq!(r, Ok(false));
}

#[test]
fn signature_syscall_aborts_on_truncated_encoding() {
    let plaintext = b"consensus-critical message";
    let (mem, sig_len, addr_len, pt_len) = signature_memory(plaintext);
    let mut k = TestKernel::new(FaultMode::NoFault);
    // Cut one byte off the signature region: well inside memory, but no
    // longer a whole encoded signature.
    let r = bridge::verify_signature(
        &mut k,
        &mem,
        0,
        sig_len - 1,
        sig_len,
        addr_len,
        sig_len + addr_len,
        pt_len,
    );
    assert_eq!(r, Err(Abort::Decode));
}

#[test]
fn signature_syscall_aborts_on_bad_region() {
    let plaintext = b"consensus-critical message";
    let (mem, sig_len, addr_len, pt_len) = signature_memory(plaintext);
    let mut k = TestKernel::new(FaultMode::NoFault);
    let r = bridge::verify_signature(
        &mut k,
        &mem,
        u32::MAX - 1,
        sig_len,
        sig_len,
        addr_len,
        sig_len + addr_len,
        pt_len,
    );
    assert_eq!(r, Err(Abort::MemoryAccess));
}

#[test]
fn hash_syscall_writes_reference_digest() {
    let mut mem = vec![0u8; 64];
    mem[0..3].copy_from_slice(b"abc");
    let mut k = TestKernel::new(FaultMode::NoFault);
    let r = bridge::hash_blake2b(&mut k, &mut mem, 0, 3, 3);
    assert_eq!(r, Ok(()));
    // The reference blake2b-256 digest of "abc".
    let reference: [u8; 32] = [
        0xbd, 0xdd, 0x81, 0x3c, 0x63, 0x42, 0x39, 0x72, 0x31, 0x71, 0xef, 0x3f, 0xee, 0x98,
        0x57, 0x9b, 0x94, 0x96, 0x4e, 0x3b, 0xb1, 0xcb, 0x3e, 0x42, 0x72, 0x62, 0xc8, 0xc0,
        0x68, 0xd5, 0x23, 0x19,
    ];
    assert_eq!(blake2b_256(b"abc"), reference.to_vec());
    // Exactly the 32 declared bytes were written.
    assert_eq!(&mem[3..35], &reference[..]);
    assert_eq!(&mem[0..3], b"abc");
    assert!(mem[35..].iter().all(|b| *b == 0));
}

#[test]
fn hash_syscall_aborts_on_bad_output_region() {
    let mut mem = vec![0u8; 40];
    let mut k = TestKernel::new(FaultMode::NoFault);
    // Output buffer would run past the end of memory: abort, memory intact.
    let before = mem.clone();
    let r = bridge::hash_blake2b(&mut k, &mut mem, 0, 3, 20);
    assert_eq!(r, Err(Abort::MemoryAccess));
    assert_eq!(mem, before);
}

#[test]
fn unsealed_sector_cid_syscall_round_trips() {
    let pieces: Vec<PieceInfo> = Vec::new();
    let mem = fvm_ipld_encoding::to_vec(&pieces).expect("encode pieces");
    let mut k = TestKernel::new(FaultMode::NoFault);
    let r = bridge::compute_unsealed_sector_cid(&mut k, &mem, 1, 0, mem.len() as u32);
    assert_eq!(r, Ok(Cid::default()));
    // Junk bytes fail deterministically with a decode abort.
    let junk = vec![0xffu8; 5];
    let r = bridge::compute_unsealed_sector_cid(&mut k, &junk, 1, 0, 5);
    assert_eq!(r, Err(Abort::Decode));
}

#[test]
fn seal_syscall_verifies_encoded_descriptor() {
    let info = SealVerifyInfo {
        registered_proof: RegisteredSealProof::from(1),
        sector_id: SectorID {
            miner: 1,
            number: 2,
        },
        deal_ids: vec![],
        randomness: Randomness(vec![1, 2, 3]),
        interactive_randomness: Randomness(vec![4, 5, 6]),
        proof: vec![7, 8],
        sealed_cid: Cid::default(),
        unsealed_cid: Cid::default(),
    };
    let mem = fvm_ipld_encoding::to_vec(&info).expect("encode seal info");
    let mut k = TestKernel::new(FaultMode::NoFault);
    let r = bridge::verify_seal(&mut k, &mem, 0, mem.len() as u32);
    assert_eq!(r, Ok(true));
    let r = bridge::verify_seal(&mut k, &mem, 0, (mem.len() - 1) as u32);
    assert_eq!(r, Err(Abort::Decode));
    let r = bridge::verify_seal(&mut k, &mem, 1, mem.len() as u32);
    assert_eq!(r, Err(Abort::MemoryAccess));
}

#[test]
fn post_syscall_aborts_on_malformed_descriptor() {
    let junk = vec![0xf7u8, 0x01, 0x02];
    let mut k = TestKernel::new(FaultMode::NoFault);
    let r = bridge::verify_post(&mut k, &junk, 0, 3);
    assert_eq!(r, Err(Abort::Decode));
    let r = bridge::verify_post(&mut k, &junk, 0, 4);
    assert_eq!(r, Err(Abort::MemoryAccess));
}

#[test]
fn aggregate_syscall_aborts_on_malformed_descriptor() {
    let junk = vec![0xf7u8];
    let mut k = TestKernel::new(FaultMode::NoFault);
    let r = bridge::verify_aggregate_seals(&mut k, &junk, 0, 1);
    assert_eq!(r, Err(Abort::Decode));
}

#[test]
fn consensus_fault_detected_pushes_payload() {
    let mem = vec![0u8; 30];
    let mut k = TestKernel::new(FaultMode::Detected);
    let r = bridge::verify_consensus_fault(&mut k, &mem, 0, 10, 10, 10, 20, 10);
    assert_eq!(r, Ok(true));
    assert_eq!(k.pushed.len(), 1);
    assert_eq!(k.pushed[0].epoch, 42);
}

#[test]
fn consensus_fault_absent_is_false_not_error() {
    let mem = vec![0u8; 30];
    let mut k = TestKernel::new(FaultMode::NoFault);
    let r = bridge::verify_consensus_fault(&mut k, &mem, 0, 10, 10, 10, 20, 10);
    assert_eq!(r, Ok(false));
    assert!(k.pushed.is_empty());
}

#[test]
fn consensus_fault_evaluation_failure_aborts() {
    let mem = vec![0u8; 30];
    let mut k = TestKernel::new(FaultMode::Fail);
    let r = bridge::verify_consensus_fault(&mut k, &mem, 0, 10, 10, 10, 20, 10);
    assert_eq!(r, Err(Abort::Host));
    let r = bridge::verify_consensus_fault(&mut k, &mem, 0, 10, 25, 10, 20, 10);
    assert_eq!(r, Err(Abort::MemoryAccess));
}

#[test]
fn memory_views_are_bounds_checked() {
    let mem: Vec<u8> = (0u8..10).collect();
    assert_eq!(fvm::memory::try_slice(&mem, 2, 3), Some(vec![2, 3, 4]));
    assert_eq!(fvm::memory::try_slice(&mem, 8, 3), None);
    assert_eq!(fvm::memory::try_slice(&mem, 10, 0), Some(vec![]));
    let mut mem = vec![0u8; 5];
    assert!(fvm::memory::write_region(&mut mem, 1, &vec![9, 9]));
    assert_eq!(mem, vec![0, 9, 9, 0, 0]);
    assert!(!fvm::memory::write_region(&mut mem, 4, &vec![9, 9]));
    assert_eq!(mem, vec![0, 9, 9, 0, 0]);
}
