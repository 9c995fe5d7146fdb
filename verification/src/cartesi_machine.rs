//! The messages of the machine's interface that the emulator service reads and writes,
//! held as plain values.
use vstd::prelude::*;

use crate::hash::is_hash_bytes;

verus! {

/// The bytes of a hash, as a message carries them (of any length).
#[derive(Clone, Debug, PartialEq, Eq)]
pub struct Hash {
    pub data: Vec<u8>,
}

impl View for Hash {
    type V = Seq<u8>;

    open spec fn view(&self) -> Seq<u8> {
        self.data@
    }
}

/// The contents of a sequence of hash messages.
pub open spec fn hashes_view(hashes: Seq<Hash>) -> Seq<Seq<u8>> {
    hashes.map_values(|h: Hash| h@)
}

/// Whether every byte sequence has the length of a hash.
pub open spec fn all_hash_bytes(hashes: Seq<Seq<u8>>) -> bool {
    forall|i: int| 0 <= i < hashes.len() ==> #[trigger] is_hash_bytes(hashes[i])
}

/// Whether an optional byte sequence is there and has the length of a hash.
pub open spec fn some_hash_bytes(hash: Option<Seq<u8>>) -> bool {
    hash matches Some(h) && is_hash_bytes(h)
}

/// The contents of an optional hash message.
pub open spec fn opt_hash_view(hash: Option<Hash>) -> Option<Seq<u8>> {
    match hash {
        Some(h) => Some(h@),
        None => None,
    }
}

impl Hash {
    /// Whether the message holds exactly the 32 bytes of a hash.
    pub fn is_well_formed(&self) -> (res: bool)
        ensures
            res == is_hash_bytes(self@),
    {
        self.data.len() == 32
    }
}

/// Whether every hash message of a vector holds 32 bytes.
pub fn all_hashes_well_formed(hashes: &Vec<Hash>) -> (res: bool)
    ensures
        res == all_hash_bytes(hashes_view(hashes@)),
{
    let mut i: usize = 0;
    while i < hashes.len()
        invariant
            i <= hashes.len(),
            forall|j: int| 0 <= j < i ==> is_hash_bytes(#[trigger] hashes@[j]@),
        decreases hashes.len() - i,
    {
        if !hashes[i].is_well_formed() {
            assert(!is_hash_bytes(hashes_view(hashes@)[i as int]));
            return false;
        }
        i = i + 1;
    }
    assert forall|j: int| 0 <= j < hashes_view(hashes@).len() implies #[trigger] is_hash_bytes(
        hashes_view(hashes@)[j],
    ) by {
        assert(is_hash_bytes(hashes@[j]@));
    }
    true
}

/// The kind of a memory access in a message.
#[allow(non_camel_case_types)]
#[derive(Clone, Copy, Debug, PartialEq, Eq, Structural)]
pub enum AccessType {
    READ,
    WRITE,
}

/// The contents of a proof message.
pub struct ProofMsgView {
    pub address: u64,
    pub log2_size: u32,
    pub target_hash: Option<Seq<u8>>,
    pub sibling_hashes: Seq<Seq<u8>>,
    pub root_hash: Option<Seq<u8>>,
}

impl ProofMsgView {
    /// Whether both hashes are there and every hash has 32 bytes.
    pub open spec fn wf(self) -> bool {
        &&& some_hash_bytes(self.target_hash)
        &&& all_hash_bytes(self.sibling_hashes)
        &&& some_hash_bytes(self.root_hash)
    }
}

/// A proof message: the hashes that show a subtree of the machine's memory.
#[derive(Clone, Debug, PartialEq, Eq)]
pub struct Proof {
    pub address: u64,
    pub log2_size: u32,
    pub target_hash: Option<Hash>,
    pub sibling_hashes: Vec<Hash>,
    pub root_hash: Option<Hash>,
}

impl View for Proof {
    type V = ProofMsgView;

    open spec fn view(&self) -> ProofMsgView {
        ProofMsgView {
            address: self.address,
            log2_size: self.log2_size,
            target_hash: opt_hash_view(self.target_hash),
            sibling_hashes: hashes_view(self.sibling_hashes@),
            root_hash: opt_hash_view(self.root_hash),
        }
    }
}

impl Proof {
    /// Whether both hashes are there and every hash holds 32 bytes.
    pub fn is_well_formed(&self) -> (res: bool)
        ensures
            res == self@.wf(),
    {
        let target_ok = match &self.target_hash {
            Some(h) => h.is_well_formed(),
            None => false,
        };
        let root_ok = match &self.root_hash {
            Some(h) => h.is_well_formed(),
            None => false,
        };
        target_ok && root_ok && all_hashes_well_formed(&self.sibling_hashes)
    }
}

/// The contents of an access message.
pub struct AccessMsgView {
    pub field_type: AccessType,
    pub read: Seq<u8>,
    pub written: Seq<u8>,
    pub proof: Option<ProofMsgView>,
}

impl AccessMsgView {
    /// Whether the proof is there and well formed.
    pub open spec fn wf(self) -> bool {
        self.proof matches Some(p) && p.wf()
    }
}

/// An access message: one read or write of a word, with the proof of where it lies.
#[derive(Clone, Debug, PartialEq, Eq)]
pub struct Access {
    pub field_type: AccessType,
    pub read: Vec<u8>,
    pub written: Vec<u8>,
    pub proof: Option<Proof>,
}

impl View for Access {
    type V = AccessMsgView;

    open spec fn view(&self) -> AccessMsgView {
        AccessMsgView {
            field_type: self.field_type,
            read: self.read@,
            written: self.written@,
            proof: match self.proof {
                Some(p) => Some(p@),
                None => None,
            },
        }
    }
}

impl Access {
    /// Whether the proof is there and well formed.
    pub fn is_well_formed(&self) -> (res: bool)
        ensures
            res == self@.wf(),
    {
        match &self.proof {
            Some(p) => p.is_well_formed(),
            None => false,
        }
    }
}

/// The contents of a sequence of access messages.
pub open spec fn accesses_view(accesses: Seq<Access>) -> Seq<AccessMsgView> {
    accesses.map_values(|a: Access| a@)
}

/// Whether every access of a sequence is well formed.
pub open spec fn all_accesses_wf(accesses: Seq<AccessMsgView>) -> bool {
    forall|i: int| 0 <= i < accesses.len() ==> (#[trigger] accesses[i]).wf()
}

/// A log of the accesses that a step of the machine made, in order.
#[derive(Clone, Debug, PartialEq, Eq)]
pub struct AccessLog {
    pub accesses: Vec<Access>,
}

impl View for AccessLog {
    type V = Seq<AccessMsgView>;

    open spec fn view(&self) -> Seq<AccessMsgView> {
        accesses_view(self.accesses@)
    }
}

impl AccessLog {
    /// Whether every access of the log is well formed.
    pub fn is_well_formed(&self) -> (res: bool)
        ensures
            res == all_accesses_wf(self@),
    {
        let mut i: usize = 0;
        while i < self.accesses.len()
            invariant
                i <= self.accesses.len(),
                forall|j: int| 0 <= j < i ==> (#[trigger] self.accesses@[j])@.wf(),
            decreases self.accesses.len() - i,
        {
            if !self.accesses[i].is_well_formed() {
                assert(!self@[i as int].wf());
                return false;
            }
            i = i + 1;
        }
        assert forall|j: int| 0 <= j < self@.len() implies (#[trigger] self@[j]).wf() by {
            assert(self.accesses@[j]@.wf());
        }
        true
    }
}

/// The bytes that a read of the machine's memory gave.
#[derive(Clone, Debug, PartialEq, Eq)]
pub struct ReadMemoryResponse {
    pub data: Vec<u8>,
}

/// A request to read the machine's memory, held as the bytes of its encoded message:
/// the service hands it on without reading it.
#[derive(Clone, Debug, PartialEq, Eq)]
pub struct ReadMemoryRequest {
    pub encoded: Vec<u8>,
}

/// A request to write the machine's memory, held as the bytes of its encoded message:
/// the service hands it on without reading it.
#[derive(Clone, Debug, PartialEq, Eq)]
pub struct WriteMemoryRequest {
    pub encoded: Vec<u8>,
}

/// A request for a proof of the machine's memory, held as the bytes of its encoded message:
/// the service hands it on without reading it.
#[derive(Clone, Debug, PartialEq, Eq)]
pub struct GetProofRequest {
    pub encoded: Vec<u8>,
}

/// The description of a machine to start, held as the bytes of its encoded message:
/// the service hands it on without reading it.
#[derive(Clone, Debug, PartialEq, Eq)]
pub struct MachineRequest {
    pub encoded: Vec<u8>,
}

} // verus!
