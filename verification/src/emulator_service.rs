//! The types that a client of the machine manager works with, and their conversions
//! to and from the messages of the manager's interface.
use vstd::prelude::*;

use crate::cartesi_machine;
use crate::cartesi_machine::{
    AccessMsgView,
    GetProofRequest,
    MachineRequest,
    ProofMsgView,
    ReadMemoryRequest,
    WriteMemoryRequest,
    all_accesses_wf,
    all_hash_bytes,
    hashes_view,
    accesses_view,
};
use crate::hash::{H256, is_hash_bytes};
use crate::machine_manager;
use crate::machine_manager::{RunOneofView, run_response_wf, step_response_wf};
use crate::word::{from_bytes, to_bytes, word_of};

verus! {

/// The name of the emulator service.
pub const EMULATOR_SERVICE_NAME: &'static str = "emulator";

/// The method that starts a session.
pub const EMULATOR_METHOD_NEW: &'static str = "/CartesiMachineManager.MachineManager/NewSession";

/// The method that runs a session's machine.
pub const EMULATOR_METHOD_RUN: &'static str = "/CartesiMachineManager.MachineManager/SessionRun";

/// The method that logs one step of a session's machine.
pub const EMULATOR_METHOD_STEP: &'static str = "/CartesiMachineManager.MachineManager/SessionStep";

/// The method that reads a session's memory.
pub const EMULATOR_METHOD_READ: &'static str =
    "/CartesiMachineManager.MachineManager/SessionReadMemory";

/// The method that writes a session's memory.
pub const EMULATOR_METHOD_WRITE: &'static str =
    "/CartesiMachineManager.MachineManager/SessionWriteMemory";

/// The method that gets a proof of a session's memory.
pub const EMULATOR_METHOD_PROOF: &'static str =
    "/CartesiMachineManager.MachineManager/SessionGetProof";

/// The contents of a sequence of hashes.
pub open spec fn h256s_view(hashes: Seq<H256>) -> Seq<Seq<u8>> {
    hashes.map_values(|h: H256| h@)
}

/// Every hash of a sequence has 32 bytes.
pub proof fn lemma_h256s_wf(hashes: Seq<H256>)
    ensures
        all_hash_bytes(h256s_view(hashes)),
{
}

/// Builds hashes out of hash messages of 32 bytes each.
fn hashes_from_msg(hashes: &Vec<cartesi_machine::Hash>) -> (res: Vec<H256>)
    requires
        all_hash_bytes(hashes_view(hashes@)),
    ensures
        h256s_view(res@) == hashes_view(hashes@),
        res.len() == hashes.len(),
        forall|i: int| 0 <= i < res.len() ==> (#[trigger] res@[i])@ == hashes@[i]@,
{
    let mut res: Vec<H256> = Vec::new();
    let mut i: usize = 0;
    while i < hashes.len()
        invariant
            i <= hashes.len(),
            all_hash_bytes(hashes_view(hashes@)),
            res@.len() == i,
            forall|j: int| 0 <= j < i ==> (#[trigger] res@[j])@ == hashes@[j]@,
        decreases hashes.len() - i,
    {
        assert(is_hash_bytes(hashes_view(hashes@)[i as int]));
        let h = H256::from_slice(hashes[i].data.as_slice());
        res.push(h);
        i = i + 1;
    }
    assert(h256s_view(res@) =~= hashes_view(hashes@));
    res
}

/// Writes hashes out as hash messages.
fn hashes_to_msg(hashes: &Vec<H256>) -> (res: Vec<cartesi_machine::Hash>)
    ensures
        hashes_view(res@) == h256s_view(hashes@),
        res.len() == hashes.len(),
        forall|i: int| 0 <= i < res.len() ==> (#[trigger] res@[i])@ == hashes@[i]@,
{
    let mut res: Vec<cartesi_machine::Hash> = Vec::new();
    let mut i: usize = 0;
    while i < hashes.len()
        invariant
            i <= hashes.len(),
            res@.len() == i,
            forall|j: int| 0 <= j < i ==> (#[trigger] res@[j])@ == hashes@[j]@,
        decreases hashes.len() - i,
    {
        let h = cartesi_machine::Hash { data: hashes[i].to_vec() };
        res.push(h);
        i = i + 1;
    }
    assert(hashes_view(res@) =~= h256s_view(hashes@));
    res
}

/// Representation of a request for new session
#[derive(Clone, Debug)]
pub struct NewSessionRequest {
    pub machine: MachineRequest,
    pub session_id: String,
    pub force: bool,
}

impl NewSessionRequest {
    /// The interface message of the request.
    pub fn into_msg(self) -> (res: machine_manager::NewSessionRequest)
        ensures
            res.session_id == self.session_id,
            res.machine == Some(self.machine),
            res.force == self.force,
    {
        machine_manager::NewSessionRequest {
            machine: Some(self.machine),
            session_id: self.session_id,
            force: self.force,
        }
    }
}

/// Representation of a request for running the machine
#[derive(Clone, Debug)]
pub struct SessionRunRequest {
    pub session_id: String,
    pub times: Vec<u64>,
}

impl SessionRunRequest {
    /// The interface message of the request: the times become the cycles to run to.
    pub fn into_msg(self) -> (res: machine_manager::SessionRunRequest)
        ensures
            res.session_id == self.session_id,
            res.final_cycles == self.times,
    {
        machine_manager::SessionRunRequest {
            session_id: self.session_id,
            final_cycles: self.times,
        }
    }
}

/// How far a run of the machine has come.
#[derive(Clone, Copy, Debug, PartialEq, Eq, Structural)]
pub struct SessionRunProgress {
    pub progress: u64,
    pub application_progress: u64,
    pub updated_at: u64,
    pub cycle: u64,
}

/// The progress that a progress message holds.
pub open spec fn progress_of_msg(m: machine_manager::SessionRunProgress) -> SessionRunProgress {
    SessionRunProgress {
        progress: m.progress,
        application_progress: m.application_progress,
        updated_at: m.updated_at,
        cycle: m.cycle,
    }
}

/// The message that holds a progress.
pub open spec fn msg_of_progress(p: SessionRunProgress) -> machine_manager::SessionRunProgress {
    machine_manager::SessionRunProgress {
        progress: p.progress,
        application_progress: p.application_progress,
        updated_at: p.updated_at,
        cycle: p.cycle,
    }
}

impl SessionRunProgress {
    /// Reads a progress message.
    pub fn from_msg(run_progress: &machine_manager::SessionRunProgress) -> (res: Self)
        ensures
            res == progress_of_msg(*run_progress),
            res.progress == run_progress.progress,
            res.application_progress == run_progress.application_progress,
            res.updated_at == run_progress.updated_at,
            res.cycle == run_progress.cycle,
    {
        SessionRunProgress {
            progress: run_progress.progress,
            application_progress: run_progress.application_progress,
            updated_at: run_progress.updated_at,
            cycle: run_progress.cycle,
        }
    }

    /// Writes the progress as a message.
    pub fn to_msg(&self) -> (res: machine_manager::SessionRunProgress)
        ensures
            res == msg_of_progress(*self),
            res.progress == self.progress,
            res.application_progress == self.application_progress,
            res.updated_at == self.updated_at,
            res.cycle == self.cycle,
    {
        machine_manager::SessionRunProgress {
            progress: self.progress,
            application_progress: self.application_progress,
            updated_at: self.updated_at,
            cycle: self.cycle,
        }
    }
}

/// The hashes of the machine's state at the end of each requested time.
#[derive(Clone, Debug)]
pub struct SessionRunResult {
    pub hashes: Vec<H256>,
}

impl View for SessionRunResult {
    type V = Seq<Seq<u8>>;

    open spec fn view(&self) -> Seq<Seq<u8>> {
        h256s_view(self.hashes@)
    }
}

impl SessionRunResult {
    /// Reads a result message whose hashes all have 32 bytes.
    pub fn from_msg(run_result: &machine_manager::SessionRunResult) -> (res: Self)
        requires
            all_hash_bytes(run_result@),
        ensures
            res@ == run_result@,
            res.hashes.len() == run_result.hashes.len(),
            forall|i: int|
                0 <= i < res.hashes.len() ==> (#[trigger] res.hashes@[i])@
                    == run_result.hashes@[i]@,
    {
        SessionRunResult { hashes: hashes_from_msg(&run_result.hashes) }
    }

    /// Writes the result as a message.
    pub fn to_msg(&self) -> (res: machine_manager::SessionRunResult)
        ensures
            res@ == self@,
            res.hashes.len() == self.hashes.len(),
            forall|i: int|
                0 <= i < res.hashes.len() ==> (#[trigger] res.hashes@[i])@ == self.hashes@[i]@,
    {
        machine_manager::SessionRunResult { hashes: hashes_to_msg(&self.hashes) }
    }
}

/// The contents of the answer to a run.
pub enum RunOneOfModel {
    RunProgress(SessionRunProgress),
    RunResult(Seq<Seq<u8>>),
}

impl RunOneOfModel {
    /// Every hash of a result has 32 bytes.
    pub open spec fn wf(self) -> bool {
        match self {
            RunOneOfModel::RunProgress(_) => true,
            RunOneOfModel::RunResult(h) => all_hash_bytes(h),
        }
    }
}

/// The answer to a run that a message holds.
pub open spec fn run_one_of_of_msg(m: RunOneofView) -> RunOneOfModel {
    match m {
        RunOneofView::Progress(p) => RunOneOfModel::RunProgress(progress_of_msg(p)),
        RunOneofView::Hashes(h) => RunOneOfModel::RunResult(h),
    }
}

/// The message that holds an answer to a run.
pub open spec fn msg_of_run_one_of(r: RunOneOfModel) -> RunOneofView {
    match r {
        RunOneOfModel::RunProgress(p) => RunOneofView::Progress(msg_of_progress(p)),
        RunOneOfModel::RunResult(h) => RunOneofView::Hashes(h),
    }
}

/// Representation of the response of running the machine
#[derive(Clone, Debug)]
pub struct SessionRunResponse {
    pub one_of: SessionRunResponseOneOf,
}

/// The answer to a run: either its progress so far or its result.
#[derive(Clone, Debug)]
pub enum SessionRunResponseOneOf {
    RunProgress(SessionRunProgress),
    RunResult(SessionRunResult),
}

impl View for SessionRunResponseOneOf {
    type V = RunOneOfModel;

    open spec fn view(&self) -> RunOneOfModel {
        match self {
            SessionRunResponseOneOf::RunProgress(p) => RunOneOfModel::RunProgress(*p),
            SessionRunResponseOneOf::RunResult(r) => RunOneOfModel::RunResult(r@),
        }
    }
}

impl View for SessionRunResponse {
    type V = RunOneOfModel;

    open spec fn view(&self) -> RunOneOfModel {
        self.one_of@
    }
}

impl SessionRunResponseOneOf {
    /// Reads the contents of an answer to a run.
    pub fn from_msg(one_of: &machine_manager::SessionRunResponse_oneof_run_oneof) -> (res: Self)
        requires
            one_of@.wf(),
        ensures
            res@ == run_one_of_of_msg(one_of@),
            one_of matches machine_manager::SessionRunResponse_oneof_run_oneof::progress(p) ==> (
            res matches SessionRunResponseOneOf::RunProgress(q) && {
                &&& q.progress == p.progress
                &&& q.application_progress == p.application_progress
                &&& q.updated_at == p.updated_at
                &&& q.cycle == p.cycle
            }),
            one_of matches machine_manager::SessionRunResponse_oneof_run_oneof::result(r) ==> (
            res matches SessionRunResponseOneOf::RunResult(q) && q@ == r@),
    {
        match one_of {
            machine_manager::SessionRunResponse_oneof_run_oneof::progress(s) => {
                SessionRunResponseOneOf::RunProgress(SessionRunProgress::from_msg(s))
            },
            machine_manager::SessionRunResponse_oneof_run_oneof::result(p) => {
                SessionRunResponseOneOf::RunResult(SessionRunResult::from_msg(p))
            },
        }
    }

    /// Writes the contents of an answer to a run.
    pub fn to_msg(&self) -> (res: machine_manager::SessionRunResponse_oneof_run_oneof)
        ensures
            res@ == msg_of_run_one_of(self@),
            self matches SessionRunResponseOneOf::RunProgress(p) ==> (
            res matches machine_manager::SessionRunResponse_oneof_run_oneof::progress(q) && {
                &&& q.progress == p.progress
                &&& q.application_progress == p.application_progress
                &&& q.updated_at == p.updated_at
                &&& q.cycle == p.cycle
            }),
            self matches SessionRunResponseOneOf::RunResult(r) ==> (
            res matches machine_manager::SessionRunResponse_oneof_run_oneof::result(q) && q@ == r@),
    {
        match self {
            SessionRunResponseOneOf::RunProgress(s) => {
                machine_manager::SessionRunResponse_oneof_run_oneof::progress(s.to_msg())
            },
            SessionRunResponseOneOf::RunResult(p) => {
                machine_manager::SessionRunResponse_oneof_run_oneof::result(p.to_msg())
            },
        }
    }

    /// The contents of an answer are well formed.
    pub proof fn lemma_view_wf(&self)
        ensures
            self@.wf(),
    {
        match self {
            SessionRunResponseOneOf::RunProgress(_) => {},
            SessionRunResponseOneOf::RunResult(r) => lemma_h256s_wf(r.hashes@),
        }
    }
}

impl SessionRunResponse {
    /// Reads an answer to a run; the message must hold well-formed contents.
    pub fn from_msg(response: &machine_manager::SessionRunResponse) -> (res: Self)
        requires
            run_response_wf(response@),
        ensures
            res@ == run_one_of_of_msg(response@.unwrap()),
    {
        SessionRunResponse {
            one_of: SessionRunResponseOneOf::from_msg(response.run_oneof.as_ref().unwrap()),
        }
    }

    /// Writes the answer to a run as a message.
    pub fn to_msg(&self) -> (res: machine_manager::SessionRunResponse)
        ensures
            res@ == Some(msg_of_run_one_of(self@)),
    {
        machine_manager::SessionRunResponse { run_oneof: Some(self.one_of.to_msg()) }
    }
}

/// Representation of the response of creating a new machine
#[derive(Clone, Debug)]
pub struct NewSessionResponse {
    pub hash: H256,
}

impl NewSessionResponse {
    /// Reads the hash of a new machine out of a hash message of 32 bytes.
    pub fn from_msg(response: &cartesi_machine::Hash) -> (res: Self)
        requires
            is_hash_bytes(response@),
        ensures
            res.hash@ == response@,
    {
        NewSessionResponse { hash: H256::from_slice(response.data.as_slice()) }
    }
}

/// Access operation is either a `Read` or a `Write`
#[derive(Clone, Copy, Debug, PartialEq, Eq, Structural)]
pub enum AccessType {
    Read,
    Write,
}

/// The kind of access that a message names.
pub open spec fn access_type_of_msg(op: cartesi_machine::AccessType) -> AccessType {
    match op {
        cartesi_machine::AccessType::READ => AccessType::Read,
        cartesi_machine::AccessType::WRITE => AccessType::Write,
    }
}

/// The message that names a kind of access.
pub open spec fn msg_of_access_type(op: AccessType) -> cartesi_machine::AccessType {
    match op {
        AccessType::Read => cartesi_machine::AccessType::READ,
        AccessType::Write => cartesi_machine::AccessType::WRITE,
    }
}

impl AccessType {
    /// Reads the kind of an access.
    pub fn from_msg(op: cartesi_machine::AccessType) -> (res: Self)
        ensures
            res == access_type_of_msg(op),
    {
        match op {
            cartesi_machine::AccessType::READ => AccessType::Read,
            cartesi_machine::AccessType::WRITE => AccessType::Write,
        }
    }

    /// Writes the kind of an access.
    pub fn to_msg(self) -> (res: cartesi_machine::AccessType)
        ensures
            res == msg_of_access_type(self),
    {
        match self {
            AccessType::Read => cartesi_machine::AccessType::READ,
            AccessType::Write => cartesi_machine::AccessType::WRITE,
        }
    }
}

/// The contents of a proof.
pub struct ProofModel {
    pub address: u64,
    pub log2_size: u32,
    pub target_hash: Seq<u8>,
    pub sibling_hashes: Seq<Seq<u8>>,
    pub root_hash: Seq<u8>,
}

impl ProofModel {
    /// Every hash has 32 bytes.
    pub open spec fn wf(self) -> bool {
        &&& is_hash_bytes(self.target_hash)
        &&& all_hash_bytes(self.sibling_hashes)
        &&& is_hash_bytes(self.root_hash)
    }
}

/// The proof that a well-formed proof message holds.
pub open spec fn proof_of_msg(m: ProofMsgView) -> ProofModel {
    ProofModel {
        address: m.address,
        log2_size: m.log2_size,
        target_hash: m.target_hash.unwrap(),
        sibling_hashes: m.sibling_hashes,
        root_hash: m.root_hash.unwrap(),
    }
}

/// The message that holds a proof.
pub open spec fn msg_of_proof(p: ProofModel) -> ProofMsgView {
    ProofMsgView {
        address: p.address,
        log2_size: p.log2_size,
        target_hash: Some(p.target_hash),
        sibling_hashes: p.sibling_hashes,
        root_hash: Some(p.root_hash),
    }
}

/// A proof that a certain subtree has the contents represented by
/// `target_hash`.
#[derive(Clone, Debug)]
pub struct Proof {
    pub address: u64,
    pub log2_size: u32,
    pub target_hash: H256,
    pub sibling_hashes: Vec<H256>,
    pub root_hash: H256,
}

impl View for Proof {
    type V = ProofModel;

    open spec fn view(&self) -> ProofModel {
        ProofModel {
            address: self.address,
            log2_size: self.log2_size,
            target_hash: self.target_hash@,
            sibling_hashes: h256s_view(self.sibling_hashes@),
            root_hash: self.root_hash@,
        }
    }
}

impl Proof {
    /// Reads a proof message that holds both hashes and only hashes of 32 bytes.
    pub fn from_msg(proof: &cartesi_machine::Proof) -> (res: Self)
        requires
            proof@.wf(),
        ensures
            res@ == proof_of_msg(proof@),
            res.address == proof.address,
            res.log2_size == proof.log2_size,
            res.target_hash@ == proof.target_hash.unwrap()@,
            res.root_hash@ == proof.root_hash.unwrap()@,
            h256s_view(res.sibling_hashes@) == hashes_view(proof.sibling_hashes@),
            res.sibling_hashes.len() == proof.sibling_hashes.len(),
            forall|i: int|
                0 <= i < res.sibling_hashes.len() ==> (#[trigger] res.sibling_hashes@[i])@
                    == proof.sibling_hashes@[i]@,
    {
        let target = proof.target_hash.as_ref().unwrap();
        let root = proof.root_hash.as_ref().unwrap();
        Proof {
            address: proof.address,
            log2_size: proof.log2_size,
            target_hash: H256::from_slice(target.data.as_slice()),
            sibling_hashes: hashes_from_msg(&proof.sibling_hashes),
            root_hash: H256::from_slice(root.data.as_slice()),
        }
    }

    /// Writes the proof as a message.
    pub fn to_msg(&self) -> (res: cartesi_machine::Proof)
        ensures
            res@ == msg_of_proof(self@),
            res.address == self.address,
            res.log2_size == self.log2_size,
            res.target_hash is Some && res.target_hash.unwrap()@ == self.target_hash@,
            res.root_hash is Some && res.root_hash.unwrap()@ == self.root_hash@,
            hashes_view(res.sibling_hashes@) == h256s_view(self.sibling_hashes@),
            res.sibling_hashes.len() == self.sibling_hashes.len(),
            forall|i: int|
                0 <= i < res.sibling_hashes.len() ==> (#[trigger] res.sibling_hashes@[i])@
                    == self.sibling_hashes@[i]@,
    {
        cartesi_machine::Proof {
            address: self.address,
            log2_size: self.log2_size,
            target_hash: Some(cartesi_machine::Hash { data: self.target_hash.to_vec() }),
            sibling_hashes: hashes_to_msg(&self.sibling_hashes),
            root_hash: Some(cartesi_machine::Hash { data: self.root_hash.to_vec() }),
        }
    }

    /// Every hash of a proof has 32 bytes.
    pub proof fn lemma_view_wf(&self)
        ensures
            self@.wf(),
    {
        lemma_h256s_wf(self.sibling_hashes@);
    }
}

/// The contents of an access.
pub struct AccessModel {
    pub field_type: AccessType,
    pub address: u64,
    pub value_read: Seq<u8>,
    pub value_written: Seq<u8>,
    pub proof: ProofModel,
}

impl AccessModel {
    /// The values have eight bytes each, and the proof is well formed.
    pub open spec fn wf(self) -> bool {
        &&& self.value_read.len() == 8
        &&& self.value_written.len() == 8
        &&& self.proof.wf()
    }
}

/// The access that a well-formed access message holds: its address is that of its proof,
/// and a value of other than eight bytes reads as eight zero bytes.
pub open spec fn access_of_msg(m: AccessMsgView) -> AccessModel {
    AccessModel {
        field_type: access_type_of_msg(m.field_type),
        address: m.proof.unwrap().address,
        value_read: word_of(m.read),
        value_written: word_of(m.written),
        proof: proof_of_msg(m.proof.unwrap()),
    }
}

/// The message that holds an access: it keeps no address besides that of the proof.
pub open spec fn msg_of_access(a: AccessModel) -> AccessMsgView {
    AccessMsgView {
        field_type: msg_of_access_type(a.field_type),
        read: a.value_read,
        written: a.value_written,
        proof: Some(msg_of_proof(a.proof)),
    }
}

/// An access to be logged during the step procedure
#[derive(Clone, Debug)]
pub struct Access {
    pub field_type: AccessType,
    pub address: u64,
    pub value_read: [u8; 8],
    pub value_written: [u8; 8],
    pub proof: Proof,
}

impl View for Access {
    type V = AccessModel;

    open spec fn view(&self) -> AccessModel {
        AccessModel {
            field_type: self.field_type,
            address: self.address,
            value_read: self.value_read@,
            value_written: self.value_written@,
            proof: self.proof@,
        }
    }
}

/// A copy of a byte vector.
fn copy_bytes(v: &Vec<u8>) -> (res: Vec<u8>)
    ensures
        res@ == v@,
{
    let res = v.clone();
    assert(res@ =~= v@);
    res
}

impl Access {
    /// Reads an access message that holds a well-formed proof.
    pub fn from_msg(access: &cartesi_machine::Access) -> (res: Self)
        requires
            access@.wf(),
        ensures
            res@ == access_of_msg(access@),
            res.field_type == access_type_of_msg(access.field_type),
            res.address == access.proof.unwrap().address,
            res.value_read@ == word_of(access.read@),
            res.value_written@ == word_of(access.written@),
            res.proof@ == proof_of_msg(access.proof.unwrap()@),
    {
        let proof = Proof::from_msg(access.proof.as_ref().unwrap());
        let value_read = to_bytes(copy_bytes(&access.read)).unwrap();
        let value_written = to_bytes(copy_bytes(&access.written)).unwrap();
        Access {
            field_type: AccessType::from_msg(access.field_type),
            address: proof.address,
            value_read: value_read,
            value_written: value_written,
            proof: proof,
        }
    }

    /// Writes the access as a message.
    pub fn to_msg(&self) -> (res: cartesi_machine::Access)
        ensures
            res@ == msg_of_access(self@),
            res.field_type == msg_of_access_type(self.field_type),
            res.read@ == self.value_read@,
            res.written@ == self.value_written@,
            res.proof is Some && res.proof.unwrap()@ == msg_of_proof(self.proof@),
    {
        cartesi_machine::Access {
            field_type: self.field_type.to_msg(),
            read: from_bytes(self.value_read),
            written: from_bytes(self.value_written),
            proof: Some(self.proof.to_msg()),
        }
    }

    /// The contents of an access are well formed.
    pub proof fn lemma_view_wf(&self)
        ensures
            self@.wf(),
    {
        self.proof.lemma_view_wf();
    }
}

/// A representation of a request for a logged machine step
#[derive(Clone, Debug)]
pub struct SessionStepRequest {
    pub session_id: String,
    pub time: u64,
}

impl SessionStepRequest {
    /// The interface message of the request: the time becomes the cycle to step from.
    pub fn into_msg(self) -> (res: machine_manager::SessionStepRequest)
        ensures
            res.session_id == self.session_id,
            res.initial_cycle == self.time,
    {
        machine_manager::SessionStepRequest { session_id: self.session_id, initial_cycle: self.time }
    }
}

/// The accesses that a log message holds.
pub open spec fn log_of_msg(log: Seq<AccessMsgView>) -> Seq<AccessModel> {
    log.map_values(|m: AccessMsgView| access_of_msg(m))
}

/// The log message that holds accesses.
pub open spec fn msg_of_log(log: Seq<AccessModel>) -> Seq<AccessMsgView> {
    log.map_values(|a: AccessModel| msg_of_access(a))
}

/// The contents of a sequence of accesses.
pub open spec fn log_view(log: Seq<Access>) -> Seq<AccessModel> {
    log.map_values(|a: Access| a@)
}

/// A representation of the response of a logged machine step
#[derive(Clone, Debug)]
pub struct SessionStepResponse {
    pub log: Vec<Access>,
}

impl View for SessionStepResponse {
    type V = Seq<AccessModel>;

    open spec fn view(&self) -> Seq<AccessModel> {
        log_view(self.log@)
    }
}

impl SessionStepResponse {
    /// Reads the log of a step, in order; the message must hold a log of well-formed accesses.
    pub fn from_msg(response: &machine_manager::SessionStepResponse) -> (res: Self)
        requires
            step_response_wf(response@),
        ensures
            res@ == log_of_msg(response@.unwrap()),
            res.log.len() == response.log.unwrap().accesses.len(),
            forall|i: int|
                0 <= i < res.log.len() ==> (#[trigger] res.log@[i])@ == access_of_msg(
                    response.log.unwrap().accesses@[i]@,
                ),
    {
        let accesses = &response.log.as_ref().unwrap().accesses;
        let ghost msgs = accesses_view(accesses@);
        let mut log: Vec<Access> = Vec::new();
        let mut i: usize = 0;
        while i < accesses.len()
            invariant
                i <= accesses.len(),
                msgs == accesses_view(accesses@),
                all_accesses_wf(msgs),
                log@.len() == i,
                forall|j: int| 0 <= j < i ==> (#[trigger] log@[j])@ == access_of_msg(msgs[j]),
            decreases accesses.len() - i,
        {
            assert(msgs[i as int].wf());
            let a = Access::from_msg(&accesses[i]);
            log.push(a);
            i = i + 1;
        }
        assert(log_view(log@) =~= log_of_msg(msgs));
        SessionStepResponse { log }
    }

    /// Writes the log of a step as a message, in order.
    pub fn to_msg(&self) -> (res: machine_manager::SessionStepResponse)
        ensures
            res@ == Some(msg_of_log(self@)),
            res.log is Some,
            res.log.unwrap().accesses.len() == self.log.len(),
            forall|i: int|
                0 <= i < self.log.len() ==> (#[trigger] res.log.unwrap().accesses@[i])@
                    == msg_of_access(self.log@[i]@),
    {
        let mut accesses: Vec<cartesi_machine::Access> = Vec::new();
        let mut i: usize = 0;
        while i < self.log.len()
            invariant
                i <= self.log.len(),
                accesses@.len() == i,
                forall|j: int|
                    0 <= j < i ==> (#[trigger] accesses@[j])@ == msg_of_access(self.log@[j]@),
            decreases self.log.len() - i,
        {
            let a = self.log[i].to_msg();
            accesses.push(a);
            i = i + 1;
        }
        assert(accesses_view(accesses@) =~= msg_of_log(self@));
        machine_manager::SessionStepResponse { log: Some(cartesi_machine::AccessLog { accesses }) }
    }

    /// Every access of a log is well formed.
    pub proof fn lemma_view_wf(&self)
        ensures
            forall|i: int| 0 <= i < self@.len() ==> (#[trigger] self@[i]).wf(),
    {
        assert forall|i: int| 0 <= i < self@.len() implies (#[trigger] self@[i]).wf() by {
            self.log@[i].lemma_view_wf();
        }
    }
}

/// Representation of a request for read the memory
#[derive(Clone, Debug)]
pub struct SessionReadMemoryRequest {
    pub session_id: String,
    pub time: u64,
    pub position: ReadMemoryRequest,
}

impl SessionReadMemoryRequest {
    /// The interface message of the request: the time becomes the cycle to read at.
    pub fn into_msg(self) -> (res: machine_manager::SessionReadMemoryRequest)
        ensures
            res.session_id == self.session_id,
            res.cycle == self.time,
            res.position == Some(self.position),
    {
        machine_manager::SessionReadMemoryRequest {
            session_id: self.session_id,
            cycle: self.time,
            position: Some(self.position),
        }
    }
}

/// A response from the read memory procedure
#[derive(Clone, Debug)]
pub struct ReadMemoryResponse {
    pub data: Vec<u8>,
}

impl ReadMemoryResponse {
    /// Reads the bytes that a read of memory gave.
    pub fn from_msg(read: &cartesi_machine::ReadMemoryResponse) -> (res: Self)
        ensures
            res.data@ == read.data@,
    {
        ReadMemoryResponse { data: copy_bytes(&read.data) }
    }
}

/// Representation of a response for read the memory
#[derive(Clone, Debug)]
pub struct SessionReadMemoryResponse {
    pub read_content: ReadMemoryResponse,
}

impl SessionReadMemoryResponse {
    /// Reads the answer to a read of memory; the message must hold its contents.
    pub fn from_msg(response: &machine_manager::SessionReadMemoryResponse) -> (res: Self)
        requires
            response.read_content is Some,
        ensures
            res.read_content.data@ == response.read_content.unwrap().data@,
    {
        SessionReadMemoryResponse {
            read_content: ReadMemoryResponse::from_msg(response.read_content.as_ref().unwrap()),
        }
    }
}

/// Representation of a request for write the memory
#[derive(Clone, Debug)]
pub struct SessionWriteMemoryRequest {
    pub session_id: String,
    pub time: u64,
    pub position: WriteMemoryRequest,
}

impl SessionWriteMemoryRequest {
    /// The interface message of the request: the time becomes the cycle to write at.
    pub fn into_msg(self) -> (res: machine_manager::SessionWriteMemoryRequest)
        ensures
            res.session_id == self.session_id,
            res.cycle == self.time,
            res.position == Some(self.position),
    {
        machine_manager::SessionWriteMemoryRequest {
            session_id: self.session_id,
            cycle: self.time,
            position: Some(self.position),
        }
    }
}

/// Representation of a request for get proof
#[derive(Clone, Debug)]
pub struct SessionGetProofRequest {
    pub session_id: String,
    pub time: u64,
    pub target: GetProofRequest,
}

impl SessionGetProofRequest {
    /// The interface message of the request: the time becomes the cycle of the proof.
    pub fn into_msg(self) -> (res: machine_manager::SessionGetProofRequest)
        ensures
            res.session_id == self.session_id,
            res.cycle == self.time,
            res.target == Some(self.target),
    {
        machine_manager::SessionGetProofRequest {
            session_id: self.session_id,
            cycle: self.time,
            target: Some(self.target),
        }
    }
}

/// Representation of a response for read the memory
#[derive(Clone, Debug)]
pub struct SessionGetProofResponse {
    pub proof: Proof,
}

impl SessionGetProofResponse {
    /// Reads the answer to a request for a proof out of a well-formed proof message.
    pub fn from_msg(proof: &cartesi_machine::Proof) -> (res: Self)
        requires
            proof@.wf(),
        ensures
            res.proof@ == proof_of_msg(proof@),
    {
        SessionGetProofResponse { proof: Proof::from_msg(proof) }
    }
}

} // verus!
