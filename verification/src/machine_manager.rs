//! The messages of the machine manager's interface that the emulator service reads and
//! writes, held as plain values.
use vstd::prelude::*;

use crate::cartesi_machine::{
    AccessLog,
    AccessMsgView,
    GetProofRequest,
    MachineRequest,
    ReadMemoryRequest,
    ReadMemoryResponse,
    WriteMemoryRequest,
    all_accesses_wf,
    all_hash_bytes,
    all_hashes_well_formed,
    hashes_view,
};

verus! {

/// How far a run of the machine has come.
#[derive(Clone, Copy, Debug, PartialEq, Eq, Structural)]
pub struct SessionRunProgress {
    pub progress: u64,
    pub application_progress: u64,
    pub updated_at: u64,
    pub cycle: u64,
}

/// The hashes of the machine's state at the end of each requested cycle.
#[derive(Clone, Debug, PartialEq, Eq)]
pub struct SessionRunResult {
    pub hashes: Vec<crate::cartesi_machine::Hash>,
}

impl View for SessionRunResult {
    type V = Seq<Seq<u8>>;

    open spec fn view(&self) -> Seq<Seq<u8>> {
        hashes_view(self.hashes@)
    }
}

impl SessionRunResult {
    /// Whether every hash holds 32 bytes.
    pub fn is_well_formed(&self) -> (res: bool)
        ensures
            res == all_hash_bytes(self@),
    {
        all_hashes_well_formed(&self.hashes)
    }
}

/// The contents of the answer to a run: its progress, or the hashes it ended with.
pub enum RunOneofView {
    Progress(SessionRunProgress),
    Hashes(Seq<Seq<u8>>),
}

impl RunOneofView {
    /// Whether every hash of a finished run holds 32 bytes.
    pub open spec fn wf(self) -> bool {
        match self {
            RunOneofView::Progress(_) => true,
            RunOneofView::Hashes(h) => all_hash_bytes(h),
        }
    }
}

/// The answer to a run: either its progress so far or its result.
#[allow(non_camel_case_types)]
#[derive(Clone, Debug, PartialEq, Eq)]
pub enum SessionRunResponse_oneof_run_oneof {
    progress(SessionRunProgress),
    result(SessionRunResult),
}

impl View for SessionRunResponse_oneof_run_oneof {
    type V = RunOneofView;

    open spec fn view(&self) -> RunOneofView {
        match self {
            SessionRunResponse_oneof_run_oneof::progress(p) => RunOneofView::Progress(*p),
            SessionRunResponse_oneof_run_oneof::result(r) => RunOneofView::Hashes(r@),
        }
    }
}

impl SessionRunResponse_oneof_run_oneof {
    /// Whether every hash of a finished run holds 32 bytes.
    pub fn is_well_formed(&self) -> (res: bool)
        ensures
            res == self@.wf(),
    {
        match self {
            SessionRunResponse_oneof_run_oneof::progress(_) => true,
            SessionRunResponse_oneof_run_oneof::result(r) => r.is_well_formed(),
        }
    }
}

/// The answer to a run, which may lack its contents.
#[derive(Clone, Debug, PartialEq, Eq)]
pub struct SessionRunResponse {
    pub run_oneof: Option<SessionRunResponse_oneof_run_oneof>,
}

/// Whether the answer to a run has its contents and they are well formed.
pub open spec fn run_response_wf(r: Option<RunOneofView>) -> bool {
    r matches Some(o) && o.wf()
}

impl View for SessionRunResponse {
    type V = Option<RunOneofView>;

    open spec fn view(&self) -> Option<RunOneofView> {
        match self.run_oneof {
            Some(o) => Some(o@),
            None => None,
        }
    }
}

impl SessionRunResponse {
    /// Whether the answer has its contents and they are well formed.
    pub fn is_well_formed(&self) -> (res: bool)
        ensures
            res == run_response_wf(self@),
    {
        match &self.run_oneof {
            Some(o) => o.is_well_formed(),
            None => false,
        }
    }
}

/// The answer to a logged step: the log of its accesses, which may be missing.
#[derive(Clone, Debug, PartialEq, Eq)]
pub struct SessionStepResponse {
    pub log: Option<AccessLog>,
}

/// Whether the answer to a step has its log and every access in it is well formed.
pub open spec fn step_response_wf(r: Option<Seq<AccessMsgView>>) -> bool {
    r matches Some(log) && all_accesses_wf(log)
}

impl View for SessionStepResponse {
    type V = Option<Seq<AccessMsgView>>;

    open spec fn view(&self) -> Option<Seq<AccessMsgView>> {
        match self.log {
            Some(l) => Some(l@),
            None => None,
        }
    }
}

impl SessionStepResponse {
    /// Whether the answer has its log and every access in it is well formed.
    pub fn is_well_formed(&self) -> (res: bool)
        ensures
            res == step_response_wf(self@),
    {
        match &self.log {
            Some(l) => l.is_well_formed(),
            None => false,
        }
    }
}

/// The answer to a read of the machine's memory, which may lack its contents.
#[derive(Clone, Debug, PartialEq, Eq)]
pub struct SessionReadMemoryResponse {
    pub read_content: Option<ReadMemoryResponse>,
}

/// A request to start a session on a machine.
#[derive(Clone, Debug, PartialEq, Eq)]
pub struct NewSessionRequest {
    pub machine: Option<MachineRequest>,
    pub session_id: String,
    pub force: bool,
}

/// A request to run a session's machine up to each of the given cycles.
#[derive(Clone, Debug, PartialEq, Eq)]
pub struct SessionRunRequest {
    pub session_id: String,
    pub final_cycles: Vec<u64>,
}

/// A request for the log of one step of a session's machine from a given cycle.
#[derive(Clone, Debug, PartialEq, Eq)]
pub struct SessionStepRequest {
    pub session_id: String,
    pub initial_cycle: u64,
}

/// A request to read a session's memory at a given cycle.
#[derive(Clone, Debug, PartialEq, Eq)]
pub struct SessionReadMemoryRequest {
    pub session_id: String,
    pub cycle: u64,
    pub position: Option<ReadMemoryRequest>,
}

/// A request to write a session's memory at a given cycle.
#[derive(Clone, Debug, PartialEq, Eq)]
pub struct SessionWriteMemoryRequest {
    pub session_id: String,
    pub cycle: u64,
    pub position: Option<WriteMemoryRequest>,
}

/// A request for a proof of a session's memory at a given cycle.
#[derive(Clone, Debug, PartialEq, Eq)]
pub struct SessionGetProofRequest {
    pub session_id: String,
    pub cycle: u64,
    pub target: Option<GetProofRequest>,
}

} // verus!
