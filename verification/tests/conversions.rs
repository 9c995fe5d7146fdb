use emulator_service::cartesi_machine;
use emulator_service::emulator_service::{
    Access, AccessType, NewSessionRequest, NewSessionResponse, Proof, ReadMemoryResponse,
    SessionGetProofRequest, SessionGetProofResponse, SessionReadMemoryRequest,
    SessionReadMemoryResponse, SessionRunProgress, SessionRunRequest, SessionRunResponse,
    SessionRunResponseOneOf, SessionRunResult, SessionStepRequest, SessionStepResponse,
    SessionWriteMemoryRequest, EMULATOR_METHOD_NEW, EMULATOR_METHOD_PROOF, EMULATOR_METHOD_READ,
    EMULATOR_METHOD_RUN, EMULATOR_METHOD_STEP, EMULATOR_METHOD_WRITE, EMULATOR_SERVICE_NAME,
};
use emulator_service::hash::H256;
use emulator_service::machine_manager;
use emulator_service::word::{from_bytes, to_bytes};

fn hash_msg(b: u8) -> cartesi_machine::Hash {
    cartesi_machine::Hash { data: vec![b; 32] }
}

fn proof_msg(address: u64) -> cartesi_machine::Proof {
    cartesi_machine::Proof {
        address,
        log2_size: 3,
        target_hash: Some(hash_msg(1)),
        sibling_hashes: vec![hash_msg(2), hash_msg(3)],
        root_hash: Some(hash_msg(4)),
    }
}

fn access_msg(address: u64, read: Vec<u8>, written: Vec<u8>) -> cartesi_machine::Access {
    cartesi_machine::Access {
        field_type: cartesi_machine::AccessType::WRITE,
        read,
        written,
        proof: Some(proof_msg(address)),
    }
}

#[test]
fn to_bytes_keeps_eight_bytes() {
    assert_eq!(to_bytes(vec![1, 2, 3, 4, 5, 6, 7, 8]), Some([1, 2, 3, 4, 5, 6, 7, 8]));
}

#[test]
fn to_bytes_gives_zeros_on_other_lengths() {
    assert_eq!(to_bytes(vec![]), Some([0; 8]));
    assert_eq!(to_bytes(vec![9; 7]), Some([0; 8]));
    assert_eq!(to_bytes(vec![9; 9]), Some([0; 8]));
}

#[test]
fn from_bytes_gives_the_eight_bytes() {
    assert_eq!(from_bytes([8, 7, 6, 5, 4, 3, 2, 1]), vec![8, 7, 6, 5, 4, 3, 2, 1]);
}

#[test]
fn word_roundtrip() {
    let w = [0xde, 0xad, 0xbe, 0xef, 0, 1, 2, 3];
    assert_eq!(to_bytes(from_bytes(w)), Some(w));
    let v = vec![10, 20, 30, 40, 50, 60, 70, 80];
    assert_eq!(from_bytes(to_bytes(v.clone()).unwrap()), v);
}

#[test]
fn h256_from_slice_and_back() {
    let bytes: Vec<u8> = (0..32).collect();
    let h = H256::from_slice(&bytes);
    assert_eq!(h.0[0], 0);
    assert_eq!(h.0[31], 31);
    assert_eq!(h.to_vec(), bytes);
}

#[test]
fn hash_well_formedness() {
    assert!(hash_msg(0).is_well_formed());
    assert!(!cartesi_machine::Hash { data: vec![0; 31] }.is_well_formed());
    assert!(!cartesi_machine::Hash { data: vec![0; 33] }.is_well_formed());
    assert!(cartesi_machine::all_hashes_well_formed(&vec![]));
    assert!(!cartesi_machine::all_hashes_well_formed(&vec![
        hash_msg(1),
        cartesi_machine::Hash { data: vec![] }
    ]));
}

#[test]
fn proof_from_msg() {
    let p = Proof::from_msg(&proof_msg(0x1000));
    assert_eq!(p.address, 0x1000);
    assert_eq!(p.log2_size, 3);
    assert_eq!(p.target_hash, H256([1; 32]));
    assert_eq!(p.sibling_hashes, vec![H256([2; 32]), H256([3; 32])]);
    assert_eq!(p.root_hash, H256([4; 32]));
}

#[test]
fn proof_roundtrip() {
    let m = proof_msg(77);
    assert_eq!(Proof::from_msg(&m).to_msg(), m);
    let p = Proof {
        address: 5,
        log2_size: 12,
        target_hash: H256([9; 32]),
        sibling_hashes: vec![],
        root_hash: H256([8; 32]),
    };
    let back = Proof::from_msg(&p.to_msg());
    assert_eq!(back.address, 5);
    assert_eq!(back.log2_size, 12);
    assert_eq!(back.target_hash, p.target_hash);
    assert!(back.sibling_hashes.is_empty());
    assert_eq!(back.root_hash, p.root_hash);
}

#[test]
fn proof_well_formedness() {
    assert!(proof_msg(0).is_well_formed());
    let mut m = proof_msg(0);
    m.target_hash = None;
    assert!(!m.is_well_formed());
    let mut m = proof_msg(0);
    m.root_hash = None;
    assert!(!m.is_well_formed());
    let mut m = proof_msg(0);
    m.sibling_hashes.push(cartesi_machine::Hash { data: vec![1; 20] });
    assert!(!m.is_well_formed());
}

#[test]
fn access_takes_address_from_proof() {
    let a = Access::from_msg(&access_msg(0x40, vec![1; 8], vec![2; 8]));
    assert_eq!(a.address, 0x40);
    assert_eq!(a.proof.address, 0x40);
    assert_eq!(a.field_type, AccessType::Write);
    assert_eq!(a.value_read, [1; 8]);
    assert_eq!(a.value_written, [2; 8]);
}

#[test]
fn access_with_short_values_reads_zeros() {
    let a = Access::from_msg(&access_msg(8, vec![1, 2, 3], vec![]));
    assert_eq!(a.value_read, [0; 8]);
    assert_eq!(a.value_written, [0; 8]);
}

#[test]
fn access_roundtrip() {
    let m = access_msg(0x80, vec![3; 8], vec![4; 8]);
    assert_eq!(Access::from_msg(&m).to_msg(), m);
}

#[test]
fn access_message_keeps_only_the_proof_address() {
    let a = Access {
        field_type: AccessType::Read,
        address: 1,
        value_read: [5; 8],
        value_written: [6; 8],
        proof: Proof::from_msg(&proof_msg(2)),
    };
    let m = a.to_msg();
    assert_eq!(m.field_type, cartesi_machine::AccessType::READ);
    assert_eq!(m.read, vec![5; 8]);
    assert_eq!(m.written, vec![6; 8]);
    assert_eq!(Access::from_msg(&m).address, 2);
}

#[test]
fn access_well_formedness() {
    assert!(access_msg(0, vec![], vec![]).is_well_formed());
    let mut m = access_msg(0, vec![], vec![]);
    m.proof = None;
    assert!(!m.is_well_formed());
}

#[test]
fn access_type_roundtrip() {
    assert_eq!(AccessType::from_msg(cartesi_machine::AccessType::READ), AccessType::Read);
    assert_eq!(AccessType::from_msg(cartesi_machine::AccessType::WRITE), AccessType::Write);
    assert_eq!(AccessType::Read.to_msg(), cartesi_machine::AccessType::READ);
    assert_eq!(AccessType::Write.to_msg(), cartesi_machine::AccessType::WRITE);
}

#[test]
fn step_response_keeps_order() {
    let msg = machine_manager::SessionStepResponse {
        log: Some(cartesi_machine::AccessLog {
            accesses: vec![
                access_msg(1, vec![1; 8], vec![1; 8]),
                access_msg(2, vec![2; 8], vec![2; 8]),
                access_msg(3, vec![3; 8], vec![3; 8]),
            ],
        }),
    };
    assert!(msg.is_well_formed());
    let r = SessionStepResponse::from_msg(&msg);
    assert_eq!(r.log.len(), 3);
    assert_eq!(r.log[0].address, 1);
    assert_eq!(r.log[1].address, 2);
    assert_eq!(r.log[2].address, 3);
    assert_eq!(r.log[2].value_read, [3; 8]);
    assert_eq!(r.to_msg(), msg);
}

#[test]
fn step_response_well_formedness() {
    assert!(!machine_manager::SessionStepResponse { log: None }.is_well_formed());
    let mut bad = access_msg(1, vec![], vec![]);
    bad.proof.as_mut().unwrap().root_hash = None;
    let msg = machine_manager::SessionStepResponse {
        log: Some(cartesi_machine::AccessLog { accesses: vec![access_msg(0, vec![], vec![]), bad] }),
    };
    assert!(!msg.is_well_formed());
    let empty = machine_manager::SessionStepResponse {
        log: Some(cartesi_machine::AccessLog { accesses: vec![] }),
    };
    assert!(empty.is_well_formed());
    assert!(SessionStepResponse::from_msg(&empty).log.is_empty());
}

#[test]
fn run_progress_roundtrip() {
    let m = machine_manager::SessionRunProgress {
        progress: 50,
        application_progress: 25,
        updated_at: 1234,
        cycle: 99,
    };
    let p = SessionRunProgress::from_msg(&m);
    assert_eq!(p.progress, 50);
    assert_eq!(p.application_progress, 25);
    assert_eq!(p.updated_at, 1234);
    assert_eq!(p.cycle, 99);
    assert_eq!(p.to_msg(), m);
}

#[test]
fn run_response_progress() {
    let m = machine_manager::SessionRunResponse {
        run_oneof: Some(machine_manager::SessionRunResponse_oneof_run_oneof::progress(
            machine_manager::SessionRunProgress {
                progress: 1,
                application_progress: 2,
                updated_at: 3,
                cycle: 4,
            },
        )),
    };
    assert!(m.is_well_formed());
    let r = SessionRunResponse::from_msg(&m);
    match &r.one_of {
        SessionRunResponseOneOf::RunProgress(p) => assert_eq!(p.cycle, 4),
        SessionRunResponseOneOf::RunResult(_) => panic!("expected progress"),
    }
    assert_eq!(r.to_msg(), m);
}

#[test]
fn run_response_result() {
    let m = machine_manager::SessionRunResponse {
        run_oneof: Some(machine_manager::SessionRunResponse_oneof_run_oneof::result(
            machine_manager::SessionRunResult { hashes: vec![hash_msg(5), hash_msg(6)] },
        )),
    };
    assert!(m.is_well_formed());
    let r = SessionRunResponse::from_msg(&m);
    match &r.one_of {
        SessionRunResponseOneOf::RunResult(res) => {
            assert_eq!(res.hashes, vec![H256([5; 32]), H256([6; 32])])
        }
        SessionRunResponseOneOf::RunProgress(_) => panic!("expected result"),
    }
    assert_eq!(r.to_msg(), m);
}

#[test]
fn run_response_well_formedness() {
    assert!(!machine_manager::SessionRunResponse { run_oneof: None }.is_well_formed());
    let m = machine_manager::SessionRunResponse {
        run_oneof: Some(machine_manager::SessionRunResponse_oneof_run_oneof::result(
            machine_manager::SessionRunResult { hashes: vec![cartesi_machine::Hash { data: vec![1] }] },
        )),
    };
    assert!(!m.is_well_formed());
}

#[test]
fn run_result_roundtrip() {
    let r = SessionRunResult { hashes: vec![H256([7; 32])] };
    let m = r.to_msg();
    assert_eq!(m.hashes, vec![hash_msg(7)]);
    assert_eq!(SessionRunResult::from_msg(&m).hashes, r.hashes);
}

#[test]
fn new_session_response_hash() {
    let r = NewSessionResponse::from_msg(&hash_msg(0xab));
    assert_eq!(r.hash, H256([0xab; 32]));
}

#[test]
fn read_memory_responses() {
    let m = cartesi_machine::ReadMemoryResponse { data: vec![1, 2, 3] };
    assert_eq!(ReadMemoryResponse::from_msg(&m).data, vec![1, 2, 3]);
    let s = machine_manager::SessionReadMemoryResponse { read_content: Some(m) };
    assert_eq!(SessionReadMemoryResponse::from_msg(&s).read_content.data, vec![1, 2, 3]);
}

#[test]
fn get_proof_response() {
    let r = SessionGetProofResponse::from_msg(&proof_msg(0x2000));
    assert_eq!(r.proof.address, 0x2000);
    assert_eq!(r.proof.sibling_hashes.len(), 2);
}

#[test]
fn requests_into_messages() {
    let m = NewSessionRequest {
        machine: cartesi_machine::MachineRequest { encoded: vec![1, 2] },
        session_id: "s1".to_string(),
        force: true,
    }
    .into_msg();
    assert_eq!(m.session_id, "s1");
    assert_eq!(m.machine, Some(cartesi_machine::MachineRequest { encoded: vec![1, 2] }));
    assert!(m.force);

    let m = SessionRunRequest { session_id: "s2".to_string(), times: vec![10, 20] }.into_msg();
    assert_eq!(m.session_id, "s2");
    assert_eq!(m.final_cycles, vec![10, 20]);

    let m = SessionStepRequest { session_id: "s3".to_string(), time: 30 }.into_msg();
    assert_eq!(m.session_id, "s3");
    assert_eq!(m.initial_cycle, 30);

    let pos = cartesi_machine::ReadMemoryRequest { encoded: vec![8, 1] };
    let m = SessionReadMemoryRequest { session_id: "s4".to_string(), time: 40, position: pos.clone() }
        .into_msg();
    assert_eq!(m.session_id, "s4");
    assert_eq!(m.cycle, 40);
    assert_eq!(m.position, Some(pos));

    let pos = cartesi_machine::WriteMemoryRequest { encoded: vec![8, 2] };
    let m = SessionWriteMemoryRequest {
        session_id: "s5".to_string(),
        time: 50,
        position: pos.clone(),
    }
    .into_msg();
    assert_eq!(m.session_id, "s5");
    assert_eq!(m.cycle, 50);
    assert_eq!(m.position, Some(pos));

    let target = cartesi_machine::GetProofRequest { encoded: vec![8, 3] };
    let m = SessionGetProofRequest { session_id: "s6".to_string(), time: 60, target: target.clone() }.into_msg();
    assert_eq!(m.session_id, "s6");
    assert_eq!(m.cycle, 60);
    assert_eq!(m.target, Some(target));
}

#[test]
fn method_names() {
    assert_eq!(EMULATOR_SERVICE_NAME, "emulator");
    assert_eq!(EMULATOR_METHOD_NEW, "/CartesiMachineManager.MachineManager/NewSession");
    assert_eq!(EMULATOR_METHOD_RUN, "/CartesiMachineManager.MachineManager/SessionRun");
    assert_eq!(EMULATOR_METHOD_STEP, "/CartesiMachineManager.MachineManager/SessionStep");
    assert_eq!(EMULATOR_METHOD_READ, "/CartesiMachineManager.MachineManager/SessionReadMemory");
    assert_eq!(EMULATOR_METHOD_WRITE, "/CartesiMachineManager.MachineManager/SessionWriteMemory");
    assert_eq!(EMULATOR_METHOD_PROOF, "/CartesiMachineManager.MachineManager/SessionGetProof");
}
