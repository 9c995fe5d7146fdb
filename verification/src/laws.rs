//! What holds of the conversions taken together: each one is undone by its counterpart.
use vstd::prelude::*;

use crate::cartesi_machine::{AccessMsgView, ProofMsgView, all_accesses_wf, AccessType};
use crate::emulator_service::{
    AccessModel,
    ProofModel,
    RunOneOfModel,
    SessionRunProgress,
    access_of_msg,
    access_type_of_msg,
    log_of_msg,
    msg_of_access,
    msg_of_access_type,
    msg_of_log,
    msg_of_proof,
    msg_of_progress,
    msg_of_run_one_of,
    proof_of_msg,
    progress_of_msg,
    run_one_of_of_msg,
};
use crate::machine_manager;
use crate::machine_manager::RunOneofView;
use crate::word::word_of;
use crate::cartesi_machine::{Access, hashes_view, accesses_view};
use crate::emulator_service::{h256s_view, log_view};
use crate::hash::H256;

verus! {

/// A value is kept as the word of an access exactly when it has eight bytes, the word
/// always has eight bytes, and a value of any other length gives eight zero bytes.
pub proof fn law_word_kept_iff_eight(s: Seq<u8>)
    ensures
        word_of(s).len() == 8,
        word_of(s) == s <==> s.len() == 8,
        s.len() != 8 ==> forall|i: int| 0 <= i < 8 ==> #[trigger] word_of(s)[i] == 0,
{
}

/// A progress read from a message has each field equal to the field of the same name in
/// the message, and so has the message written from a progress.
pub proof fn law_progress_fields(m: machine_manager::SessionRunProgress, p: SessionRunProgress)
    ensures
        progress_of_msg(m).progress == m.progress,
        progress_of_msg(m).application_progress == m.application_progress,
        progress_of_msg(m).updated_at == m.updated_at,
        progress_of_msg(m).cycle == m.cycle,
        msg_of_progress(p).progress == p.progress,
        msg_of_progress(p).application_progress == p.application_progress,
        msg_of_progress(p).updated_at == p.updated_at,
        msg_of_progress(p).cycle == p.cycle,
{
}

/// The answer to a run read from a message is of the same variant and holds the same
/// contents: a progress with each field equal to the message's field of the same name, or
/// the same hashes, in the same order; and likewise for the message written from an answer.
pub proof fn law_run_one_of_fields(
    p: machine_manager::SessionRunProgress,
    q: SessionRunProgress,
    h: Seq<Seq<u8>>,
)
    ensures
        run_one_of_of_msg(RunOneofView::Progress(p)) matches RunOneOfModel::RunProgress(r) && {
            &&& r.progress == p.progress
            &&& r.application_progress == p.application_progress
            &&& r.updated_at == p.updated_at
            &&& r.cycle == p.cycle
        },
        run_one_of_of_msg(RunOneofView::Hashes(h)) == RunOneOfModel::RunResult(h),
        msg_of_run_one_of(RunOneOfModel::RunProgress(q)) matches RunOneofView::Progress(r) && {
            &&& r.progress == q.progress
            &&& r.application_progress == q.application_progress
            &&& r.updated_at == q.updated_at
            &&& r.cycle == q.cycle
        },
        msg_of_run_one_of(RunOneOfModel::RunResult(h)) == RunOneofView::Hashes(h),
{
}

/// A read access is read as a read and a write as a write, both ways.
pub proof fn law_access_type_fields(m: AccessType, op: crate::emulator_service::AccessType)
    ensures
        (access_type_of_msg(m) == crate::emulator_service::AccessType::Read) <==> (m
            == AccessType::READ),
        (access_type_of_msg(m) == crate::emulator_service::AccessType::Write) <==> (m
            == AccessType::WRITE),
        (msg_of_access_type(op) == AccessType::READ) <==> (op
            == crate::emulator_service::AccessType::Read),
        (msg_of_access_type(op) == AccessType::WRITE) <==> (op
            == crate::emulator_service::AccessType::Write),
{
}

/// A proof read from a message has the message's address and size, its target hash as
/// target hash, its root hash as root hash and its sibling hashes in the same order,
/// whatever their number; and the message written from a proof holds the proof's.
pub proof fn law_proof_fields(m: ProofMsgView, p: ProofModel)
    ensures
        proof_of_msg(m).address == m.address,
        proof_of_msg(m).log2_size == m.log2_size,
        m.target_hash is Some ==> proof_of_msg(m).target_hash == m.target_hash.unwrap(),
        m.root_hash is Some ==> proof_of_msg(m).root_hash == m.root_hash.unwrap(),
        proof_of_msg(m).sibling_hashes == m.sibling_hashes,
        msg_of_proof(p).address == p.address,
        msg_of_proof(p).log2_size == p.log2_size,
        msg_of_proof(p).target_hash == Some(p.target_hash),
        msg_of_proof(p).root_hash == Some(p.root_hash),
        msg_of_proof(p).sibling_hashes == p.sibling_hashes,
{
}

/// An access read from a message has the message's kind, the address of its proof, the
/// word of its read bytes as value read, the word of its written bytes as value written,
/// and the proof read from its proof, at every address; the message written from an access
/// holds the access's kind, its value read as read bytes, its value written as written
/// bytes, and the message of its proof.
pub proof fn law_access_fields(m: AccessMsgView, a: AccessModel)
    requires
        m.proof is Some,
    ensures
        access_of_msg(m).field_type == access_type_of_msg(m.field_type),
        access_of_msg(m).address == m.proof.unwrap().address,
        access_of_msg(m).value_read == word_of(m.read),
        access_of_msg(m).value_written == word_of(m.written),
        access_of_msg(m).proof == proof_of_msg(m.proof.unwrap()),
        msg_of_access(a).field_type == msg_of_access_type(a.field_type),
        msg_of_access(a).read == a.value_read,
        msg_of_access(a).written == a.value_written,
        msg_of_access(a).proof == Some(msg_of_proof(a.proof)),
{
}

/// The contents of a sequence of hashes or accesses keep its length and order: the i-th
/// element of the contents is the contents of the i-th element.
pub proof fn law_views_keep_order(
    hs: Seq<crate::cartesi_machine::Hash>,
    h256s: Seq<H256>,
    accesses: Seq<Access>,
    log: Seq<crate::emulator_service::Access>,
)
    ensures
        hashes_view(hs).len() == hs.len(),
        forall|i: int| 0 <= i < hs.len() ==> #[trigger] hashes_view(hs)[i] == hs[i].data@,
        h256s_view(h256s).len() == h256s.len(),
        forall|i: int| 0 <= i < h256s.len() ==> #[trigger] h256s_view(h256s)[i] == h256s[i].0@,
        accesses_view(accesses).len() == accesses.len(),
        forall|i: int|
            0 <= i < accesses.len() ==> #[trigger] accesses_view(accesses)[i] == accesses[i]@,
        log_view(log).len() == log.len(),
        forall|i: int| 0 <= i < log.len() ==> #[trigger] log_view(log)[i] == log[i]@,
{
}

/// Reading a step log keeps its length and its order: the i-th access read is the access
/// read from the i-th message; and the i-th message written is the message of the i-th
/// access.
pub proof fn law_log_order(l: Seq<AccessMsgView>, a: Seq<AccessModel>)
    ensures
        log_of_msg(l).len() == l.len(),
        forall|i: int| 0 <= i < l.len() ==> #[trigger] log_of_msg(l)[i] == access_of_msg(l[i]),
        msg_of_log(a).len() == a.len(),
        forall|i: int| 0 <= i < a.len() ==> #[trigger] msg_of_log(a)[i] == msg_of_access(a[i]),
{
}

/// Reading back the message of a progress gives the same progress.
pub proof fn law_progress_roundtrip(p: SessionRunProgress)
    ensures
        progress_of_msg(msg_of_progress(p)) == p,
{
}

/// A progress message read and written again gives the same message.
pub proof fn law_progress_msg_roundtrip(m: machine_manager::SessionRunProgress)
    ensures
        msg_of_progress(progress_of_msg(m)) == m,
{
}

/// Reading back the message of a kind of access gives the same kind, and the other way round.
pub proof fn law_access_type_roundtrip(
    op: crate::emulator_service::AccessType,
    m: AccessType,
)
    ensures
        access_type_of_msg(msg_of_access_type(op)) == op,
        msg_of_access_type(access_type_of_msg(m)) == m,
{
}

/// The message of a proof is well formed, and reading it back gives the same proof.
pub proof fn law_proof_roundtrip(p: ProofModel)
    requires
        p.wf(),
    ensures
        msg_of_proof(p).wf(),
        proof_of_msg(msg_of_proof(p)) == p,
{
}

/// A well-formed proof message read and written again gives the same message.
pub proof fn law_proof_msg_roundtrip(m: ProofMsgView)
    requires
        m.wf(),
    ensures
        proof_of_msg(m).wf(),
        msg_of_proof(proof_of_msg(m)) == m,
{
}

/// An access read out of a well-formed message is well formed, and its address is the
/// address of its proof.
pub proof fn law_access_address_is_proof_address(m: AccessMsgView)
    requires
        m.wf(),
    ensures
        access_of_msg(m).wf(),
        access_of_msg(m).address == access_of_msg(m).proof.address,
{
}

/// The message of an access is well formed, and reading it back gives the same access
/// when the access's address is that of its proof (the message keeps no other address).
pub proof fn law_access_roundtrip(a: AccessModel)
    requires
        a.wf(),
        a.address == a.proof.address,
    ensures
        msg_of_access(a).wf(),
        access_of_msg(msg_of_access(a)) == a,
{
}

/// A well-formed access message whose values have eight bytes each, read and written
/// again, gives the same message.
pub proof fn law_access_msg_roundtrip(m: AccessMsgView)
    requires
        m.wf(),
        m.read.len() == 8,
        m.written.len() == 8,
    ensures
        msg_of_access(access_of_msg(m)) == m,
{
}

/// The log message of a step keeps every access in its place, and reading it back gives
/// the same log when each access's address is that of its proof.
pub proof fn law_log_roundtrip(log: Seq<AccessModel>)
    requires
        forall|i: int| 0 <= i < log.len() ==> (#[trigger] log[i]).wf(),
        forall|i: int| 0 <= i < log.len() ==> (#[trigger] log[i]).address == log[i].proof.address,
    ensures
        all_accesses_wf(msg_of_log(log)),
        log_of_msg(msg_of_log(log)) == log,
{
    assert forall|i: int| 0 <= i < msg_of_log(log).len() implies (#[trigger] msg_of_log(
        log,
    )[i]).wf() by {
        law_access_roundtrip(log[i]);
    }
    assert forall|i: int| 0 <= i < log.len() implies #[trigger] log_of_msg(msg_of_log(log))[i]
        == log[i] by {
        law_access_roundtrip(log[i]);
    }
    assert(log_of_msg(msg_of_log(log)) =~= log);
}

/// A well-formed log message whose values have eight bytes each, read and written again,
/// gives the same message.
pub proof fn law_log_msg_roundtrip(log: Seq<AccessMsgView>)
    requires
        all_accesses_wf(log),
        forall|i: int| 0 <= i < log.len() ==> (#[trigger] log[i]).read.len() == 8,
        forall|i: int| 0 <= i < log.len() ==> (#[trigger] log[i]).written.len() == 8,
    ensures
        msg_of_log(log_of_msg(log)) == log,
{
    assert forall|i: int| 0 <= i < log.len() implies #[trigger] msg_of_log(log_of_msg(log))[i]
        == log[i] by {
        law_access_msg_roundtrip(log[i]);
    }
    assert(msg_of_log(log_of_msg(log)) =~= log);
}

/// The message of an answer to a run is well formed, and reading it back gives the same
/// answer.
pub proof fn law_run_one_of_roundtrip(r: RunOneOfModel)
    requires
        r.wf(),
    ensures
        msg_of_run_one_of(r).wf(),
        run_one_of_of_msg(msg_of_run_one_of(r)) == r,
{
    if let RunOneOfModel::RunProgress(p) = r {
        law_progress_roundtrip(p);
    }
}

/// A well-formed message of an answer to a run, read and written again, gives the same
/// message.
pub proof fn law_run_one_of_msg_roundtrip(m: RunOneofView)
    requires
        m.wf(),
    ensures
        msg_of_run_one_of(run_one_of_of_msg(m)) == m,
{
    if let RunOneofView::Progress(p) = m {
        law_progress_msg_roundtrip(p);
    }
}

} // verus!
