//! Laws of the orchestrator's effect traces: the synchronization discipline
//! of uploads, proved over every run of the machine.

use vstd::prelude::*;
use crate::entry::EntryModel;
use crate::errors::CmdFailure;
use crate::orchestrate::{
    command_begin, orch_accepts, orch_done, orch_next, orch_run, orch_run_state, orch_wf,
    CommandEventModel, CommandModel, EffectModel, OrchestratorModel, UploadPhase,
};
use crate::paths::{base_name_model, remote_name_model};
use crate::text::progress_line_model;

verus! {

/// Whether the machine stands in an upload waiting for a put call to resolve.
pub open spec fn awaiting_put(s: OrchestratorModel) -> bool {
    match s {
        OrchestratorModel::Uploading { phase, .. } => phase == UploadPhase::AwaitPut,
        _ => false,
    }
}

/// Whether the machine has halted with a failure.
pub open spec fn halted_failing(s: OrchestratorModel) -> bool {
    match s {
        OrchestratorModel::Finished { outcome } => outcome is Err,
        _ => false,
    }
}

/// The synchronization discipline of an upload trace: every put that is not
/// the trace's last effect is followed at once by the listing on the empty
/// path, and a listing occurs only right after a put.
pub open spec fn barrier_shaped(t: Seq<EffectModel>) -> bool {
    &&& forall|i: int|
        0 <= i < t.len() - 1 && (#[trigger] t[i]) is PutFile ==> t[i + 1] == (EffectModel::ListFiles {
            path: Seq::empty(),
        })
    &&& forall|i: int|
        0 <= i < t.len() && (#[trigger] t[i]) is ListFiles ==> i > 0 && t[i - 1] is PutFile
}

/// The inductive invariant tying an upload's state to the trace produced so
/// far.
pub open spec fn upload_inv(s: OrchestratorModel, t: Seq<EffectModel>) -> bool {
    &&& barrier_shaped(t)
    &&& s is Uploading || s is Finished
    &&& awaiting_put(s) ==> t.len() > 0 && t.last() is PutFile
    &&& t.len() > 0 && t.last() is PutFile ==> awaiting_put(s) || halted_failing(s)
}

proof fn lemma_upload_step_preserves(
    s: OrchestratorModel,
    t: Seq<EffectModel>,
    e: CommandEventModel,
)
    requires
        upload_inv(s, t),
        orch_wf(s),
        !orch_done(s),
        orch_accepts(s, e),
    ensures
        upload_inv(orch_next(s, e).0, t + orch_next(s, e).1),
        orch_wf(orch_next(s, e).0),
{
    let s2 = orch_next(s, e).0;
    let effs = orch_next(s, e).1;
    let t2 = t + effs;
    if effs.len() == 0 {
        assert(t2 =~= t);
    }
    assert(barrier_shaped(t2)) by {
        assert forall|i: int|
            0 <= i < t2.len() - 1 && (#[trigger] t2[i]) is PutFile implies t2[i + 1]
            == (EffectModel::ListFiles { path: Seq::empty() }) by {
            if i < t.len() - 1 {
                assert(t2[i] == t[i] && t2[i + 1] == t[i + 1]);
            } else if i == t.len() - 1 {
                assert(t2[i] == t[i]);
                assert(awaiting_put(s) || halted_failing(s));
                assert(effs[0] == (EffectModel::ListFiles { path: Seq::empty() }));
            } else {
                assert(t2[i] == effs[i - t.len()]);
            }
        }
        assert forall|i: int|
            0 <= i < t2.len() && (#[trigger] t2[i]) is ListFiles implies i > 0 && t2[i - 1]
            is PutFile by {
            if i < t.len() {
                assert(t2[i] == t[i]);
                assert(t2[i - 1] == t[i - 1]);
            } else {
                assert(t2[i] == effs[i - t.len()]);
                assert(awaiting_put(s));
                assert(t.last() is PutFile);
                assert(t2[i - 1] == t[i - 1]);
            }
        }
    }
}

proof fn lemma_upload_run_preserves(
    s: OrchestratorModel,
    t: Seq<EffectModel>,
    evs: Seq<CommandEventModel>,
)
    requires
        upload_inv(s, t),
        orch_wf(s),
    ensures
        upload_inv(orch_run_state(s, evs), t + orch_run(s, evs)),
        orch_wf(orch_run_state(s, evs)),
    decreases evs.len(),
{
    if evs.len() == 0 || orch_done(s) || !orch_accepts(s, evs[0]) {
        assert(t + orch_run(s, evs) =~= t);
    } else {
        let s2 = orch_next(s, evs[0]).0;
        let effs = orch_next(s, evs[0]).1;
        lemma_upload_step_preserves(s, t, evs[0]);
        lemma_upload_run_preserves(s2, t + effs, evs.drop_first());
        assert(t + orch_run(s, evs) =~= (t + effs) + orch_run(s2, evs.drop_first()));
    }
}

/// After every put in an upload run, the very next effect is the
/// synchronization listing on the empty path, and a listing appears in the
/// trace only right after a put.  Hence between any two puts exactly one
/// listing is issued, and after a put whose command completes one listing
/// follows before completion: the bridge's put call may return before the
/// transfer is durable, and the discarded listing is the round trip that
/// forces completion before the next file proceeds.
pub proof fn lemma_upload_barrier_discipline(
    dest_dir: Option<Seq<char>>,
    files: Seq<Seq<char>>,
    evs: Seq<CommandEventModel>,
)
    ensures
        ({
            let begun = command_begin(CommandModel::Put { dest_dir, files });
            barrier_shaped(begun.1 + orch_run(begun.0, evs))
        }),
{
    let begun = command_begin(CommandModel::Put { dest_dir, files });
    assert(upload_inv(begun.0, begun.1));
    lemma_upload_run_preserves(begun.0, begun.1, evs);
}

/// Once the machine has halted — the command completed or any step failed —
/// no further effect is ever issued, whatever events follow: failure on one
/// item stops a sequence before the next item is attempted.
pub proof fn lemma_halted_machine_is_silent(s: OrchestratorModel, evs: Seq<CommandEventModel>)
    requires
        orch_done(s),
    ensures
        orch_run(s, evs) == Seq::<EffectModel>::empty(),
        orch_run_state(s, evs) == s,
{
}

/// Between a put and the next put — no other put standing between them — the
/// listing issued right after the first put is the only one: exactly one
/// synchronization listing separates consecutive puts.
pub proof fn lemma_one_barrier_between_puts(t: Seq<EffectModel>, i: int, j: int)
    requires
        barrier_shaped(t),
        0 <= i < j < t.len(),
        t[i] is PutFile,
        t[j] is PutFile,
        forall|k: int| i < k < j ==> !((#[trigger] t[k]) is PutFile),
    ensures
        t[i + 1] is ListFiles,
        forall|k: int| i < k < j && (#[trigger] t[k]) is ListFiles ==> k == i + 1,
{
    assert(t[i + 1] == (EffectModel::ListFiles { path: Seq::empty() }));
    assert forall|k: int| i < k < j && (#[trigger] t[k]) is ListFiles implies k == i + 1 by {
        assert(t[k - 1] is PutFile);
        if k - 1 > i {
            assert(!(t[k - 1] is PutFile));
        }
    }
}

/// In an upload of three files where reading the second fails: the first is
/// uploaded in full (its put and its barrier listing are issued), the read
/// failure aborts the command with the second file's path, and the third
/// file is never read nor uploaded — the trace ends at the failed read.
pub proof fn lemma_read_failure_stops_upload(
    dest_dir: Option<Seq<char>>,
    a: Seq<char>,
    b: Seq<char>,
    c: Seq<char>,
    base: Seq<char>,
    bytes_a: Seq<u8>,
    listing: Seq<EntryModel>,
)
    requires
        base_name_model(a) == Some(base),
    ensures
        ({
            let begun = command_begin(CommandModel::Put { dest_dir, files: seq![a, b, c] });
            let evs = seq![
                CommandEventModel::FileOk { bytes: bytes_a },
                CommandEventModel::PutOk,
                CommandEventModel::ListOk { entries: listing },
                CommandEventModel::FileErr,
            ];
            let remote = remote_name_model(dest_dir, base);
            &&& begun.1 + orch_run(begun.0, evs) =~= seq![
                EffectModel::ReadLocal { path: a },
                EffectModel::Print { line: progress_line_model(a, remote) },
                EffectModel::PutFile { path: remote, bytes: bytes_a },
                EffectModel::ListFiles { path: Seq::empty() },
                EffectModel::ReadLocal { path: b },
            ]
            &&& orch_run_state(begun.0, evs) == (OrchestratorModel::Finished {
                outcome: Err(CmdFailure::LocalReadFailed { path: b }),
            })
        }),
{
    reveal_with_fuel(orch_run, 6);
    reveal_with_fuel(orch_run_state, 6);
    let files = seq![a, b, c];
    let begun = command_begin(CommandModel::Put { dest_dir, files });
    let evs = seq![
        CommandEventModel::FileOk { bytes: bytes_a },
        CommandEventModel::PutOk,
        CommandEventModel::ListOk { entries: listing },
        CommandEventModel::FileErr,
    ];
    let evs1 = evs.drop_first();
    let evs2 = evs1.drop_first();
    let evs3 = evs2.drop_first();
    let evs4 = evs3.drop_first();
    assert(evs1 =~= seq![
        CommandEventModel::PutOk,
        CommandEventModel::ListOk { entries: listing },
        CommandEventModel::FileErr,
    ]);
    assert(evs2 =~= seq![
        CommandEventModel::ListOk { entries: listing },
        CommandEventModel::FileErr,
    ]);
    assert(evs3 =~= seq![CommandEventModel::FileErr]);
    assert(evs4 =~= Seq::<CommandEventModel>::empty());
    let s0 = begun.0;
    let s1 = orch_next(s0, evs[0]).0;
    let s2 = orch_next(s1, evs1[0]).0;
    let s3 = orch_next(s2, evs2[0]).0;
    let s4 = orch_next(s3, evs3[0]).0;
    assert(orch_run(s0, evs) == orch_next(s0, evs[0]).1 + orch_run(s1, evs1));
    assert(orch_run(s1, evs1) == orch_next(s1, evs1[0]).1 + orch_run(s2, evs2));
    assert(orch_run(s2, evs2) == orch_next(s2, evs2[0]).1 + orch_run(s3, evs3));
    assert(orch_run(s3, evs3) == orch_next(s3, evs3[0]).1 + orch_run(s4, evs4));
    assert(orch_run(s4, evs4) =~= Seq::<EffectModel>::empty());
}

} // verus!
