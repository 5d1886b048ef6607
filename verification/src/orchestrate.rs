//! The command orchestrator: one state machine that turns a parsed command
//! into the ordered protocol calls the bridge must see, renders the output
//! lines, and maps every collaborator failure into the command's result.
//!
//! The machine only decides; a driver performs each returned effect in order
//! (printing a line, issuing a protocol call, reading a local file) and feeds
//! the outcome of the last fallible effect back through [`Orchestrator::step`].

use vstd::prelude::*;
use vstd::string::*;
use crate::entry::{EntryModel, RemoteEntry};
use crate::errors::{CallKind, CmdFailure, CommandError};
use crate::paths::{base_name, base_name_model, remote_name, remote_name_model};
use crate::text::{
    bytes_line, bytes_line_model, entry_line, entry_line_model, info_line, info_line_model,
    progress_line, progress_line_model, removal_line, removal_line_model,
};

verus! {

/// A parsed user command, immutable once built.
pub enum Command {
    /// Report the bridge's info strings.
    Info,
    /// List a remote directory; `None` lists the bridge's root.
    Ls { path: Option<String> },
    /// Upload local files, strictly in order, optionally under a destination
    /// directory.
    Put { dest_dir: Option<String>, files: Vec<String> },
    /// Remove remote files, strictly in order.
    Rm { files: Vec<String> },
    /// Read `len` bytes of console memory starting at `addr` and print them.
    Read { addr: u32, len: u32 },
}

/// Mathematical model of a [`Command`].
#[verifier::ext_equal]
pub ghost enum CommandModel {
    Info,
    Ls { path: Option<Seq<char>> },
    Put { dest_dir: Option<Seq<char>>, files: Seq<Seq<char>> },
    Rm { files: Seq<Seq<char>> },
    Read { addr: u32, len: u32 },
}

impl View for Command {
    type V = CommandModel;

    open spec fn view(&self) -> CommandModel {
        match self {
            Command::Info => CommandModel::Info,
            Command::Ls { path } => CommandModel::Ls { path: path.deep_view() },
            Command::Put { dest_dir, files } => CommandModel::Put {
                dest_dir: dest_dir.deep_view(),
                files: files.deep_view(),
            },
            Command::Rm { files } => CommandModel::Rm { files: files.deep_view() },
            Command::Read { addr, len } => CommandModel::Read { addr: *addr, len: *len },
        }
    }
}

/// Where an upload stands for the file currently being processed.
#[derive(Debug, Clone, Copy, PartialEq, Eq, Structural)]
pub enum UploadPhase {
    /// The local file's bytes are being read.
    AwaitRead,
    /// The put call for the current file is in flight.
    AwaitPut,
    /// The synchronization listing after the put is in flight.
    AwaitBarrier,
}

/// The orchestrator's state.
#[derive(Debug, PartialEq, Eq)]
pub enum Orchestrator {
    /// The info call is in flight.
    AwaitInfo,
    /// The listing call is in flight.
    AwaitList,
    /// An upload sequence, processing `files[next]`.
    Uploading { dest_dir: Option<String>, files: Vec<String>, next: usize, phase: UploadPhase },
    /// A removal sequence, processing `files[next]`.
    Removing { files: Vec<String>, next: usize },
    /// The memory-read call is in flight.
    AwaitMemory,
    /// The command is over; the machine is halted.
    Finished { outcome: Result<(), CommandError> },
}

/// Mathematical model of an [`Orchestrator`].
#[verifier::ext_equal]
pub ghost enum OrchestratorModel {
    AwaitInfo,
    AwaitList,
    Uploading { dest_dir: Option<Seq<char>>, files: Seq<Seq<char>>, next: int, phase: UploadPhase },
    Removing { files: Seq<Seq<char>>, next: int },
    AwaitMemory,
    Finished { outcome: Result<(), CmdFailure> },
}

impl View for Orchestrator {
    type V = OrchestratorModel;

    open spec fn view(&self) -> OrchestratorModel {
        match self {
            Orchestrator::AwaitInfo => OrchestratorModel::AwaitInfo,
            Orchestrator::AwaitList => OrchestratorModel::AwaitList,
            Orchestrator::Uploading { dest_dir, files, next, phase } => OrchestratorModel::Uploading {
                dest_dir: dest_dir.deep_view(),
                files: files.deep_view(),
                next: *next as int,
                phase: *phase,
            },
            Orchestrator::Removing { files, next } => OrchestratorModel::Removing {
                files: files.deep_view(),
                next: *next as int,
            },
            Orchestrator::AwaitMemory => OrchestratorModel::AwaitMemory,
            Orchestrator::Finished { outcome } => OrchestratorModel::Finished {
                outcome: match outcome {
                    Ok(_) => Ok(()),
                    Err(e) => Err(e@),
                },
            },
        }
    }
}

/// The outcome of the fallible effect the driver last performed.
pub enum CommandEvent {
    InfoOk { items: Vec<String> },
    InfoErr,
    ListOk { entries: Vec<RemoteEntry> },
    ListErr,
    PutOk,
    PutErr,
    RemoveOk,
    RemoveErr,
    MemoryOk { bytes: Vec<u8> },
    MemoryErr,
    FileOk { bytes: Vec<u8> },
    FileErr,
}

/// Mathematical model of a [`CommandEvent`].
#[verifier::ext_equal]
pub ghost enum CommandEventModel {
    InfoOk { items: Seq<Seq<char>> },
    InfoErr,
    ListOk { entries: Seq<EntryModel> },
    ListErr,
    PutOk,
    PutErr,
    RemoveOk,
    RemoveErr,
    MemoryOk { bytes: Seq<u8> },
    MemoryErr,
    FileOk { bytes: Seq<u8> },
    FileErr,
}

impl View for CommandEvent {
    type V = CommandEventModel;

    open spec fn view(&self) -> CommandEventModel {
        match self {
            CommandEvent::InfoOk { items } => CommandEventModel::InfoOk {
                items: items.deep_view(),
            },
            CommandEvent::InfoErr => CommandEventModel::InfoErr,
            CommandEvent::ListOk { entries } => CommandEventModel::ListOk {
                entries: entries.deep_view(),
            },
            CommandEvent::ListErr => CommandEventModel::ListErr,
            CommandEvent::PutOk => CommandEventModel::PutOk,
            CommandEvent::PutErr => CommandEventModel::PutErr,
            CommandEvent::RemoveOk => CommandEventModel::RemoveOk,
            CommandEvent::RemoveErr => CommandEventModel::RemoveErr,
            CommandEvent::MemoryOk { bytes } => CommandEventModel::MemoryOk { bytes: bytes@ },
            CommandEvent::MemoryErr => CommandEventModel::MemoryErr,
            CommandEvent::FileOk { bytes } => CommandEventModel::FileOk { bytes: bytes@ },
            CommandEvent::FileErr => CommandEventModel::FileErr,
        }
    }
}

/// What the driver must do next, in order.
#[derive(Debug, PartialEq, Eq)]
pub enum Effect {
    /// Write the line to the operator-facing output stream.
    Print { line: String },
    /// Issue the info call.
    GetInfo,
    /// Issue the listing call on `path`.
    ListFiles { path: String },
    /// Issue the put call transferring `bytes` to the remote path.
    PutFile { path: String, bytes: Vec<u8> },
    /// Issue the remove call on `path`.
    RemoveFile { path: String },
    /// Issue the memory-read call.
    ReadMemory { addr: u32, len: u32 },
    /// Read the local file at `path` fully into memory.
    ReadLocal { path: String },
}

/// Mathematical model of an [`Effect`].
#[verifier::ext_equal]
pub ghost enum EffectModel {
    Print { line: Seq<char> },
    GetInfo,
    ListFiles { path: Seq<char> },
    PutFile { path: Seq<char>, bytes: Seq<u8> },
    RemoveFile { path: Seq<char> },
    ReadMemory { addr: u32, len: u32 },
    ReadLocal { path: Seq<char> },
}

impl View for Effect {
    type V = EffectModel;

    open spec fn view(&self) -> EffectModel {
        match self {
            Effect::Print { line } => EffectModel::Print { line: line@ },
            Effect::GetInfo => EffectModel::GetInfo,
            Effect::ListFiles { path } => EffectModel::ListFiles { path: path@ },
            Effect::PutFile { path, bytes } => EffectModel::PutFile {
                path: path@,
                bytes: bytes@,
            },
            Effect::RemoveFile { path } => EffectModel::RemoveFile { path: path@ },
            Effect::ReadMemory { addr, len } => EffectModel::ReadMemory {
                addr: *addr,
                len: *len,
            },
            Effect::ReadLocal { path } => EffectModel::ReadLocal { path: path@ },
        }
    }
}

/// The model trace of a sequence of effects.
pub open spec fn seq_trace(s: Seq<Effect>) -> Seq<EffectModel> {
    s.map_values(|e: Effect| e@)
}

/// The model trace of a produced effect list.
pub open spec fn trace_of(v: Vec<Effect>) -> Seq<EffectModel> {
    seq_trace(v@)
}

/// One print per info item, in the order returned.
pub open spec fn info_prints(items: Seq<Seq<char>>) -> Seq<EffectModel> {
    items.map_values(|i: Seq<char>| EffectModel::Print { line: info_line_model(i) })
}

/// One print per listed entry, in the order returned.
pub open spec fn listing_prints(entries: Seq<EntryModel>) -> Seq<EffectModel> {
    entries.map_values(|en: EntryModel| EffectModel::Print { line: entry_line_model(en) })
}

/// The removal notice and the remove call for one path.
pub open spec fn removal_effects_model(f: Seq<char>) -> Seq<EffectModel> {
    seq![
        EffectModel::Print { line: removal_line_model(f) },
        EffectModel::RemoveFile { path: f },
    ]
}

/// The halted state for a failed protocol call.
pub open spec fn call_failed(k: CallKind) -> OrchestratorModel {
    OrchestratorModel::Finished { outcome: Err(CmdFailure::CallFailed { call: k }) }
}

/// The initial state and effects of a command.
pub open spec fn command_begin(c: CommandModel) -> (OrchestratorModel, Seq<EffectModel>) {
    match c {
        CommandModel::Info => (OrchestratorModel::AwaitInfo, seq![EffectModel::GetInfo]),
        CommandModel::Ls { path } => (
            OrchestratorModel::AwaitList,
            seq![
                EffectModel::ListFiles {
                    path: match path {
                        Some(p) => p,
                        None => Seq::empty(),
                    },
                },
            ],
        ),
        CommandModel::Put { dest_dir, files } => if files.len() == 0 {
            (OrchestratorModel::Finished { outcome: Ok(()) }, Seq::empty())
        } else {
            (
                OrchestratorModel::Uploading {
                    dest_dir,
                    files,
                    next: 0,
                    phase: UploadPhase::AwaitRead,
                },
                seq![EffectModel::ReadLocal { path: files[0] }],
            )
        },
        CommandModel::Rm { files } => if files.len() == 0 {
            (OrchestratorModel::Finished { outcome: Ok(()) }, Seq::empty())
        } else {
            (OrchestratorModel::Removing { files, next: 0 }, removal_effects_model(files[0]))
        },
        CommandModel::Read { addr, len } => (
            OrchestratorModel::AwaitMemory,
            seq![EffectModel::ReadMemory { addr, len }],
        ),
    }
}

/// Whether the command is over.
pub open spec fn orch_done(s: OrchestratorModel) -> bool {
    s is Finished
}

/// The index into a sequence command's file list stays in range.
pub open spec fn orch_wf(s: OrchestratorModel) -> bool {
    match s {
        OrchestratorModel::Uploading { files, next, .. } => 0 <= next < files.len(),
        OrchestratorModel::Removing { files, next } => 0 <= next < files.len(),
        _ => true,
    }
}

/// Which events answer the effect issued from each state.
pub open spec fn orch_accepts(s: OrchestratorModel, e: CommandEventModel) -> bool {
    match s {
        OrchestratorModel::AwaitInfo => e is InfoOk || e is InfoErr,
        OrchestratorModel::AwaitList => e is ListOk || e is ListErr,
        OrchestratorModel::Uploading { phase, .. } => match phase {
            UploadPhase::AwaitRead => e is FileOk || e is FileErr,
            UploadPhase::AwaitPut => e is PutOk || e is PutErr,
            UploadPhase::AwaitBarrier => e is ListOk || e is ListErr,
        },
        OrchestratorModel::Removing { .. } => e is RemoveOk || e is RemoveErr,
        OrchestratorModel::AwaitMemory => e is MemoryOk || e is MemoryErr,
        OrchestratorModel::Finished { .. } => false,
    }
}

/// The transition of an upload in progress.
pub open spec fn upload_next(
    dest_dir: Option<Seq<char>>,
    files: Seq<Seq<char>>,
    next: int,
    phase: UploadPhase,
    e: CommandEventModel,
) -> (OrchestratorModel, Seq<EffectModel>) {
    match (phase, e) {
        (UploadPhase::AwaitRead, CommandEventModel::FileOk { bytes }) => match base_name_model(
            files[next],
        ) {
            None => (
                OrchestratorModel::Finished {
                    outcome: Err(CmdFailure::InvalidFileName { path: files[next] }),
                },
                Seq::empty(),
            ),
            Some(base) => {
                let remote = remote_name_model(dest_dir, base);
                (
                    OrchestratorModel::Uploading {
                        dest_dir,
                        files,
                        next,
                        phase: UploadPhase::AwaitPut,
                    },
                    seq![
                        EffectModel::Print { line: progress_line_model(files[next], remote) },
                        EffectModel::PutFile { path: remote, bytes },
                    ],
                )
            },
        },
        (UploadPhase::AwaitRead, CommandEventModel::FileErr) => (
            OrchestratorModel::Finished {
                outcome: Err(CmdFailure::LocalReadFailed { path: files[next] }),
            },
            Seq::empty(),
        ),
        (UploadPhase::AwaitPut, CommandEventModel::PutOk) => (
            OrchestratorModel::Uploading {
                dest_dir,
                files,
                next,
                phase: UploadPhase::AwaitBarrier,
            },
            seq![EffectModel::ListFiles { path: Seq::empty() }],
        ),
        (UploadPhase::AwaitPut, CommandEventModel::PutErr) => (
            call_failed(CallKind::PutFile),
            Seq::empty(),
        ),
        (UploadPhase::AwaitBarrier, CommandEventModel::ListOk { .. }) => if next + 1
            == files.len() {
            (OrchestratorModel::Finished { outcome: Ok(()) }, Seq::empty())
        } else {
            (
                OrchestratorModel::Uploading {
                    dest_dir,
                    files,
                    next: next + 1,
                    phase: UploadPhase::AwaitRead,
                },
                seq![EffectModel::ReadLocal { path: files[next + 1] }],
            )
        },
        (UploadPhase::AwaitBarrier, CommandEventModel::ListErr) => (
            call_failed(CallKind::ListFiles),
            Seq::empty(),
        ),
        _ => (
            OrchestratorModel::Uploading { dest_dir, files, next, phase },
            Seq::empty(),
        ),
    }
}

/// The transition relation of command orchestration: the next state and the
/// effects the driver must perform, in order.
pub open spec fn orch_next(s: OrchestratorModel, e: CommandEventModel) -> (OrchestratorModel, Seq<
    EffectModel,
>) {
    match (s, e) {
        (OrchestratorModel::AwaitInfo, CommandEventModel::InfoOk { items }) => (
            OrchestratorModel::Finished { outcome: Ok(()) },
            info_prints(items),
        ),
        (OrchestratorModel::AwaitInfo, CommandEventModel::InfoErr) => (
            call_failed(CallKind::GetInfo),
            Seq::empty(),
        ),
        (OrchestratorModel::AwaitList, CommandEventModel::ListOk { entries }) => (
            OrchestratorModel::Finished { outcome: Ok(()) },
            listing_prints(entries),
        ),
        (OrchestratorModel::AwaitList, CommandEventModel::ListErr) => (
            call_failed(CallKind::ListFiles),
            Seq::empty(),
        ),
        (OrchestratorModel::Uploading { dest_dir, files, next, phase }, _) => upload_next(
            dest_dir,
            files,
            next,
            phase,
            e,
        ),
        (OrchestratorModel::Removing { files, next }, CommandEventModel::RemoveOk) => if next + 1
            == files.len() {
            (OrchestratorModel::Finished { outcome: Ok(()) }, Seq::empty())
        } else {
            (
                OrchestratorModel::Removing { files, next: next + 1 },
                removal_effects_model(files[next + 1]),
            )
        },
        (OrchestratorModel::Removing { .. }, CommandEventModel::RemoveErr) => (
            call_failed(CallKind::RemoveFile),
            Seq::empty(),
        ),
        (OrchestratorModel::AwaitMemory, CommandEventModel::MemoryOk { bytes }) => (
            OrchestratorModel::Finished { outcome: Ok(()) },
            seq![EffectModel::Print { line: bytes_line_model(bytes) }],
        ),
        (OrchestratorModel::AwaitMemory, CommandEventModel::MemoryErr) => (
            call_failed(CallKind::ReadMemory),
            Seq::empty(),
        ),
        _ => (s, Seq::empty()),
    }
}

/// The full effect trace of driving the machine from `s` with the events
/// `evs`, stopping when the machine halts or an event does not answer the
/// pending effect.
pub open spec fn orch_run(s: OrchestratorModel, evs: Seq<CommandEventModel>) -> Seq<EffectModel>
    decreases evs.len(),
{
    if evs.len() == 0 || orch_done(s) || !orch_accepts(s, evs[0]) {
        Seq::empty()
    } else {
        orch_next(s, evs[0]).1 + orch_run(orch_next(s, evs[0]).0, evs.drop_first())
    }
}

/// The state the machine reaches from `s` after the events `evs`.
pub open spec fn orch_run_state(s: OrchestratorModel, evs: Seq<CommandEventModel>) -> OrchestratorModel
    decreases evs.len(),
{
    if evs.len() == 0 || orch_done(s) || !orch_accepts(s, evs[0]) {
        s
    } else {
        orch_run_state(orch_next(s, evs[0]).0, evs.drop_first())
    }
}

fn info_print_effects(items: &Vec<String>) -> (r: Vec<Effect>)
    ensures
        trace_of(r) == info_prints(items.deep_view()),
{
    let mut effs: Vec<Effect> = Vec::new();
    let mut i: usize = 0;
    while i < items.len()
        invariant
            i <= items@.len(),
            trace_of(effs) == info_prints(items.deep_view().take(i as int)),
        decreases items@.len() - i,
    {
        let line = info_line(items[i].as_str());
        let ghost pre_effs = effs@;
        effs.push(Effect::Print { line });
        proof {
            let dv = items.deep_view();
            let pre = dv.take(i as int);
            let cur = dv.take(i + 1);
            assert(effs@ == pre_effs.push(Effect::Print { line }));
            assert(seq_trace(pre_effs).len() == pre_effs.len());
            assert(info_prints(pre).len() == pre.len());
            assert(pre_effs.len() == i);
            assert(effs@.len() == i + 1);
            assert(trace_of(effs).len() == i + 1);
            assert(cur.len() == i + 1);
            assert forall|j: int| 0 <= j < i + 1 implies trace_of(effs)[j] == info_prints(cur)[j] by {
                assert(cur[j] == dv[j]);
                assert(dv[j] == items@[j]@);
                assert(info_prints(cur)[j] == (EffectModel::Print { line: info_line_model(dv[j]) }));
                assert(trace_of(effs)[j] == effs@[j]@);
                if j < i {
                    assert(effs@[j] == pre_effs[j]);
                    assert(seq_trace(pre_effs)[j] == pre_effs[j]@);
                    assert(seq_trace(pre_effs)[j] == info_prints(pre)[j]);
                    assert(info_prints(pre)[j] == (EffectModel::Print {
                        line: info_line_model(pre[j]),
                    }));
                    assert(pre[j] == dv[j]);
                } else {
                    assert(effs@[j] == (Effect::Print { line }));
                }
            }
            assert(trace_of(effs) =~= info_prints(cur));
        }
        i += 1;
    }
    proof {
        assert(items.deep_view().take(i as int) =~= items.deep_view());
    }
    effs
}

fn listing_print_effects(entries: &Vec<RemoteEntry>) -> (r: Vec<Effect>)
    ensures
        trace_of(r) == listing_prints(entries.deep_view()),
{
    let mut effs: Vec<Effect> = Vec::new();
    let mut i: usize = 0;
    while i < entries.len()
        invariant
            i <= entries@.len(),
            trace_of(effs) == listing_prints(entries.deep_view().take(i as int)),
        decreases entries@.len() - i,
    {
        let line = entry_line(&entries[i]);
        let ghost pre_effs = effs@;
        effs.push(Effect::Print { line });
        proof {
            let dv = entries.deep_view();
            let pre = dv.take(i as int);
            let cur = dv.take(i + 1);
            assert(effs@ == pre_effs.push(Effect::Print { line }));
            assert(seq_trace(pre_effs).len() == pre_effs.len());
            assert(listing_prints(pre).len() == pre.len());
            assert(pre_effs.len() == i);
            assert(effs@.len() == i + 1);
            assert(trace_of(effs).len() == i + 1);
            assert(cur.len() == i + 1);
            assert forall|j: int| 0 <= j < i + 1 implies trace_of(effs)[j] == listing_prints(
                cur,
            )[j] by {
                assert(cur[j] == dv[j]);
                assert(dv[j] == entries@[j]@);
                assert(listing_prints(cur)[j] == (EffectModel::Print {
                    line: entry_line_model(dv[j]),
                }));
                assert(trace_of(effs)[j] == effs@[j]@);
                if j < i {
                    assert(effs@[j] == pre_effs[j]);
                    assert(seq_trace(pre_effs)[j] == pre_effs[j]@);
                    assert(seq_trace(pre_effs)[j] == listing_prints(pre)[j]);
                    assert(listing_prints(pre)[j] == (EffectModel::Print {
                        line: entry_line_model(pre[j]),
                    }));
                    assert(pre[j] == dv[j]);
                } else {
                    assert(effs@[j] == (Effect::Print { line }));
                }
            }
            assert(trace_of(effs) =~= listing_prints(cur));
        }
        i += 1;
    }
    proof {
        assert(entries.deep_view().take(i as int) =~= entries.deep_view());
    }
    effs
}

fn removal_effects(f: &String) -> (r: Vec<Effect>)
    ensures
        trace_of(r) == removal_effects_model(f@),
{
    let line = removal_line(f.as_str());
    let effs = vec![Effect::Print { line }, Effect::RemoveFile { path: f.clone() }];
    proof {
        assert(trace_of(effs) =~= removal_effects_model(f@));
    }
    effs
}

/// The zero-filled buffer of exactly `len` bytes handed to the memory read;
/// a zero length is legal and yields an empty buffer.
pub fn zero_buffer(len: u32) -> (r: Vec<u8>)
    ensures
        r@ == Seq::new(len as nat, |i: int| 0u8),
{
    let mut v: Vec<u8> = Vec::new();
    let mut i: u32 = 0;
    while i < len
        invariant
            i <= len,
            v@ == Seq::new(i as nat, |j: int| 0u8),
        decreases len - i,
    {
        v.push(0u8);
        proof {
            assert(v@ =~= Seq::new((i + 1) as nat, |j: int| 0u8));
        }
        i += 1;
    }
    v
}

impl Orchestrator {
    /// Start a command.  The driver performs the returned effects in order,
    /// then reports the outcome of the last fallible one through
    /// [`Orchestrator::step`].
    pub fn begin(cmd: Command) -> (r: (Orchestrator, Vec<Effect>))
        ensures
            r.0@ == command_begin(cmd@).0,
            trace_of(r.1) == command_begin(cmd@).1,
            orch_wf(r.0@),
    {
        let ghost c = cmd@;
        match cmd {
            Command::Info => {
                let effs = vec![Effect::GetInfo];
                proof {
                    assert(trace_of(effs) =~= command_begin(c).1);
                }
                (Orchestrator::AwaitInfo, effs)
            },
            Command::Ls { path } => {
                let p = match path {
                    Some(p) => p,
                    None => String::new(),
                };
                let effs = vec![Effect::ListFiles { path: p }];
                proof {
                    assert(trace_of(effs) =~= command_begin(c).1);
                }
                (Orchestrator::AwaitList, effs)
            },
            Command::Put { dest_dir, files } => {
                if files.len() == 0 {
                    (Orchestrator::Finished { outcome: Ok(()) }, Vec::new())
                } else {
                    let first = files[0].clone();
                    let effs = vec![Effect::ReadLocal { path: first }];
                    proof {
                        assert(files.deep_view()[0] == files@[0]@);
                        assert(trace_of(effs) =~= command_begin(c).1);
                    }
                    (
                        Orchestrator::Uploading {
                            dest_dir,
                            files,
                            next: 0,
                            phase: UploadPhase::AwaitRead,
                        },
                        effs,
                    )
                }
            },
            Command::Rm { files } => {
                if files.len() == 0 {
                    (Orchestrator::Finished { outcome: Ok(()) }, Vec::new())
                } else {
                    let effs = removal_effects(&files[0]);
                    proof {
                        assert(files.deep_view()[0] == files@[0]@);
                    }
                    (Orchestrator::Removing { files, next: 0 }, effs)
                }
            },
            Command::Read { addr, len } => {
                let effs = vec![Effect::ReadMemory { addr, len }];
                proof {
                    assert(trace_of(effs) =~= command_begin(c).1);
                }
                (Orchestrator::AwaitMemory, effs)
            },
        }
    }

    /// Advance the machine by one observed outcome, yielding the next state
    /// and the effects to perform before the next event is due.
    pub fn step(self, event: CommandEvent) -> (r: (Orchestrator, Vec<Effect>))
        requires
            orch_wf(self@),
            orch_accepts(self@, event@),
        ensures
            r.0@ == orch_next(self@, event@).0,
            trace_of(r.1) == orch_next(self@, event@).1,
            orch_wf(r.0@),
    {
        let ghost s = self@;
        let ghost e = event@;
        match (self, event) {
            (Orchestrator::AwaitInfo, CommandEvent::InfoOk { items }) => {
                let effs = info_print_effects(&items);
                (Orchestrator::Finished { outcome: Ok(()) }, effs)
            },
            (Orchestrator::AwaitInfo, CommandEvent::InfoErr) => (
                Orchestrator::Finished {
                    outcome: Err(CommandError::CallFailed { call: CallKind::GetInfo }),
                },
                Vec::new(),
            ),
            (Orchestrator::AwaitList, CommandEvent::ListOk { entries }) => {
                let effs = listing_print_effects(&entries);
                (Orchestrator::Finished { outcome: Ok(()) }, effs)
            },
            (Orchestrator::AwaitList, CommandEvent::ListErr) => (
                Orchestrator::Finished {
                    outcome: Err(CommandError::CallFailed { call: CallKind::ListFiles }),
                },
                Vec::new(),
            ),
            (Orchestrator::Uploading { dest_dir, files, next, phase }, ev) => match (phase, ev) {
                (UploadPhase::AwaitRead, CommandEvent::FileOk { bytes }) => {
                    let local = files[next].clone();
                    match base_name(local.as_str()) {
                        None => (
                            Orchestrator::Finished {
                                outcome: Err(CommandError::InvalidFileName { path: local }),
                            },
                            Vec::new(),
                        ),
                        Some(base) => {
                            let remote = remote_name(&dest_dir, base.as_str());
                            let line = progress_line(local.as_str(), remote.as_str());
                            let effs = vec![
                                Effect::Print { line },
                                Effect::PutFile { path: remote, bytes },
                            ];
                            proof {
                                assert(files.deep_view()[next as int] == files@[next as int]@);
                                assert(trace_of(effs) =~= orch_next(s, e).1);
                            }
                            (
                                Orchestrator::Uploading {
                                    dest_dir,
                                    files,
                                    next,
                                    phase: UploadPhase::AwaitPut,
                                },
                                effs,
                            )
                        },
                    }
                },
                (UploadPhase::AwaitRead, CommandEvent::FileErr) => (
                    Orchestrator::Finished {
                        outcome: Err(CommandError::LocalReadFailed {
                            path: files[next].clone(),
                        }),
                    },
                    Vec::new(),
                ),
                (UploadPhase::AwaitPut, CommandEvent::PutOk) => {
                    let effs = vec![Effect::ListFiles { path: String::new() }];
                    proof {
                        assert(trace_of(effs) =~= orch_next(s, e).1);
                    }
                    (
                        Orchestrator::Uploading {
                            dest_dir,
                            files,
                            next,
                            phase: UploadPhase::AwaitBarrier,
                        },
                        effs,
                    )
                },
                (UploadPhase::AwaitPut, CommandEvent::PutErr) => (
                    Orchestrator::Finished {
                        outcome: Err(CommandError::CallFailed { call: CallKind::PutFile }),
                    },
                    Vec::new(),
                ),
                (UploadPhase::AwaitBarrier, CommandEvent::ListOk { .. }) => {
                    let n = files.len();
                    proof {
                        assert(files.deep_view().len() == files@.len());
                        assert(next < n);
                    }
                    if next + 1 == n {
                        (Orchestrator::Finished { outcome: Ok(()) }, Vec::new())
                    } else {
                        let following = files[next + 1].clone();
                        let effs = vec![Effect::ReadLocal { path: following }];
                        proof {
                            assert(files.deep_view()[next + 1] == files@[next + 1]@);
                            assert(trace_of(effs) =~= orch_next(s, e).1);
                        }
                        (
                            Orchestrator::Uploading {
                                dest_dir,
                                files,
                                next: next + 1,
                                phase: UploadPhase::AwaitRead,
                            },
                            effs,
                        )
                    }
                },
                (UploadPhase::AwaitBarrier, CommandEvent::ListErr) => (
                    Orchestrator::Finished {
                        outcome: Err(CommandError::CallFailed { call: CallKind::ListFiles }),
                    },
                    Vec::new(),
                ),
                _ => {
                    proof {
                        assert(false);
                    }
                    (Orchestrator::AwaitInfo, Vec::new())
                },
            },
            (Orchestrator::Removing { files, next }, CommandEvent::RemoveOk) => {
                let n = files.len();
                proof {
                    assert(files.deep_view().len() == files@.len());
                    assert(next < n);
                }
                if next + 1 == n {
                    (Orchestrator::Finished { outcome: Ok(()) }, Vec::new())
                } else {
                    let effs = removal_effects(&files[next + 1]);
                    proof {
                        assert(files.deep_view()[next + 1] == files@[next + 1]@);
                    }
                    (Orchestrator::Removing { files, next: next + 1 }, effs)
                }
            },
            (Orchestrator::Removing { .. }, CommandEvent::RemoveErr) => (
                Orchestrator::Finished {
                    outcome: Err(CommandError::CallFailed { call: CallKind::RemoveFile }),
                },
                Vec::new(),
            ),
            (Orchestrator::AwaitMemory, CommandEvent::MemoryOk { bytes }) => {
                let line = bytes_line(&bytes);
                let effs = vec![Effect::Print { line }];
                proof {
                    assert(trace_of(effs) =~= orch_next(s, e).1);
                }
                (Orchestrator::Finished { outcome: Ok(()) }, effs)
            },
            (Orchestrator::AwaitMemory, CommandEvent::MemoryErr) => (
                Orchestrator::Finished {
                    outcome: Err(CommandError::CallFailed { call: CallKind::ReadMemory }),
                },
                Vec::new(),
            ),
            _ => {
                proof {
                    assert(false);
                }
                (Orchestrator::AwaitInfo, Vec::new())
            },
        }
    }
}

} // verus!
