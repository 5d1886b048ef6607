use snescli::entry::{EntryKind, RemoteEntry};
use snescli::errors::{CallKind, CommandError};
use snescli::orchestrate::{zero_buffer, Command, CommandEvent, Effect, Orchestrator};

fn finished_ok(st: &Orchestrator) -> bool {
    matches!(st, Orchestrator::Finished { outcome: Ok(()) })
}

#[test]
fn info_prints_each_item_bulleted() {
    let (st, effs) = Orchestrator::begin(Command::Info);
    assert_eq!(effs, vec![Effect::GetInfo]);
    let items = vec!["1.10.3".to_string(), "sd2snes".to_string()];
    let (st, effs) = st.step(CommandEvent::InfoOk { items });
    assert!(finished_ok(&st));
    assert_eq!(
        effs,
        vec![
            Effect::Print { line: " * 1.10.3".to_string() },
            Effect::Print { line: " * sd2snes".to_string() },
        ]
    );
}

#[test]
fn info_failure_is_reported() {
    let (st, _) = Orchestrator::begin(Command::Info);
    let (st, effs) = st.step(CommandEvent::InfoErr);
    assert_eq!(
        st,
        Orchestrator::Finished {
            outcome: Err(CommandError::CallFailed { call: CallKind::GetInfo }),
        }
    );
    assert!(effs.is_empty());
}

#[test]
fn ls_default_path_is_empty() {
    let (_, effs) = Orchestrator::begin(Command::Ls { path: None });
    assert_eq!(effs, vec![Effect::ListFiles { path: "".to_string() }]);
}

#[test]
fn ls_explicit_path_is_kept() {
    let (_, effs) = Orchestrator::begin(Command::Ls { path: Some("roms".to_string()) });
    assert_eq!(effs, vec![Effect::ListFiles { path: "roms".to_string() }]);
}

#[test]
fn ls_marks_directories_only() {
    let (st, _) = Orchestrator::begin(Command::Ls { path: None });
    let entries = vec![
        RemoteEntry { name: "X".to_string(), kind: EntryKind::Directory },
        RemoteEntry { name: "Y".to_string(), kind: EntryKind::File },
    ];
    let (st, effs) = st.step(CommandEvent::ListOk { entries });
    assert!(finished_ok(&st));
    assert_eq!(
        effs,
        vec![
            Effect::Print { line: "X/".to_string() },
            Effect::Print { line: "Y".to_string() },
        ]
    );
}

#[test]
fn upload_single_file_with_barrier() {
    let cmd = Command::Put {
        dest_dir: Some("foo/".to_string()),
        files: vec!["bar.bin".to_string()],
    };
    let (st, effs) = Orchestrator::begin(cmd);
    assert_eq!(effs, vec![Effect::ReadLocal { path: "bar.bin".to_string() }]);
    let (st, effs) = st.step(CommandEvent::FileOk { bytes: vec![1, 2, 3] });
    assert_eq!(
        effs,
        vec![
            Effect::Print { line: "bar.bin -> foo/bar.bin".to_string() },
            Effect::PutFile { path: "foo/bar.bin".to_string(), bytes: vec![1, 2, 3] },
        ]
    );
    let (st, effs) = st.step(CommandEvent::PutOk);
    assert_eq!(effs, vec![Effect::ListFiles { path: "".to_string() }]);
    let (st, effs) = st.step(CommandEvent::ListOk { entries: vec![] });
    assert!(finished_ok(&st));
    assert!(effs.is_empty());
}

#[test]
fn upload_without_dest_dir_uses_base_name() {
    let cmd = Command::Put { dest_dir: None, files: vec!["/a/b/c.bin".to_string()] };
    let (st, _) = Orchestrator::begin(cmd);
    let (_, effs) = st.step(CommandEvent::FileOk { bytes: vec![9] });
    assert_eq!(
        effs,
        vec![
            Effect::Print { line: "/a/b/c.bin -> c.bin".to_string() },
            Effect::PutFile { path: "c.bin".to_string(), bytes: vec![9] },
        ]
    );
}

#[test]
fn upload_sequence_barriers_every_put() {
    let cmd = Command::Put {
        dest_dir: None,
        files: vec!["a.bin".to_string(), "b.bin".to_string()],
    };
    let mut trace: Vec<Effect> = Vec::new();
    let (mut st, mut effs) = Orchestrator::begin(cmd);
    let events = vec![
        CommandEvent::FileOk { bytes: vec![1] },
        CommandEvent::PutOk,
        CommandEvent::ListOk { entries: vec![] },
        CommandEvent::FileOk { bytes: vec![2] },
        CommandEvent::PutOk,
        CommandEvent::ListOk { entries: vec![] },
    ];
    for ev in events {
        trace.append(&mut effs);
        let (next, more) = st.step(ev);
        st = next;
        effs = more;
    }
    trace.append(&mut effs);
    assert!(finished_ok(&st));
    // every put is followed at once by the listing barrier on the empty path
    for (i, eff) in trace.iter().enumerate() {
        if matches!(eff, Effect::PutFile { .. }) {
            assert_eq!(trace[i + 1], Effect::ListFiles { path: "".to_string() });
        }
        if matches!(eff, Effect::ListFiles { .. }) {
            assert!(matches!(trace[i - 1], Effect::PutFile { .. }));
        }
    }
    assert_eq!(
        trace.iter().filter(|e| matches!(e, Effect::PutFile { .. })).count(),
        2
    );
    assert_eq!(
        trace.iter().filter(|e| matches!(e, Effect::ListFiles { .. })).count(),
        2
    );
}

#[test]
fn upload_read_failure_stops_batch() {
    let cmd = Command::Put {
        dest_dir: None,
        files: vec!["A".to_string(), "B".to_string(), "C".to_string()],
    };
    let mut trace: Vec<Effect> = Vec::new();
    let (st, mut effs) = Orchestrator::begin(cmd);
    trace.append(&mut effs);
    let (st, mut effs) = st.step(CommandEvent::FileOk { bytes: vec![1] });
    trace.append(&mut effs);
    let (st, mut effs) = st.step(CommandEvent::PutOk);
    trace.append(&mut effs);
    let (st, mut effs) = st.step(CommandEvent::ListOk { entries: vec![] });
    trace.append(&mut effs);
    let (st, mut effs) = st.step(CommandEvent::FileErr);
    trace.append(&mut effs);
    assert_eq!(
        st,
        Orchestrator::Finished {
            outcome: Err(CommandError::LocalReadFailed { path: "B".to_string() }),
        }
    );
    assert_eq!(
        trace,
        vec![
            Effect::ReadLocal { path: "A".to_string() },
            Effect::Print { line: "A -> A".to_string() },
            Effect::PutFile { path: "A".to_string(), bytes: vec![1] },
            Effect::ListFiles { path: "".to_string() },
            Effect::ReadLocal { path: "B".to_string() },
        ]
    );
}

#[test]
fn upload_rejects_nameless_path() {
    let cmd = Command::Put { dest_dir: None, files: vec!["/".to_string()] };
    let (st, _) = Orchestrator::begin(cmd);
    let (st, effs) = st.step(CommandEvent::FileOk { bytes: vec![] });
    assert_eq!(
        st,
        Orchestrator::Finished {
            outcome: Err(CommandError::InvalidFileName { path: "/".to_string() }),
        }
    );
    assert!(effs.is_empty());
}

#[test]
fn upload_put_failure_stops_batch() {
    let cmd = Command::Put {
        dest_dir: None,
        files: vec!["a.bin".to_string(), "b.bin".to_string()],
    };
    let (st, _) = Orchestrator::begin(cmd);
    let (st, _) = st.step(CommandEvent::FileOk { bytes: vec![1] });
    let (st, effs) = st.step(CommandEvent::PutErr);
    assert_eq!(
        st,
        Orchestrator::Finished {
            outcome: Err(CommandError::CallFailed { call: CallKind::PutFile }),
        }
    );
    assert!(effs.is_empty());
}

#[test]
fn upload_of_nothing_succeeds() {
    let (st, effs) = Orchestrator::begin(Command::Put { dest_dir: None, files: vec![] });
    assert!(finished_ok(&st));
    assert!(effs.is_empty());
}

#[test]
fn remove_announces_each_path() {
    let cmd = Command::Rm { files: vec!["x".to_string(), "y".to_string()] };
    let (st, effs) = Orchestrator::begin(cmd);
    assert_eq!(
        effs,
        vec![
            Effect::Print { line: "removing x".to_string() },
            Effect::RemoveFile { path: "x".to_string() },
        ]
    );
    let (st, effs) = st.step(CommandEvent::RemoveOk);
    assert_eq!(
        effs,
        vec![
            Effect::Print { line: "removing y".to_string() },
            Effect::RemoveFile { path: "y".to_string() },
        ]
    );
    let (st, effs) = st.step(CommandEvent::RemoveOk);
    assert!(finished_ok(&st));
    assert!(effs.is_empty());
}

#[test]
fn remove_failure_stops_batch() {
    let cmd = Command::Rm { files: vec!["x".to_string(), "y".to_string()] };
    let (st, _) = Orchestrator::begin(cmd);
    let (st, effs) = st.step(CommandEvent::RemoveErr);
    assert_eq!(
        st,
        Orchestrator::Finished {
            outcome: Err(CommandError::CallFailed { call: CallKind::RemoveFile }),
        }
    );
    assert!(effs.is_empty());
}

#[test]
fn remove_of_nothing_succeeds() {
    let (st, effs) = Orchestrator::begin(Command::Rm { files: vec![] });
    assert!(finished_ok(&st));
    assert!(effs.is_empty());
}

#[test]
fn read_memory_zero_length_still_calls() {
    let (st, effs) = Orchestrator::begin(Command::Read { addr: 0, len: 0 });
    assert_eq!(effs, vec![Effect::ReadMemory { addr: 0, len: 0 }]);
    assert_eq!(zero_buffer(0), Vec::<u8>::new());
    let (st, effs) = st.step(CommandEvent::MemoryOk { bytes: vec![] });
    assert!(finished_ok(&st));
    assert_eq!(effs, vec![Effect::Print { line: "[]".to_string() }]);
}

#[test]
fn read_memory_prints_buffer() {
    let (st, effs) = Orchestrator::begin(Command::Read { addr: 0xF50010, len: 3 });
    assert_eq!(effs, vec![Effect::ReadMemory { addr: 0xF50010, len: 3 }]);
    assert_eq!(zero_buffer(3), vec![0, 0, 0]);
    let (st, effs) = st.step(CommandEvent::MemoryOk { bytes: vec![0, 1, 255] });
    assert!(finished_ok(&st));
    assert_eq!(effs, vec![Effect::Print { line: "[0, 1, 255]".to_string() }]);
}

#[test]
fn read_memory_failure_is_reported() {
    let (st, _) = Orchestrator::begin(Command::Read { addr: 16, len: 4 });
    let (st, effs) = st.step(CommandEvent::MemoryErr);
    assert_eq!(
        st,
        Orchestrator::Finished {
            outcome: Err(CommandError::CallFailed { call: CallKind::ReadMemory }),
        }
    );
    assert!(effs.is_empty());
}
