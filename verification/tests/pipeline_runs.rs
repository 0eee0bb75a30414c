use void_mod_manager::install::InstallTarget;
use void_mod_manager::pipeline::{
    start, step, Notification, PipelineAction, PipelineEvent, PipelineState, StepResult,
};
use void_mod_manager::resolver::resolve_download_url;
use void_mod_manager::ModManagerError;

fn make_zip(files: &[(&str, &[u8])]) -> Vec<u8> {
    let mut buf = std::io::Cursor::new(Vec::new());
    let mut zw = zip::ZipWriter::new(&mut buf);
    let opts = zip::write::SimpleFileOptions::default();
    for (name, data) in files {
        zw.start_file(*name, opts).unwrap();
        std::io::Write::write_all(&mut zw, data).unwrap();
    }
    zw.finish().unwrap();
    buf.into_inner()
}

struct Trace {
    state: PipelineState,
    actions: Vec<PipelineAction>,
    notes: Vec<Notification>,
}

fn drive(mod_id: u32, events: Vec<PipelineEvent>) -> Trace {
    let (mut state, first) = start(mod_id);
    let mut actions = vec![first];
    let mut notes = Vec::new();
    for e in events {
        let StepResult { state: s, action, notes: n } = step(state, e);
        state = s;
        if let Some(a) = action {
            actions.push(a);
        }
        notes.extend(n);
    }
    Trace { state, actions, notes }
}

const DETAIL_WITH_URL: &str =
    "{\"name\":\"pack\",\"download\":{\"download_url\":\"https://example/files/pack.zip\"}}";
const DETAIL_WITHOUT_URL: &str = "{\"name\":\"pack\",\"download\":{\"download_url\":null}}";

#[test]
fn resolver_reads_the_download_url() {
    let r = resolve_download_url(DETAIL_WITH_URL).unwrap();
    assert_eq!(r.unwrap(), "https://example/files/pack.zip");
}

#[test]
fn resolver_accepts_a_missing_url_as_no_download() {
    assert!(resolve_download_url(DETAIL_WITHOUT_URL).unwrap().is_none());
    assert!(resolve_download_url("{\"name\":\"pack\"}").unwrap().is_none());
}

#[test]
fn resolver_rejects_malformed_bodies() {
    let err = resolve_download_url("not json at all").unwrap_err();
    assert!(matches!(err, ModManagerError::ParseError(_)));
}

#[test]
fn complete_run_installs_and_reports_each_milestone() {
    let bytes = make_zip(&[
        ("ModPack/mod.txt", b"marker"),
        ("ModPack/data.bin", b"\xde\xad"),
    ]);
    let t = drive(
        42,
        vec![
            PipelineEvent::DetailResponse(Ok(DETAIL_WITH_URL.to_string())),
            PipelineEvent::FetchResponse(Ok(bytes)),
            PipelineEvent::StagingWritten(Ok(())),
            PipelineEvent::ScratchWritten(Ok(())),
            PipelineEvent::Proceed,
            PipelineEvent::CopyFinished(Ok(())),
            PipelineEvent::ScratchRemoved(Ok(())),
        ],
    );
    assert!(matches!(t.state, PipelineState::Completed { mod_id: 42 }));
    assert_eq!(
        t.notes,
        vec![
            Notification::Started,
            Notification::Writing,
            Notification::FinishingUp,
            Notification::Done,
        ]
    );
    // The staging file is named from the mod id and the URL's extension.
    let staging = t.actions.iter().find_map(|a| match a {
        PipelineAction::WriteStaging { file_name, .. } => Some(file_name.clone()),
        _ => None,
    });
    assert_eq!(staging.unwrap(), "42.zip");
    // The copy goes under the mods root, into a directory named after the
    // marker's parent, with the original bytes.
    let copy = t.actions.iter().find_map(|a| match a {
        PipelineAction::CopyTree { target, dest_name, files, .. } => {
            let contents: Vec<(Vec<String>, Vec<u8>)> = files
                .iter()
                .map(|f| (f.path.parts.clone(), f.data.clone()))
                .collect();
            Some((*target, dest_name.clone(), contents))
        }
        _ => None,
    });
    let (target, dest_name, contents) = copy.unwrap();
    assert!(matches!(target, InstallTarget::ModsRoot));
    assert_eq!(dest_name, "ModPack");
    assert_eq!(
        contents,
        vec![
            (
                vec!["ModPack".to_string(), "mod.txt".to_string()],
                b"marker".to_vec()
            ),
            (
                vec!["ModPack".to_string(), "data.bin".to_string()],
                vec![0xde, 0xad]
            ),
        ]
    );
    // The scratch subtree for this id is removed at the end.
    let removed = t.actions.iter().any(|a| {
        matches!(a, PipelineAction::RemoveScratchDir { mod_dir, .. } if mod_dir == "42")
    });
    assert!(removed);
}

#[test]
fn no_download_url_ends_quietly_with_no_writes() {
    let t = drive(
        5,
        vec![PipelineEvent::DetailResponse(Ok(
            DETAIL_WITHOUT_URL.to_string()
        ))],
    );
    assert!(matches!(t.state, PipelineState::NoDownloadAvailable { mod_id: 5 }));
    assert!(t.notes.is_empty());
    for a in &t.actions {
        assert!(matches!(a, PipelineAction::ResolveDetail { .. }));
    }
}

#[test]
fn unsupported_extension_signals_and_leaves_no_scratch() {
    let detail =
        "{\"download\":{\"download_url\":\"https://example/files/pack.rar\"}}";
    let t = drive(
        6,
        vec![
            PipelineEvent::DetailResponse(Ok(detail.to_string())),
            PipelineEvent::FetchResponse(Ok(vec![1, 2, 3])),
            PipelineEvent::StagingWritten(Ok(())),
        ],
    );
    assert!(matches!(t.state, PipelineState::UnsupportedFormat { .. }));
    assert_eq!(
        t.notes,
        vec![
            Notification::Started,
            Notification::Writing,
            Notification::FinishingUp,
            Notification::UnzipUnsupported,
            Notification::Done,
        ]
    );
    for a in &t.actions {
        assert!(!matches!(
            a,
            PipelineAction::WriteScratch { .. }
                | PipelineAction::CopyTree { .. }
                | PipelineAction::RemoveScratchDir { .. }
        ));
    }
}

#[test]
fn unrecognized_layout_installs_nothing() {
    let bytes = make_zip(&[("Foo/readme.md", b"hi")]);
    let t = drive(
        7,
        vec![
            PipelineEvent::DetailResponse(Ok(DETAIL_WITH_URL.to_string())),
            PipelineEvent::FetchResponse(Ok(bytes)),
            PipelineEvent::StagingWritten(Ok(())),
            PipelineEvent::ScratchWritten(Ok(())),
            PipelineEvent::Proceed,
        ],
    );
    assert!(matches!(t.state, PipelineState::UnrecognizedLayout { mod_id: 7 }));
    assert_eq!(t.notes.last(), Some(&Notification::Done));
    for a in &t.actions {
        assert!(!matches!(
            a,
            PipelineAction::CopyTree { .. } | PipelineAction::RemoveScratchDir { .. }
        ));
    }
}

#[test]
fn network_failure_while_resolving_fails_loudly() {
    let t = drive(
        8,
        vec![PipelineEvent::DetailResponse(Err(
            "host unreachable".to_string()
        ))],
    );
    match &t.state {
        PipelineState::Failed { error, .. } => {
            assert!(matches!(error, ModManagerError::NetworkError(_)));
        }
        _ => panic!("expected a failed run"),
    }
    assert_eq!(t.notes.last(), Some(&Notification::ErrorSignal));
}

#[test]
fn malformed_detail_response_is_a_parse_failure() {
    let t = drive(
        9,
        vec![PipelineEvent::DetailResponse(Ok("[not, detail".to_string()))],
    );
    match &t.state {
        PipelineState::Failed { error, .. } => {
            assert!(matches!(error, ModManagerError::ParseError(_)));
        }
        _ => panic!("expected a failed run"),
    }
}

#[test]
fn unreadable_archive_fails_after_finishing_note() {
    let t = drive(
        10,
        vec![
            PipelineEvent::DetailResponse(Ok(DETAIL_WITH_URL.to_string())),
            PipelineEvent::FetchResponse(Ok(vec![0, 1, 2])),
            PipelineEvent::StagingWritten(Ok(())),
        ],
    );
    match &t.state {
        PipelineState::Failed { error, .. } => {
            assert!(matches!(error, ModManagerError::FileSystemError(_)));
        }
        _ => panic!("expected a failed run"),
    }
    assert_eq!(
        t.notes,
        vec![
            Notification::Started,
            Notification::Writing,
            Notification::FinishingUp,
            Notification::ErrorSignal,
        ]
    );
}

#[test]
fn failed_copy_never_removes_the_scratch_tree() {
    let bytes = make_zip(&[("ModPack/mod.txt", b"m")]);
    let t = drive(
        11,
        vec![
            PipelineEvent::DetailResponse(Ok(DETAIL_WITH_URL.to_string())),
            PipelineEvent::FetchResponse(Ok(bytes)),
            PipelineEvent::StagingWritten(Ok(())),
            PipelineEvent::ScratchWritten(Ok(())),
            PipelineEvent::Proceed,
            PipelineEvent::CopyFinished(Err("device gone".to_string())),
        ],
    );
    assert!(matches!(t.state, PipelineState::Failed { .. }));
    assert!(!t
        .actions
        .iter()
        .any(|a| matches!(a, PipelineAction::RemoveScratchDir { .. })));
    assert_eq!(t.notes.last(), Some(&Notification::ErrorSignal));
}

#[test]
fn scratch_removal_comes_only_after_copy_success() {
    let bytes = make_zip(&[("ModPack/mod.txt", b"m")]);
    let t = drive(
        12,
        vec![
            PipelineEvent::DetailResponse(Ok(DETAIL_WITH_URL.to_string())),
            PipelineEvent::FetchResponse(Ok(bytes)),
            PipelineEvent::StagingWritten(Ok(())),
            PipelineEvent::ScratchWritten(Ok(())),
            PipelineEvent::Proceed,
            PipelineEvent::CopyFinished(Ok(())),
        ],
    );
    // The copy succeeded, the removal was requested, and the run now
    // waits for its confirmation.
    assert!(matches!(
        t.state,
        PipelineState::Installing { copied: true, .. }
    ));
    assert!(t
        .actions
        .iter()
        .any(|a| matches!(a, PipelineAction::RemoveScratchDir { .. })));
}

#[test]
fn mismatched_events_change_nothing() {
    let t = drive(
        13,
        vec![
            PipelineEvent::CopyFinished(Ok(())),
            PipelineEvent::Proceed,
            PipelineEvent::ScratchRemoved(Ok(())),
        ],
    );
    assert!(matches!(t.state, PipelineState::Resolving { mod_id: 13 }));
    assert_eq!(t.actions.len(), 1);
    assert!(t.notes.is_empty());
}
