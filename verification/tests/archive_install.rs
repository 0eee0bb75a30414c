use void_mod_manager::archive::FileEntry;
use void_mod_manager::install::{InstallTarget, UnzipOutcome};
use void_mod_manager::paths::sanitize_entry_name;
use void_mod_manager::{copy_all_cross_device, unzip_mod};

fn make_zip(files: &[(&str, &[u8])], dirs: &[&str]) -> Vec<u8> {
    let mut buf = std::io::Cursor::new(Vec::new());
    let mut zw = zip::ZipWriter::new(&mut buf);
    let opts = zip::write::SimpleFileOptions::default();
    for d in dirs {
        zw.add_directory(*d, opts).unwrap();
    }
    for (name, data) in files {
        zw.start_file(*name, opts).unwrap();
        std::io::Write::write_all(&mut zw, data).unwrap();
    }
    zw.finish().unwrap();
    buf.into_inner()
}

fn path_strings(p: &void_mod_manager::paths::RelPath) -> Vec<String> {
    p.parts.clone()
}

#[test]
fn package_marker_installs_under_mods_root() {
    let bytes = make_zip(
        &[
            ("ModPack/mod.txt", b"marker"),
            ("ModPack/data.bin", b"\x01\x02\x03"),
        ],
        &[],
    );
    let outcome = unzip_mod(&bytes, 42).unwrap();
    match outcome {
        UnzipOutcome::Installed { extraction, plan } => {
            assert_eq!(extraction.files.len(), 2);
            assert!(extraction.override_marker_dir.is_none());
            assert_eq!(
                path_strings(extraction.package_marker_dir.as_ref().unwrap()),
                vec!["ModPack".to_string()]
            );
            assert!(matches!(plan.target, InstallTarget::ModsRoot));
            assert_eq!(plan.dest_name, "ModPack");
            let got: Vec<(Vec<String>, Vec<u8>)> = plan
                .files
                .iter()
                .map(|f| (path_strings(&f.path), f.data.clone()))
                .collect();
            assert_eq!(
                got,
                vec![
                    (
                        vec!["ModPack".to_string(), "mod.txt".to_string()],
                        b"marker".to_vec()
                    ),
                    (
                        vec!["ModPack".to_string(), "data.bin".to_string()],
                        vec![1, 2, 3]
                    ),
                ]
            );
            assert_eq!(path_strings(&plan.source_dir), vec!["ModPack".to_string()]);
        }
        UnzipOutcome::UnrecognizedLayout { .. } => panic!("expected an install plan"),
    }
}

#[test]
fn override_marker_installs_under_overrides_root() {
    let bytes = make_zip(
        &[
            ("Skins/main.xml", b"<xml/>"),
            ("Skins/tex.dds", b"pixels"),
        ],
        &[],
    );
    let outcome = unzip_mod(&bytes, 7).unwrap();
    match outcome {
        UnzipOutcome::Installed { extraction, plan } => {
            assert_eq!(
                path_strings(extraction.override_marker_dir.as_ref().unwrap()),
                vec!["Skins".to_string()]
            );
            assert!(matches!(plan.target, InstallTarget::OverridesRoot));
            assert_eq!(plan.dest_name, "Skins");
        }
        UnzipOutcome::UnrecognizedLayout { .. } => panic!("expected an install plan"),
    }
}

#[test]
fn override_marker_wins_over_package_marker() {
    let bytes = make_zip(
        &[
            ("Pack/mod.txt", b"m"),
            ("Skins/main.xml", b"<xml/>"),
        ],
        &[],
    );
    let outcome = unzip_mod(&bytes, 7).unwrap();
    match outcome {
        UnzipOutcome::Installed { plan, .. } => {
            assert!(matches!(plan.target, InstallTarget::OverridesRoot));
            assert_eq!(plan.dest_name, "Skins");
        }
        UnzipOutcome::UnrecognizedLayout { .. } => panic!("expected an install plan"),
    }
}

#[test]
fn first_seen_marker_of_each_kind_is_kept() {
    let bytes = make_zip(
        &[
            ("First/mod.txt", b"a"),
            ("Second/mod.txt", b"b"),
        ],
        &[],
    );
    let outcome = unzip_mod(&bytes, 7).unwrap();
    match outcome {
        UnzipOutcome::Installed { plan, .. } => {
            assert_eq!(plan.dest_name, "First");
        }
        UnzipOutcome::UnrecognizedLayout { .. } => panic!("expected an install plan"),
    }
}

#[test]
fn no_marker_is_an_unrecognized_layout() {
    let bytes = make_zip(&[("Foo/readme.md", b"hi")], &[]);
    let outcome = unzip_mod(&bytes, 7).unwrap();
    match outcome {
        UnzipOutcome::Installed { .. } => panic!("nothing should be installed"),
        UnzipOutcome::UnrecognizedLayout { extraction } => {
            assert_eq!(extraction.files.len(), 1);
            assert!(extraction.override_marker_dir.is_none());
            assert!(extraction.package_marker_dir.is_none());
        }
    }
}

#[test]
fn escaping_entries_are_skipped_not_written() {
    let bytes = make_zip(
        &[
            ("../evil.txt", b"nope"),
            ("Pack/mod.txt", b"m"),
        ],
        &[],
    );
    let outcome = unzip_mod(&bytes, 7).unwrap();
    match outcome {
        UnzipOutcome::Installed { extraction, .. } => {
            // Only the safe entry survives extraction.
            assert_eq!(extraction.files.len(), 1);
            assert_eq!(
                path_strings(&extraction.files[0].path),
                vec!["Pack".to_string(), "mod.txt".to_string()]
            );
        }
        UnzipOutcome::UnrecognizedLayout { .. } => panic!("expected an install plan"),
    }
}

#[test]
fn marker_at_archive_root_installs_under_mod_id() {
    let bytes = make_zip(&[("mod.txt", b"m"), ("data.bin", b"d")], &[]);
    let outcome = unzip_mod(&bytes, 42).unwrap();
    match outcome {
        UnzipOutcome::Installed { plan, .. } => {
            // The marker's parent is the scratch root itself, which is
            // named after the mod id.
            assert_eq!(plan.dest_name, "42");
            let got: Vec<Vec<String>> =
                plan.files.iter().map(|f| path_strings(&f.path)).collect();
            assert_eq!(
                got,
                vec![
                    vec!["42".to_string(), "mod.txt".to_string()],
                    vec!["42".to_string(), "data.bin".to_string()],
                ]
            );
        }
        UnzipOutcome::UnrecognizedLayout { .. } => panic!("expected an install plan"),
    }
}

#[test]
fn directories_below_the_marker_parent_are_copied() {
    let bytes = make_zip(
        &[("Pack/mod.txt", b"m")],
        &["Pack/empty", "Elsewhere/ignored"],
    );
    let outcome = unzip_mod(&bytes, 7).unwrap();
    match outcome {
        UnzipOutcome::Installed { plan, .. } => {
            let got: Vec<Vec<String>> = plan.dirs.iter().map(path_strings).collect();
            assert_eq!(got, vec![vec!["Pack".to_string(), "empty".to_string()]]);
        }
        UnzipOutcome::UnrecognizedLayout { .. } => panic!("expected an install plan"),
    }
}

#[test]
fn empty_archive_is_an_unrecognized_layout() {
    let bytes = make_zip(&[], &[]);
    let outcome = unzip_mod(&bytes, 7).unwrap();
    match outcome {
        UnzipOutcome::Installed { .. } => panic!("nothing should be installed"),
        UnzipOutcome::UnrecognizedLayout { extraction } => {
            assert!(extraction.files.is_empty());
            assert!(extraction.dirs.is_empty());
        }
    }
}

#[test]
fn unreadable_bytes_are_a_filesystem_error() {
    let bytes = vec![1u8, 2, 3, 4];
    let err = unzip_mod(&bytes, 7).unwrap_err();
    assert!(matches!(
        err,
        void_mod_manager::ModManagerError::FileSystemError(_)
    ));
}

#[test]
fn unzipping_twice_gives_the_same_plan() {
    // Nothing records prior installs, so a second run of the same mod id
    // computes exactly the same copy set and overwrites deterministically
    // rather than producing two divergent trees.
    let bytes = make_zip(&[("Pack/mod.txt", b"m"), ("Pack/a.bin", b"a")], &[]);
    let first = unzip_mod(&bytes, 42).unwrap();
    let second = unzip_mod(&bytes, 42).unwrap();
    match (first, second) {
        (
            UnzipOutcome::Installed { plan: p1, .. },
            UnzipOutcome::Installed { plan: p2, .. },
        ) => {
            assert_eq!(p1.dest_name, p2.dest_name);
            let f1: Vec<(Vec<String>, Vec<u8>)> = p1
                .files
                .iter()
                .map(|f| (path_strings(&f.path), f.data.clone()))
                .collect();
            let f2: Vec<(Vec<String>, Vec<u8>)> = p2
                .files
                .iter()
                .map(|f| (path_strings(&f.path), f.data.clone()))
                .collect();
            assert_eq!(f1, f2);
        }
        _ => panic!("expected install plans"),
    }
}

#[test]
fn cross_device_copy_preserves_content() {
    let files = vec![
        FileEntry {
            path: sanitize_entry_name("Pack/a.txt").unwrap(),
            data: b"alpha".to_vec(),
        },
        FileEntry {
            path: sanitize_entry_name("Pack/sub/b.txt").unwrap(),
            data: b"beta".to_vec(),
        },
        FileEntry {
            path: sanitize_entry_name("Other/c.txt").unwrap(),
            data: b"gamma".to_vec(),
        },
    ];
    let dirs = vec![sanitize_entry_name("Pack/sub").unwrap()];
    let source = sanitize_entry_name("Pack").unwrap();
    let (out_files, out_dirs) =
        copy_all_cross_device(&files, &dirs, &source, &"Dest".to_string());
    let got: Vec<(Vec<String>, Vec<u8>)> = out_files
        .iter()
        .map(|f| (path_strings(&f.path), f.data.clone()))
        .collect();
    assert_eq!(
        got,
        vec![
            (
                vec!["Dest".to_string(), "a.txt".to_string()],
                b"alpha".to_vec()
            ),
            (
                vec!["Dest".to_string(), "sub".to_string(), "b.txt".to_string()],
                b"beta".to_vec()
            ),
        ]
    );
    let gd: Vec<Vec<String>> = out_dirs.iter().map(path_strings).collect();
    assert_eq!(gd, vec![vec!["Dest".to_string(), "sub".to_string()]]);
}
