use vstd::prelude::*;

verus! {

use crate::archive::{
    clone_bytes, extract_entries, extract_model, extraction_model_wf, read_zip_entries,
    views_of_files, views_of_paths, zip_entry_list, ExtractionModel, ExtractionResult, FileEntry,
};
use crate::errors::ModManagerError;
use crate::paths::{clone_string, is_prefix_of, path_wf, safe_component, RelPath};
use crate::text::{dec_str, is_digit, lemma_dec_str_digits, u32_to_string};

/// The two fixed installation roots a classified tree can go to. The
/// classifier chooses one; the mover never writes into both.
#[derive(Clone, Copy, PartialEq, Eq, Structural, Debug)]
pub enum InstallTarget {
    /// `<install>/mods`, for standard mod packages.
    ModsRoot,
    /// `<install>/assets/mod_overrides`, for override asset bundles.
    OverridesRoot,
}

/// The classification decision: override bundles win over standard
/// packages, in a fixed order, and an extraction with neither marker has no
/// destination.
pub open spec fn classify_spec(m: ExtractionModel) -> Option<(InstallTarget, Seq<Seq<char>>)> {
    if m.override_dir is Some {
        Some((InstallTarget::OverridesRoot, m.override_dir->0))
    } else if m.package_dir is Some {
        Some((InstallTarget::ModsRoot, m.package_dir->0))
    } else {
        None
    }
}

/// Decides the destination for an extracted tree: the override marker's
/// parent goes under the overrides root, else the package marker's parent
/// goes under the mods root, else there is no destination.
pub fn classify(x: &ExtractionResult) -> (r: Option<(InstallTarget, RelPath)>)
    ensures
        match r {
            Some(t) => classify_spec(x.model()) == Some((t.0, t.1@)),
            None => classify_spec(x.model()) is None,
        },
{
    match &x.override_marker_dir {
        Some(d) => Some((InstallTarget::OverridesRoot, d.duplicate())),
        None => match &x.package_marker_dir {
            Some(d) => Some((InstallTarget::ModsRoot, d.duplicate())),
            None => None,
        },
    }
}

/// The name of the directory created under the chosen root: the marker
/// parent's own name, or the mod id when the marker sits at the scratch
/// root itself.
pub open spec fn dest_name_spec(parent: Seq<Seq<char>>, mod_id: nat) -> Seq<char> {
    if parent.len() > 0 {
        parent.last()
    } else {
        dec_str(mod_id)
    }
}

/// Computes the destination directory name for a classified source.
pub fn dest_name(parent: &RelPath, mod_id: u32) -> (r: String)
    ensures
        r@ == dest_name_spec(parent@, mod_id as nat),
{
    match parent.last() {
        Some(s) => clone_string(s),
        None => u32_to_string(mod_id),
    }
}

/// `p` lies strictly below `parent`.
pub open spec fn strictly_under(parent: Seq<Seq<char>>, p: Seq<Seq<char>>) -> bool {
    is_prefix_of(parent, p) && p.len() > parent.len()
}

/// `p`, relocated from below `parent` to below a directory named `dest`.
pub open spec fn rebase_path(parent: Seq<Seq<char>>, dest: Seq<char>, p: Seq<Seq<char>>) -> Seq<
    Seq<char>,
> {
    seq![dest] + p.skip(parent.len() as int)
}

/// The files the mover writes at the destination: every source file
/// strictly below `parent`, in order, at its rebased path.
pub open spec fn rebase_files(
    files: Seq<(Seq<Seq<char>>, Seq<u8>)>,
    parent: Seq<Seq<char>>,
    dest: Seq<char>,
) -> Seq<(Seq<Seq<char>>, Seq<u8>)>
    decreases files.len(),
{
    if files.len() == 0 {
        Seq::empty()
    } else {
        let prev = rebase_files(files.drop_last(), parent, dest);
        let f = files.last();
        if strictly_under(parent, f.0) {
            prev.push((rebase_path(parent, dest, f.0), f.1))
        } else {
            prev
        }
    }
}

/// The directories the mover creates at the destination.
pub open spec fn rebase_dirs(
    dirs: Seq<Seq<Seq<char>>>,
    parent: Seq<Seq<char>>,
    dest: Seq<char>,
) -> Seq<Seq<Seq<char>>>
    decreases dirs.len(),
{
    if dirs.len() == 0 {
        Seq::empty()
    } else {
        let prev = rebase_dirs(dirs.drop_last(), parent, dest);
        let d = dirs.last();
        if strictly_under(parent, d) {
            prev.push(rebase_path(parent, dest, d))
        } else {
            prev
        }
    }
}

/// Computes the copy operations of a cross-device move: every file and
/// directory strictly below `source` reappears, byte for byte and in
/// order, below a destination directory named `dest_name`. The move is a
/// plain copy, so it works across filesystems where a rename cannot.
pub fn copy_all_cross_device(
    files: &Vec<FileEntry>,
    dirs: &Vec<RelPath>,
    source: &RelPath,
    dest_name: &String,
) -> (r: (Vec<FileEntry>, Vec<RelPath>))
    ensures
        views_of_files(r.0@) == rebase_files(views_of_files(files@), source@, dest_name@),
        views_of_paths(r.1@) == rebase_dirs(views_of_paths(dirs@), source@, dest_name@),
{
    let mut out_files: Vec<FileEntry> = Vec::new();
    let ghost fviews = views_of_files(files@);
    proof {
        assert(views_of_files(out_files@) =~= Seq::<(Seq<Seq<char>>, Seq<u8>)>::empty());
        assert(fviews.take(0) =~= Seq::<(Seq<Seq<char>>, Seq<u8>)>::empty());
    }
    let mut i: usize = 0;
    while i < files.len()
        invariant
            i <= files@.len(),
            fviews == views_of_files(files@),
            views_of_files(out_files@) == rebase_files(
                fviews.take(i as int),
                source@,
                dest_name@,
            ),
        decreases files@.len() - i,
    {
        proof {
            assert(fviews.take(i + 1).drop_last() =~= fviews.take(i as int));
            assert(fviews.take(i + 1).last() == fviews[i as int]);
            assert(fviews[i as int] == files@[i as int]@);
        }
        let f = &files[i];
        if f.path.starts_with(source) && f.path.len() > source.len() {
            let mut np = RelPath::empty();
            np.push_part(clone_string(dest_name));
            let rebased = np.concat(&f.path.strip_prefix(source));
            let ghost prev_out = views_of_files(out_files@);
            let entry = FileEntry { path: rebased, data: clone_bytes(&f.data) };
            let ghost ev = entry@;
            out_files.push(entry);
            proof {
                assert(ev.0 =~= rebase_path(source@, dest_name@, f.path@));
                assert(views_of_files(out_files@) =~= prev_out.push(ev));
                assert(views_of_files(out_files@) =~= rebase_files(
                    fviews.take(i + 1),
                    source@,
                    dest_name@,
                ));
            }
        }
        i = i + 1;
    }
    proof {
        assert(fviews.take(files@.len() as int) =~= fviews);
    }
    let mut out_dirs: Vec<RelPath> = Vec::new();
    let ghost dviews = views_of_paths(dirs@);
    proof {
        assert(views_of_paths(out_dirs@) =~= Seq::<Seq<Seq<char>>>::empty());
        assert(dviews.take(0) =~= Seq::<Seq<Seq<char>>>::empty());
    }
    let mut j: usize = 0;
    while j < dirs.len()
        invariant
            j <= dirs@.len(),
            dviews == views_of_paths(dirs@),
            views_of_paths(out_dirs@) == rebase_dirs(dviews.take(j as int), source@, dest_name@),
        decreases dirs@.len() - j,
    {
        proof {
            assert(dviews.take(j + 1).drop_last() =~= dviews.take(j as int));
            assert(dviews.take(j + 1).last() == dviews[j as int]);
            assert(dviews[j as int] == dirs@[j as int]@);
        }
        let d = &dirs[j];
        if d.starts_with(source) && d.len() > source.len() {
            let mut np = RelPath::empty();
            np.push_part(clone_string(dest_name));
            let rebased = np.concat(&d.strip_prefix(source));
            let ghost prev_out = views_of_paths(out_dirs@);
            let ghost rv = rebased@;
            out_dirs.push(rebased);
            proof {
                assert(rv =~= rebase_path(source@, dest_name@, d@));
                assert(views_of_paths(out_dirs@) =~= prev_out.push(rv));
                assert(views_of_paths(out_dirs@) =~= rebase_dirs(
                    dviews.take(j + 1),
                    source@,
                    dest_name@,
                ));
            }
        }
        j = j + 1;
    }
    proof {
        assert(dviews.take(dirs@.len() as int) =~= dviews);
    }
    (out_files, out_dirs)
}

/// Everything the installer must do for one classified extraction: create
/// the destination directory, write these files and directories under the
/// chosen root, and afterwards remove `source_dir` from the scratch space.
#[derive(Debug)]
pub struct InstallPlan {
    pub target: InstallTarget,
    pub dest_name: String,
    pub files: Vec<FileEntry>,
    pub dirs: Vec<RelPath>,
    pub source_dir: RelPath,
}

/// The abstract content of an install plan.
pub ghost struct InstallPlanModel {
    pub target: InstallTarget,
    pub dest_name: Seq<char>,
    pub files: Seq<(Seq<Seq<char>>, Seq<u8>)>,
    pub dirs: Seq<Seq<Seq<char>>>,
    pub source_dir: Seq<Seq<char>>,
}

impl InstallPlan {
    pub open spec fn model(&self) -> InstallPlanModel {
        InstallPlanModel {
            target: self.target,
            dest_name: self.dest_name@,
            files: views_of_files(self.files@),
            dirs: views_of_paths(self.dirs@),
            source_dir: self.source_dir@,
        }
    }
}

/// The install plan an extraction gives rise to, or `None` for an
/// unrecognized layout.
pub open spec fn plan_spec(m: ExtractionModel, mod_id: nat) -> Option<InstallPlanModel> {
    match classify_spec(m) {
        None => None,
        Some(t) => Some(
            InstallPlanModel {
                target: t.0,
                dest_name: dest_name_spec(t.1, mod_id),
                files: rebase_files(m.files, t.1, dest_name_spec(t.1, mod_id)),
                dirs: rebase_dirs(m.dirs, t.1, dest_name_spec(t.1, mod_id)),
                source_dir: t.1,
            },
        ),
    }
}

/// The content stored at `p` in a list of file writes applied in order:
/// the bytes of the last write to `p`, or `None` if nothing was written
/// there.
pub open spec fn tree_lookup(
    files: Seq<(Seq<Seq<char>>, Seq<u8>)>,
    p: Seq<Seq<char>>,
) -> Option<Seq<u8>>
    decreases files.len(),
{
    if files.len() == 0 {
        None
    } else if files.last().0 == p {
        Some(files.last().1)
    } else {
        tree_lookup(files.drop_last(), p)
    }
}

/// The cross-device move preserves content: for every path `suffix` below
/// the classified source directory, the destination tree holds exactly the
/// bytes the source tree holds at `parent + suffix` — byte-identical files
/// under identical relative structure.
pub proof fn lemma_rebase_preserves_content(
    files: Seq<(Seq<Seq<char>>, Seq<u8>)>,
    parent: Seq<Seq<char>>,
    dest: Seq<char>,
    suffix: Seq<Seq<char>>,
)
    requires
        suffix.len() > 0,
    ensures
        tree_lookup(rebase_files(files, parent, dest), seq![dest] + suffix) == tree_lookup(
            files,
            parent + suffix,
        ),
    decreases files.len(),
{
    let target = seq![dest] + suffix;
    let src_path = parent + suffix;
    if files.len() == 0 {
    } else {
        let f = files.last();
        let rest = files.drop_last();
        lemma_rebase_preserves_content(rest, parent, dest, suffix);
        if strictly_under(parent, f.0) {
            let k = parent.len() as int;
            let reb = rebase_path(parent, dest, f.0);
            assert(f.0 =~= parent + f.0.skip(k));
            let r = rebase_files(files, parent, dest);
            assert(r == rebase_files(rest, parent, dest).push((reb, f.1)));
            assert(r.last() == (reb, f.1));
            assert(r.drop_last() =~= rebase_files(rest, parent, dest));
            if f.0 == src_path {
                assert(f.0.skip(k) =~= suffix);
                assert(reb =~= target);
            } else {
                if reb == target {
                    assert(f.0.skip(k) =~= suffix) by {
                        assert(reb.len() == 1 + f.0.skip(k).len());
                        assert forall|x: int| 0 <= x < suffix.len() implies f.0.skip(k)[x]
                            == suffix[x] by {
                            assert(reb[x + 1] == f.0.skip(k)[x]);
                            assert(target[x + 1] == suffix[x]);
                        }
                    }
                    assert(f.0 =~= src_path);
                    assert(false);
                }
                assert(reb != target);
            }
        } else {
            if f.0 == src_path {
                assert(src_path.take(parent.len() as int) =~= parent);
                assert(strictly_under(parent, f.0));
                assert(false);
            }
        }
    }
}

/// Round trip for a standard package: when only the package marker was
/// seen, say with parent directory `Foo`, the plan installs under the
/// mods root in a directory named after `Foo`, and every file below `Foo`
/// keeps byte-identical content and relative structure at its rebased
/// path.
pub proof fn lemma_package_round_trip(m: ExtractionModel, mod_id: nat, suffix: Seq<Seq<char>>)
    requires
        m.override_dir is None,
        m.package_dir is Some,
        suffix.len() > 0,
    ensures
        plan_spec(m, mod_id) matches Some(plan) ==> {
            &&& plan.target == InstallTarget::ModsRoot
            &&& plan.dest_name == dest_name_spec(m.package_dir->0, mod_id)
            &&& tree_lookup(plan.files, seq![plan.dest_name] + suffix) == tree_lookup(
                m.files,
                m.package_dir->0 + suffix,
            )
        },
        plan_spec(m, mod_id) is Some,
{
    let parent = m.package_dir->0;
    let name = dest_name_spec(parent, mod_id);
    lemma_rebase_preserves_content(m.files, parent, name, suffix);
}

/// An archive whose marker is the override-type marker installs under the
/// overrides root — never the mods root — in a directory named after the
/// marker's parent, with content below the parent preserved byte for
/// byte.
pub proof fn lemma_override_round_trip(m: ExtractionModel, mod_id: nat, suffix: Seq<Seq<char>>)
    requires
        m.override_dir is Some,
        suffix.len() > 0,
    ensures
        plan_spec(m, mod_id) matches Some(plan) ==> {
            &&& plan.target == InstallTarget::OverridesRoot
            &&& plan.dest_name == dest_name_spec(m.override_dir->0, mod_id)
            &&& tree_lookup(plan.files, seq![plan.dest_name] + suffix) == tree_lookup(
                m.files,
                m.override_dir->0 + suffix,
            )
        },
        plan_spec(m, mod_id) is Some,
{
    let parent = m.override_dir->0;
    let name = dest_name_spec(parent, mod_id);
    lemma_rebase_preserves_content(m.files, parent, name, suffix);
}

/// A mod id rendered in decimal is always a safe path component.
pub proof fn lemma_dec_str_safe(n: nat)
    ensures
        safe_component(dec_str(n)),
{
    lemma_dec_str_digits(n);
    reveal_strlit(".");
    reveal_strlit("..");
    assert(dec_str(n) != "."@) by {
        if dec_str(n) == "."@ {
            assert(is_digit(dec_str(n)[0]));
        }
    }
    assert(dec_str(n) != ".."@) by {
        if dec_str(n) == ".."@ {
            assert(is_digit(dec_str(n)[0]));
        }
    }
}

/// Rebasing preserves well-formedness: with a safe destination name and
/// well-formed source paths, every rebased file path is well-formed and
/// nonempty.
pub proof fn lemma_rebase_files_wf(
    files: Seq<(Seq<Seq<char>>, Seq<u8>)>,
    parent: Seq<Seq<char>>,
    dest: Seq<char>,
)
    requires
        safe_component(dest),
        forall|i: int| 0 <= i < files.len() ==> path_wf(#[trigger] files[i].0),
    ensures
        forall|i: int|
            0 <= i < rebase_files(files, parent, dest).len() ==> path_wf(
                #[trigger] rebase_files(files, parent, dest)[i].0,
            ) && rebase_files(files, parent, dest)[i].0.len() > 0,
    decreases files.len(),
{
    if files.len() > 0 {
        let rest = files.drop_last();
        assert(forall|i: int| 0 <= i < rest.len() ==> path_wf(#[trigger] rest[i].0));
        lemma_rebase_files_wf(rest, parent, dest);
        let f = files.last();
        let r = rebase_files(files, parent, dest);
        let rr = rebase_files(rest, parent, dest);
        if strictly_under(parent, f.0) {
            let reb = rebase_path(parent, dest, f.0);
            assert(path_wf(f.0));
            assert(path_wf(reb)) by {
                assert forall|x: int| 0 <= x < reb.len() implies safe_component(
                    #[trigger] reb[x],
                ) by {
                    if x > 0 {
                        assert(reb[x] == f.0[parent.len() + x - 1]);
                    }
                }
            }
            assert(r == rr.push((reb, f.1)));
            assert forall|i: int| 0 <= i < r.len() implies path_wf(#[trigger] r[i].0)
                && r[i].0.len() > 0 by {
                if i < r.len() - 1 {
                    assert(r[i] == rr[i]);
                } else {
                    assert(r[i] == (reb, f.1));
                }
            }
        } else {
            assert(r == rr);
        }
    }
}

/// Rebasing preserves well-formedness of directory paths.
pub proof fn lemma_rebase_dirs_wf(dirs: Seq<Seq<Seq<char>>>, parent: Seq<Seq<char>>, dest: Seq<
    char,
>)
    requires
        safe_component(dest),
        forall|i: int| 0 <= i < dirs.len() ==> path_wf(#[trigger] dirs[i]),
    ensures
        forall|i: int|
            0 <= i < rebase_dirs(dirs, parent, dest).len() ==> path_wf(
                #[trigger] rebase_dirs(dirs, parent, dest)[i],
            ) && rebase_dirs(dirs, parent, dest)[i].len() > 0,
    decreases dirs.len(),
{
    if dirs.len() > 0 {
        let rest = dirs.drop_last();
        assert(forall|i: int| 0 <= i < rest.len() ==> path_wf(#[trigger] rest[i]));
        lemma_rebase_dirs_wf(rest, parent, dest);
        let d = dirs.last();
        let r = rebase_dirs(dirs, parent, dest);
        let rr = rebase_dirs(rest, parent, dest);
        if strictly_under(parent, d) {
            let reb = rebase_path(parent, dest, d);
            assert(path_wf(d));
            assert(path_wf(reb)) by {
                assert forall|x: int| 0 <= x < reb.len() implies safe_component(
                    #[trigger] reb[x],
                ) by {
                    if x > 0 {
                        assert(reb[x] == d[parent.len() + x - 1]);
                    }
                }
            }
            assert(r == rr.push(reb));
            assert forall|i: int| 0 <= i < r.len() implies path_wf(#[trigger] r[i]) && r[i].len()
                > 0 by {
                if i < r.len() - 1 {
                    assert(r[i] == rr[i]);
                } else {
                    assert(r[i] == reb);
                }
            }
        } else {
            assert(r == rr);
        }
    }
}

/// Every path an install plan writes or removes is safe: the destination
/// name is a safe component, every copied file and directory path is
/// well-formed, and the scratch subtree to remove is well-formed.
pub proof fn lemma_plan_wf(m: ExtractionModel, mod_id: nat)
    requires
        extraction_model_wf(m),
        plan_spec(m, mod_id) is Some,
    ensures
        safe_component(plan_spec(m, mod_id)->0.dest_name),
        path_wf(plan_spec(m, mod_id)->0.source_dir),
        forall|i: int|
            0 <= i < plan_spec(m, mod_id)->0.files.len() ==> path_wf(
                #[trigger] plan_spec(m, mod_id)->0.files[i].0,
            ) && plan_spec(m, mod_id)->0.files[i].0.len() > 0,
        forall|i: int|
            0 <= i < plan_spec(m, mod_id)->0.dirs.len() ==> path_wf(
                #[trigger] plan_spec(m, mod_id)->0.dirs[i],
            ) && plan_spec(m, mod_id)->0.dirs[i].len() > 0,
{
    let t = classify_spec(m)->0;
    let parent = t.1;
    assert(path_wf(parent));
    let name = dest_name_spec(parent, mod_id);
    if parent.len() > 0 {
        assert(parent.last() == parent[parent.len() - 1]);
        assert(safe_component(name));
    } else {
        lemma_dec_str_safe(mod_id);
    }
    lemma_rebase_files_wf(m.files, parent, name);
    lemma_rebase_dirs_wf(m.dirs, parent, name);
}

/// What a run of the extractor and classifier may legitimately report for
/// a decoded archive.
#[derive(Debug)]
pub enum UnzipOutcome {
    /// A marker was found: the extraction and the install plan to apply.
    Installed { extraction: ExtractionResult, plan: InstallPlan },
    /// Neither marker was found; nothing is installed.
    UnrecognizedLayout { extraction: ExtractionResult },
}

/// The relation between an unzip outcome and the decoded entry list's
/// extraction model.
pub open spec fn unzip_outcome_ok(o: UnzipOutcome, m: ExtractionModel, mod_id: nat) -> bool {
    match o {
        UnzipOutcome::Installed { extraction, plan } => {
            &&& extraction.model() == m
            &&& extraction_model_wf(m)
            &&& plan_spec(m, mod_id) == Some(plan.model())
        },
        UnzipOutcome::UnrecognizedLayout { extraction } => {
            &&& extraction.model() == m
            &&& extraction_model_wf(m)
            &&& plan_spec(m, mod_id) is None
        },
    }
}

/// Expands a staged archive for one mod: decodes the container, replays
/// its entries into the per-mod scratch model, watches for the two marker
/// files, and — when one is found — computes the move into the proper
/// installation root. A byte buffer that is not a readable archive is a
/// filesystem-level failure; it never corrupts another mod's scratch
/// space.
pub fn unzip_mod(bytes: &Vec<u8>, mod_id: u32) -> (r: Result<UnzipOutcome, ModManagerError>)
    ensures
        r is Ok <==> zip_entry_list(bytes@) is Some,
        r matches Err(e) ==> e matches ModManagerError::FileSystemError(m) && m@
            == "failed to read the zip archive"@,
        r matches Ok(o) ==> unzip_outcome_ok(
            o,
            extract_model(zip_entry_list(bytes@)->0),
            mod_id as nat,
        ),
{
    match read_zip_entries(bytes) {
        Err(_) => Err(
            ModManagerError::FileSystemError(String::from_str("failed to read the zip archive")),
        ),
        Ok(entries) => {
            let extraction = extract_entries(&entries);
            match plan_install(&extraction, mod_id) {
                Some(plan) => Ok(UnzipOutcome::Installed { extraction, plan }),
                None => Ok(UnzipOutcome::UnrecognizedLayout { extraction }),
            }
        },
    }
}

/// Builds the install plan for an extraction: classifies it and computes
/// the cross-device copy set.
pub fn plan_install(x: &ExtractionResult, mod_id: u32) -> (r: Option<InstallPlan>)
    ensures
        match r {
            Some(p) => plan_spec(x.model(), mod_id as nat) == Some(p.model()),
            None => plan_spec(x.model(), mod_id as nat) is None,
        },
{
    match classify(x) {
        None => None,
        Some((target, parent)) => {
            let name = dest_name(&parent, mod_id);
            let (files, dirs) = copy_all_cross_device(&x.files, &x.dirs, &parent, &name);
            Some(InstallPlan { target, dest_name: name, files, dirs, source_dir: parent })
        },
    }
}

} // verus!
