use vstd::prelude::*;

verus! {

use crate::paths::{
    is_dir_name, is_dir_name_spec, path_wf, sanitize_entry_name, sanitize_spec, string_eq, RelPath,
};

/// One entry of a compressed-folder container, as the decoder hands it out:
/// the raw name recorded in the archive and the decompressed bytes.
pub struct ArchiveEntry {
    pub name: String,
    pub data: Vec<u8>,
}

impl View for ArchiveEntry {
    type V = (Seq<char>, Seq<u8>);

    open spec fn view(&self) -> (Seq<char>, Seq<u8>) {
        (self.name@, self.data@)
    }
}

/// The views of a list of archive entries.
pub open spec fn views_of_entries(s: Seq<ArchiveEntry>) -> Seq<(Seq<char>, Seq<u8>)> {
    s.map_values(|e: ArchiveEntry| e@)
}

/// What decoding `bytes` as a zip archive yields: `None` when the bytes are
/// not a readable archive, otherwise every entry's name and decompressed
/// content, in archive order. Decoding is a function of the bytes alone.
pub uninterp spec fn zip_entry_list(bytes: Seq<u8>) -> Option<Seq<(Seq<char>, Seq<u8>)>>;

/// Relies on `zip::ZipArchive` (`new`, `len`, `by_index`, `ZipFile::name`)
/// and `std::io::Read::read_to_end`: reading an archive out of a byte buffer
/// computes every entry's name and decompressed bytes, and depends on the
/// buffer alone.
#[verifier::external_body]
pub(crate) fn read_zip_entries(bytes: &Vec<u8>) -> (r: Result<Vec<ArchiveEntry>, ()>)
    ensures
        r is Ok <==> zip_entry_list(bytes@) is Some,
        r is Ok ==> views_of_entries((r->Ok_0)@) == zip_entry_list(bytes@)->0,
{
    let cursor = std::io::Cursor::new(bytes.as_slice());
    let mut archive = zip::ZipArchive::new(cursor).map_err(|_| ())?;
    let mut out: Vec<ArchiveEntry> = Vec::new();
    for i in 0..archive.len() {
        let mut entry = archive.by_index(i).map_err(|_| ())?;
        let name = entry.name().to_string();
        let mut data: Vec<u8> = Vec::new();
        std::io::Read::read_to_end(&mut entry, &mut data).map_err(|_| ())?;
        out.push(ArchiveEntry { name, data });
    }
    Ok(out)
}

/// One file placed by the extractor or the installer: a path relative to
/// the root it belongs under, and the bytes written there.
#[derive(Debug)]
pub struct FileEntry {
    pub path: RelPath,
    pub data: Vec<u8>,
}

impl View for FileEntry {
    type V = (Seq<Seq<char>>, Seq<u8>);

    open spec fn view(&self) -> (Seq<Seq<char>>, Seq<u8>) {
        (self.path@, self.data@)
    }
}

/// The views of a list of placed files.
pub open spec fn views_of_files(s: Seq<FileEntry>) -> Seq<(Seq<Seq<char>>, Seq<u8>)> {
    s.map_values(|f: FileEntry| f@)
}

/// The views of a list of paths.
pub open spec fn views_of_paths(s: Seq<RelPath>) -> Seq<Seq<Seq<char>>> {
    s.map_values(|p: RelPath| p@)
}

/// The abstract outcome of extracting an archive into a scratch directory:
/// which files and directories exist under the scratch root, and the parent
/// directories of the first-seen override and package markers.
pub ghost struct ExtractionModel {
    pub files: Seq<(Seq<Seq<char>>, Seq<u8>)>,
    pub dirs: Seq<Seq<Seq<char>>>,
    pub override_dir: Option<Seq<Seq<char>>>,
    pub package_dir: Option<Seq<Seq<char>>>,
}

/// The override-bundle marker file name.
pub open spec fn override_marker() -> Seq<char> {
    "main.xml"@
}

/// The standard-package marker file name.
pub open spec fn package_marker() -> Seq<char> {
    "mod.txt"@
}

/// Folds one archive entry into the extraction outcome. Entries whose names
/// do not sanitize are skipped; directory entries add a directory; file
/// entries add a file and may record a marker parent, first seen per kind.
pub open spec fn extract_step(m: ExtractionModel, e: (Seq<char>, Seq<u8>)) -> ExtractionModel {
    match sanitize_spec(e.0) {
        None => m,
        Some(p) => {
            if is_dir_name_spec(e.0) {
                ExtractionModel { dirs: m.dirs.push(p), ..m }
            } else if p.len() == 0 {
                m
            } else {
                let m1 = ExtractionModel { files: m.files.push((p, e.1)), ..m };
                if p.last() == override_marker() && m.override_dir is None {
                    ExtractionModel { override_dir: Some(p.drop_last()), ..m1 }
                } else if p.last() == package_marker() && m.package_dir is None {
                    ExtractionModel { package_dir: Some(p.drop_last()), ..m1 }
                } else {
                    m1
                }
            }
        },
    }
}

/// The extraction outcome for a whole entry list, in order.
pub open spec fn extract_model(entries: Seq<(Seq<char>, Seq<u8>)>) -> ExtractionModel
    decreases entries.len(),
{
    if entries.len() == 0 {
        ExtractionModel {
            files: Seq::empty(),
            dirs: Seq::empty(),
            override_dir: None,
            package_dir: None,
        }
    } else {
        extract_step(extract_model(entries.drop_last()), entries.last())
    }
}

/// Every path mentioned by `m` is safe to create under the scratch root,
/// and every extracted file has a nonempty path.
pub open spec fn extraction_model_wf(m: ExtractionModel) -> bool {
    &&& forall|i: int|
        0 <= i < m.files.len() ==> path_wf(#[trigger] m.files[i].0) && m.files[i].0.len() > 0
    &&& forall|i: int| 0 <= i < m.dirs.len() ==> path_wf(#[trigger] m.dirs[i])
    &&& (m.override_dir matches Some(p) ==> path_wf(p))
    &&& (m.package_dir matches Some(p) ==> path_wf(p))
}

/// The concrete result of extracting an archive, mirroring
/// `ExtractionModel` with executable data.
#[derive(Debug)]
pub struct ExtractionResult {
    pub files: Vec<FileEntry>,
    pub dirs: Vec<RelPath>,
    pub override_marker_dir: Option<RelPath>,
    pub package_marker_dir: Option<RelPath>,
}

/// The view of an optional path.
pub open spec fn opt_path_view(o: Option<RelPath>) -> Option<Seq<Seq<char>>> {
    match o {
        Some(p) => Some(p@),
        None => None,
    }
}

impl ExtractionResult {
    /// The abstract outcome this result represents.
    pub open spec fn model(&self) -> ExtractionModel {
        ExtractionModel {
            files: views_of_files(self.files@),
            dirs: views_of_paths(self.dirs@),
            override_dir: opt_path_view(self.override_marker_dir),
            package_dir: opt_path_view(self.package_marker_dir),
        }
    }
}

/// Copies a byte buffer.
pub fn clone_bytes(v: &Vec<u8>) -> (r: Vec<u8>)
    ensures
        r@ == v@,
{
    let mut out: Vec<u8> = Vec::new();
    let mut i: usize = 0;
    while i < v.len()
        invariant
            i <= v@.len(),
            out@ =~= v@.take(i as int),
        decreases v@.len() - i,
    {
        out.push(v[i]);
        proof {
            assert(out@ =~= v@.take(i + 1));
        }
        i = i + 1;
    }
    proof {
        assert(v@.take(v@.len() as int) =~= v@);
    }
    out
}

/// Copies a list of placed files, keeping paths and bytes.
pub fn clone_file_entries(v: &Vec<FileEntry>) -> (r: Vec<FileEntry>)
    ensures
        views_of_files(r@) == views_of_files(v@),
{
    let mut out: Vec<FileEntry> = Vec::new();
    let ghost target = views_of_files(v@);
    proof {
        assert(views_of_files(out@) =~= target.take(0));
    }
    let mut i: usize = 0;
    while i < v.len()
        invariant
            i <= v@.len(),
            target == views_of_files(v@),
            views_of_files(out@) == target.take(i as int),
        decreases v@.len() - i,
    {
        let e = FileEntry { path: v[i].path.duplicate(), data: clone_bytes(&v[i].data) };
        let ghost ev = e@;
        let ghost prev_map = views_of_files(out@);
        out.push(e);
        proof {
            assert(ev == target[i as int]);
            assert(views_of_files(out@) =~= prev_map.push(ev));
            assert(prev_map.push(ev) =~= target.take(i + 1));
        }
        i = i + 1;
    }
    proof {
        assert(target.take(v@.len() as int) =~= target);
    }
    out
}

/// Copies a list of paths, keeping their components.
pub fn clone_paths(v: &Vec<RelPath>) -> (r: Vec<RelPath>)
    ensures
        views_of_paths(r@) == views_of_paths(v@),
{
    let mut out: Vec<RelPath> = Vec::new();
    let ghost target = views_of_paths(v@);
    proof {
        assert(views_of_paths(out@) =~= target.take(0));
    }
    let mut i: usize = 0;
    while i < v.len()
        invariant
            i <= v@.len(),
            target == views_of_paths(v@),
            views_of_paths(out@) == target.take(i as int),
        decreases v@.len() - i,
    {
        let p = v[i].duplicate();
        let ghost pv = p@;
        let ghost prev_map = views_of_paths(out@);
        out.push(p);
        proof {
            assert(pv == target[i as int]);
            assert(views_of_paths(out@) =~= prev_map.push(pv));
            assert(prev_map.push(pv) =~= target.take(i + 1));
        }
        i = i + 1;
    }
    proof {
        assert(target.take(v@.len() as int) =~= target);
    }
    out
}

/// Replays a decoded entry list into the per-mod scratch space: sanitizes
/// every entry name, collects the files and directories to create, and
/// records the parent directory of the first-seen marker of each kind.
/// Entries that cannot be safely resolved below the scratch root are
/// skipped, never placed elsewhere.
pub fn extract_entries(entries: &Vec<ArchiveEntry>) -> (r: ExtractionResult)
    ensures
        r.model() == extract_model(views_of_entries(entries@)),
        extraction_model_wf(r.model()),
{
    let override_name = String::from_str("main.xml");
    let package_name = String::from_str("mod.txt");
    let mut r = ExtractionResult {
        files: Vec::new(),
        dirs: Vec::new(),
        override_marker_dir: None,
        package_marker_dir: None,
    };
    proof {
        assert(views_of_entries(entries@).take(0) =~= Seq::<(Seq<char>, Seq<u8>)>::empty());
        assert(views_of_files(r.files@) =~= Seq::<(Seq<Seq<char>>, Seq<u8>)>::empty());
        assert(views_of_paths(r.dirs@) =~= Seq::<Seq<Seq<char>>>::empty());
    }
    let mut i: usize = 0;
    while i < entries.len()
        invariant
            i <= entries@.len(),
            override_name@ == override_marker(),
            package_name@ == package_marker(),
            r.model() == extract_model(views_of_entries(entries@).take(i as int)),
            extraction_model_wf(r.model()),
        decreases entries@.len() - i,
    {
        let ghost prev = r.model();
        let ghost entry_views = views_of_entries(entries@);
        proof {
            assert(entry_views.take(i + 1).drop_last() =~= entry_views.take(i as int));
            assert(entry_views.take(i + 1).last() == entry_views[i as int]);
            assert(entry_views[i as int] == entries@[i as int]@);
        }
        let e = &entries[i];
        match sanitize_entry_name(e.name.as_str()) {
            None => {},
            Some(p) => {
                if is_dir_name(e.name.as_str()) {
                    let ghost pv = p@;
                    r.dirs.push(p);
                    proof {
                        assert(views_of_paths(r.dirs@) =~= prev.dirs.push(pv));
                    }
                } else if p.len() == 0 {
                } else {
                    let data = clone_bytes(&e.data);
                    let is_override = match p.last() {
                        Some(lastc) => string_eq(lastc, &override_name),
                        None => false,
                    };
                    let is_package = match p.last() {
                        Some(lastc) => string_eq(lastc, &package_name),
                        None => false,
                    };
                    if is_override && r.override_marker_dir.is_none() {
                        r.override_marker_dir = Some(p.parent());
                    } else if is_package && r.package_marker_dir.is_none() {
                        r.package_marker_dir = Some(p.parent());
                    }
                    let ghost pushed = FileEntry { path: p, data }@;
                    r.files.push(FileEntry { path: p, data });
                    proof {
                        assert(views_of_files(r.files@) =~= prev.files.push(pushed));
                    }
                }
            },
        }
        proof {
            let stepped = extract_step(prev, entry_views[i as int]);
            assert(r.model().files == stepped.files);
            assert(r.model().dirs == stepped.dirs);
            assert(r.model().override_dir == stepped.override_dir);
            assert(r.model().package_dir == stepped.package_dir);
            assert(r.model() == stepped);
        }
        i = i + 1;
    }
    proof {
        assert(views_of_entries(entries@).take(entries@.len() as int) =~= views_of_entries(
            entries@,
        ));
    }
    r
}

} // verus!
