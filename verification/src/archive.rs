use vstd::prelude::*;

use crate::errors::Error;
use crate::paths::{
    is_normal_component, path_is_safe, sanitize_entry_path, spec_sanitize,
    lemma_sanitize_safe, views_of,
};

verus! {

/// The model of one archive entry: its stored name, its optional POSIX
/// permission mode, and its decompressed bytes.
pub type EntryV = (Seq<char>, Option<u32>, Seq<u8>);

/// One archive entry, read out of the zip container.
#[derive(Debug, PartialEq)]
pub struct ZipEntry {
    /// The stored name, with `/` separators; a trailing `/` marks a directory.
    pub name: String,
    /// The POSIX permission mode the entry declares, if any.
    pub mode: Option<u32>,
    /// The decompressed byte payload (empty for directories).
    pub data: Vec<u8>,
}

impl View for ZipEntry {
    type V = EntryV;

    open spec fn view(&self) -> EntryV {
        (self.name@, self.mode, self.data@)
    }
}

/// What the zip reader parses out of the given bytes: `None` when they are
/// not a readable zip container, otherwise the entries in container order,
/// each `None` when its contents cannot be decompressed.
pub uninterp spec fn zip_parse(bytes: Seq<u8>) -> Option<Seq<Option<EntryV>>>;

/// What an opened archive holds: its entries in container order, each `None`
/// when its contents cannot be decompressed.
pub uninterp spec fn zip_contents(
    a: zip::ZipArchive<std::io::Cursor<Vec<u8>>>,
) -> Seq<Option<EntryV>>;

#[verifier::external_type_specification]
#[verifier::external_body]
#[verifier::reject_recursive_types(R)]
pub struct ExZipArchive<R>(zip::ZipArchive<R>);

#[verifier::external_type_specification]
#[verifier::external_body]
#[verifier::reject_recursive_types(T)]
pub struct ExCursor<T>(std::io::Cursor<T>);

/// Relies on zip::ZipArchive::new: it reads the central directory of the
/// container held in `bytes`; whether it succeeds, and what the entries are,
/// is a function of those bytes alone.
#[verifier::external_body]
fn zip_open(bytes: &Vec<u8>) -> (r: Result<zip::ZipArchive<std::io::Cursor<Vec<u8>>>, Error>)
    ensures
        r is Ok <==> zip_parse(bytes@) is Some,
        r matches Ok(a) ==> zip_parse(bytes@) == Some(zip_contents(a)),
        r matches Err(e) ==> e == Error::ArchiveOpen,
{
    match zip::ZipArchive::new(std::io::Cursor::new(bytes.clone())) {
        Ok(a) => Ok(a),
        Err(_) => Err(Error::ArchiveOpen),
    }
}

/// Relies on zip::ZipArchive::len: the number of entries in the archive.
#[verifier::external_body]
fn zip_len(a: &zip::ZipArchive<std::io::Cursor<Vec<u8>>>) -> (n: usize)
    ensures
        n == zip_contents(*a).len(),
{
    a.len()
}

/// Relies on zip::ZipArchive::by_index, on ZipFile::name and
/// ZipFile::unix_mode, and on std::io::Read::read_to_end decompressing the
/// entry's bytes; whether entry `i` can be read, and its name, mode and
/// bytes, are a function of the archive alone.
#[verifier::external_body]
fn zip_entry(a: &mut zip::ZipArchive<std::io::Cursor<Vec<u8>>>, i: usize) -> (r: Result<
    ZipEntry,
    Error,
>)
    requires
        i < zip_contents(*old(a)).len(),
    ensures
        zip_contents(*final(a)) == zip_contents(*old(a)),
        r is Ok <==> zip_contents(*final(a))[i as int] is Some,
        r matches Ok(e) ==> zip_contents(*final(a))[i as int] == Some(e@),
        r matches Err(e) ==> e == Error::ArchiveRead,
{
    let mut f = match a.by_index(i) {
        Ok(f) => f,
        Err(_) => return Err(Error::ArchiveRead),
    };
    let name = f.name().to_string();
    let mode = f.unix_mode();
    let mut data = Vec::new();
    if std::io::Read::read_to_end(&mut f, &mut data).is_err() {
        return Err(Error::ArchiveRead);
    }
    Ok(ZipEntry { name, mode, data })
}

/// Whether every entry of a parsed archive can be decompressed.
pub open spec fn all_readable(cs: Seq<Option<EntryV>>) -> bool {
    forall|i: int| 0 <= i < cs.len() ==> (#[trigger] cs[i]) is Some
}

/// The entries of a fully readable parsed archive.
pub open spec fn entries_of(cs: Seq<Option<EntryV>>) -> Seq<EntryV> {
    cs.map_values(|o: Option<EntryV>| o.unwrap())
}

/// One filesystem mutation of the destination tree. Paths are safe relative
/// component sequences, to be joined under the destination root.
#[derive(Debug, PartialEq)]
pub enum FsOp {
    /// Create the directory (and any missing ancestors), idempotently, and
    /// apply the mode to it if one is declared.
    MakeDir { path: Vec<String>, mode: Option<u32> },
    /// Create or truncate the file, write the bytes verbatim, then apply the
    /// exact mode to it if one is declared.
    WriteFile { path: Vec<String>, data: Vec<u8>, mode: Option<u32> },
}

/// The model of one filesystem mutation.
pub enum FsOpV {
    MakeDir { path: Seq<Seq<char>>, mode: Option<u32> },
    WriteFile { path: Seq<Seq<char>>, data: Seq<u8>, mode: Option<u32> },
}

impl View for FsOp {
    type V = FsOpV;

    open spec fn view(&self) -> FsOpV {
        match self {
            FsOp::MakeDir { path, mode } => FsOpV::MakeDir { path: views_of(path@), mode: *mode },
            FsOp::WriteFile { path, data, mode } => FsOpV::WriteFile {
                path: views_of(path@),
                data: data@,
                mode: *mode,
            },
        }
    }
}

/// An operation whose path cannot leave the destination root.
pub open spec fn op_is_safe(op: FsOpV) -> bool {
    match op {
        FsOpV::MakeDir { path, .. } => path_is_safe(path),
        FsOpV::WriteFile { path, .. } => path_is_safe(path),
    }
}

/// Whether a stored name marks a directory: it ends in a `/` separator.
pub open spec fn is_dir_name(name: Seq<char>) -> bool {
    name.len() > 0 && name.last() == '/'
}

/// The filesystem mutations one entry asks for: nothing when its name has no
/// safe resolution (the entry is skipped); a directory creation for a
/// directory entry; otherwise a creation of the missing ancestors where the
/// path is nested, then a verbatim write of the entry's bytes carrying its
/// exact declared mode.
pub open spec fn entry_ops(e: EntryV) -> Seq<FsOpV> {
    match spec_sanitize(e.0) {
        None => Seq::<FsOpV>::empty(),
        Some(comps) => {
            if is_dir_name(e.0) {
                seq![FsOpV::MakeDir { path: comps, mode: e.1 }]
            } else if comps.len() > 1 {
                seq![
                    FsOpV::MakeDir { path: comps.drop_last(), mode: None },
                    FsOpV::WriteFile { path: comps, data: e.2, mode: e.1 },
                ]
            } else {
                seq![FsOpV::WriteFile { path: comps, data: e.2, mode: e.1 }]
            }
        },
    }
}

/// The full extraction plan: the mutations of every entry, in container
/// order.
pub open spec fn plan_of(es: Seq<EntryV>) -> Seq<FsOpV>
    decreases es.len(),
{
    if es.len() == 0 {
        Seq::<FsOpV>::empty()
    } else {
        plan_of(es.drop_last()) + entry_ops(es.last())
    }
}

/// The files of the destination tree after a plan is applied in order: each
/// write puts its bytes at its path, a later write of the same path winning.
pub open spec fn files_after(plan: Seq<FsOpV>) -> Map<Seq<Seq<char>>, Seq<u8>>
    decreases plan.len(),
{
    if plan.len() == 0 {
        Map::<Seq<Seq<char>>, Seq<u8>>::empty()
    } else {
        let m = files_after(plan.drop_last());
        match plan.last() {
            FsOpV::WriteFile { path, data, .. } => m.insert(path, data),
            FsOpV::MakeDir { .. } => m,
        }
    }
}

/// The directories of the destination tree that a plan creates explicitly.
pub open spec fn dirs_after(plan: Seq<FsOpV>) -> Set<Seq<Seq<char>>>
    decreases plan.len(),
{
    if plan.len() == 0 {
        Set::<Seq<Seq<char>>>::empty()
    } else {
        let s = dirs_after(plan.drop_last());
        match plan.last() {
            FsOpV::MakeDir { path, .. } => s.insert(path),
            FsOpV::WriteFile { .. } => s,
        }
    }
}

proof fn lemma_plan_files_step(p: Seq<FsOpV>, e: EntryV)
    ensures
        spec_sanitize(e.0) is Some && !is_dir_name(e.0) ==> files_after(p + entry_ops(e))
            == files_after(p).insert(spec_sanitize(e.0).unwrap(), e.2),
        spec_sanitize(e.0) is None || is_dir_name(e.0) ==> files_after(p + entry_ops(e))
            == files_after(p),
{
    let ops = entry_ops(e);
    if spec_sanitize(e.0) is None {
        assert(p + ops =~= p);
    } else {
        let comps = spec_sanitize(e.0).unwrap();
        if is_dir_name(e.0) {
            assert(ops[0] == (FsOpV::MakeDir { path: comps, mode: e.1 }));
            assert((p + ops).drop_last() =~= p);
            assert((p + ops).last() == ops[0]);
        } else if comps.len() > 1 {
            assert(ops[0] == (FsOpV::MakeDir { path: comps.drop_last(), mode: None }));
            assert(ops[1] == (FsOpV::WriteFile { path: comps, data: e.2, mode: e.1 }));
            assert((p + ops).drop_last() =~= p.push(ops[0]));
            assert((p + ops).last() == ops[1]);
            assert(p.push(ops[0]).drop_last() =~= p);
            assert(p.push(ops[0]).last() == ops[0]);
            assert(files_after(p.push(ops[0])) == files_after(p));
            assert(files_after(p + ops) == files_after(p.push(ops[0])).insert(comps, e.2));
        } else {
            assert(ops[0] == (FsOpV::WriteFile { path: comps, data: e.2, mode: e.1 }));
            assert((p + ops).drop_last() =~= p);
            assert((p + ops).last() == ops[0]);
        }
    }
}

proof fn lemma_plan_dirs_step(p: Seq<FsOpV>, e: EntryV)
    ensures
        dirs_after(p) <= dirs_after(p + entry_ops(e)),
        spec_sanitize(e.0) is Some && is_dir_name(e.0) ==> dirs_after(p + entry_ops(e)).contains(
            spec_sanitize(e.0).unwrap(),
        ),
        spec_sanitize(e.0) is Some && !is_dir_name(e.0) && spec_sanitize(e.0).unwrap().len() > 1
            ==> dirs_after(p + entry_ops(e)).contains(spec_sanitize(e.0).unwrap().drop_last()),
{
    let ops = entry_ops(e);
    if spec_sanitize(e.0) is None {
        assert(p + ops =~= p);
        assert(dirs_after(p) <= dirs_after(p + ops));
    } else {
        let comps = spec_sanitize(e.0).unwrap();
        if is_dir_name(e.0) {
            assert(ops[0] == (FsOpV::MakeDir { path: comps, mode: e.1 }));
            assert((p + ops).drop_last() =~= p);
            assert((p + ops).last() == ops[0]);
            assert(dirs_after(p + ops) == dirs_after(p).insert(comps));
        } else if comps.len() > 1 {
            assert(ops[0] == (FsOpV::MakeDir { path: comps.drop_last(), mode: None }));
            assert(ops[1] == (FsOpV::WriteFile { path: comps, data: e.2, mode: e.1 }));
            assert((p + ops).drop_last() =~= p.push(ops[0]));
            assert((p + ops).last() == ops[1]);
            assert(p.push(ops[0]).drop_last() =~= p);
            assert(p.push(ops[0]).last() == ops[0]);
            assert(dirs_after(p.push(ops[0])) == dirs_after(p).insert(comps.drop_last()));
            assert(dirs_after(p + ops) == dirs_after(p).insert(comps.drop_last()));
        } else {
            assert(ops[0] == (FsOpV::WriteFile { path: comps, data: e.2, mode: e.1 }));
            assert((p + ops).drop_last() =~= p);
            assert((p + ops).last() == ops[0]);
            assert(dirs_after(p + ops) == dirs_after(p));
        }
    }
}

/// Extraction fidelity: after the whole plan of `es` is applied, the file at
/// the safely resolved path of a file entry holds exactly that entry's
/// bytes, provided no later file entry resolves to the same path (extraction
/// is additive and overwriting: the last writer wins).
pub proof fn lemma_extraction_fidelity(es: Seq<EntryV>, i: int)
    requires
        0 <= i < es.len(),
        !is_dir_name(es[i].0),
        spec_sanitize(es[i].0) is Some,
        forall|j: int|
            i < j < es.len() && !is_dir_name((#[trigger] es[j]).0) ==> spec_sanitize(es[j].0)
                != spec_sanitize(es[i].0),
    ensures
        files_after(plan_of(es)).contains_key(spec_sanitize(es[i].0).unwrap()),
        files_after(plan_of(es))[spec_sanitize(es[i].0).unwrap()] == es[i].2,
    decreases es.len(),
{
    let comps = spec_sanitize(es[i].0).unwrap();
    let last = es.last();
    lemma_plan_files_step(plan_of(es.drop_last()), last);
    if i == es.len() - 1 {
    } else {
        assert(es.drop_last()[i] == es[i]);
        lemma_extraction_fidelity(es.drop_last(), i);
        if spec_sanitize(last.0) is Some && !is_dir_name(last.0) {
            assert(spec_sanitize(last.0) != spec_sanitize(es[i].0));
            assert(spec_sanitize(last.0).unwrap() != comps);
        }
    }
}

/// Directory creation: a directory entry's resolved path, and the parent of
/// every nested file entry's resolved path, exist in the destination tree
/// after the plan is applied (ancestor creation is explicit in the plan).
pub proof fn lemma_extraction_creates_directories(es: Seq<EntryV>, i: int)
    requires
        0 <= i < es.len(),
        spec_sanitize(es[i].0) is Some,
    ensures
        is_dir_name(es[i].0) ==> dirs_after(plan_of(es)).contains(spec_sanitize(es[i].0).unwrap()),
        !is_dir_name(es[i].0) && spec_sanitize(es[i].0).unwrap().len() > 1 ==> dirs_after(
            plan_of(es),
        ).contains(spec_sanitize(es[i].0).unwrap().drop_last()),
    decreases es.len(),
{
    let last = es.last();
    lemma_plan_dirs_step(plan_of(es.drop_last()), last);
    if i == es.len() - 1 {
    } else {
        assert(es.drop_last()[i] == es[i]);
        lemma_extraction_creates_directories(es.drop_last(), i);
    }
}

/// The views of a sequence of read entries.
pub open spec fn views_of_entries(es: Seq<ZipEntry>) -> Seq<EntryV> {
    es.map_values(|e: ZipEntry| e@)
}

/// The views of a sequence of planned operations.
pub open spec fn views_of_ops(ops: Seq<FsOp>) -> Seq<FsOpV> {
    ops.map_values(|o: FsOp| o@)
}

proof fn lemma_plan_push(es: Seq<EntryV>, e: EntryV)
    ensures
        plan_of(es.push(e)) == plan_of(es) + entry_ops(e),
{
    assert(es.push(e).drop_last() =~= es);
    assert(es.push(e).last() == e);
}

proof fn lemma_entry_ops_safe(e: EntryV)
    ensures
        forall|i: int| 0 <= i < entry_ops(e).len() ==> op_is_safe(#[trigger] entry_ops(e)[i]),
{
    lemma_sanitize_safe(e.0);
    if spec_sanitize(e.0) is Some {
        let comps = spec_sanitize(e.0).unwrap();
        assert(path_is_safe(comps));
        if comps.len() > 0 {
            assert(path_is_safe(comps.drop_last())) by {
                assert forall|i: int|
                    0 <= i < comps.drop_last().len() implies is_normal_component(
                    #[trigger] comps.drop_last()[i],
                ) by {
                    assert(comps.drop_last()[i] == comps[i]);
                    assert(is_normal_component(comps[i]));
                }
            }
        }
        assert forall|i: int|
            0 <= i < entry_ops(e).len() implies op_is_safe(#[trigger] entry_ops(e)[i]) by {
            if is_dir_name(e.0) {
                assert(entry_ops(e)[0] == (FsOpV::MakeDir { path: comps, mode: e.1 }));
            } else if comps.len() > 1 {
                assert(entry_ops(e)[0] == (FsOpV::MakeDir { path: comps.drop_last(), mode: None }));
                assert(entry_ops(e)[1] == (FsOpV::WriteFile { path: comps, data: e.2, mode: e.1 }));
            } else {
                assert(entry_ops(e)[0] == (FsOpV::WriteFile { path: comps, data: e.2, mode: e.1 }));
            }
        }
    } else {
        assert(entry_ops(e).len() == 0);
    }
}

/// Path-traversal defense: every operation of an extraction plan stays
/// inside the destination root, whatever the archive's entries name.
pub proof fn lemma_plan_stays_within_destination(es: Seq<EntryV>)
    ensures
        forall|i: int| 0 <= i < plan_of(es).len() ==> op_is_safe(#[trigger] plan_of(es)[i]),
    decreases es.len(),
{
    if es.len() > 0 {
        lemma_plan_stays_within_destination(es.drop_last());
        lemma_entry_ops_safe(es.last());
        let pre = plan_of(es.drop_last());
        let tail = entry_ops(es.last());
        assert forall|i: int| 0 <= i < plan_of(es).len() implies op_is_safe(
            #[trigger] plan_of(es)[i],
        ) by {
            if i < pre.len() {
                assert(plan_of(es)[i] == pre[i]);
            } else {
                assert(plan_of(es)[i] == tail[i - pre.len()]);
            }
        }
    }
}

fn clone_components(v: &Vec<String>) -> (r: Vec<String>)
    ensures
        views_of(r@) == views_of(v@),
{
    let mut r: Vec<String> = Vec::new();
    let mut i: usize = 0;
    while i < v.len()
        invariant
            i <= v.len(),
            r@.len() == i,
            forall|j: int| 0 <= j < i ==> r@[j]@ == v@[j]@,
        decreases v.len() - i,
    {
        r.push(v[i].clone());
        i = i + 1;
    }
    assert(views_of(r@) =~= views_of(v@));
    r
}

/// Reads every entry of the zip container held in `bytes`, in container
/// order; fails with `ArchiveOpen` when the bytes are not a readable
/// container, and with `ArchiveRead` when some entry cannot be decompressed.
pub fn read_zip_entries(bytes: &Vec<u8>) -> (r: Result<Vec<ZipEntry>, Error>)
    ensures
        r is Ok <==> (zip_parse(bytes@) matches Some(cs) && all_readable(cs)),
        r matches Ok(es) ==> views_of_entries(es@) == entries_of(zip_parse(bytes@).unwrap()),
        r matches Err(e) ==> (e == Error::ArchiveOpen && zip_parse(bytes@) is None) || (e
            == Error::ArchiveRead && zip_parse(bytes@) is Some && !all_readable(
            zip_parse(bytes@).unwrap(),
        )),
{
    let mut archive = match zip_open(bytes) {
        Ok(a) => a,
        Err(e) => {
            return Err(e);
        },
    };
    let ghost cs = zip_contents(archive);
    let n = zip_len(&archive);
    let mut es: Vec<ZipEntry> = Vec::new();
    let mut i: usize = 0;
    while i < n
        invariant
            zip_parse(bytes@) == Some(cs),
            zip_contents(archive) == cs,
            n == cs.len(),
            i <= n,
            es@.len() == i,
            forall|j: int| 0 <= j < i ==> (#[trigger] cs[j]) is Some,
            forall|j: int| 0 <= j < i ==> cs[j] == Some((#[trigger] es@[j])@),
        decreases n - i,
    {
        match zip_entry(&mut archive, i) {
            Ok(e) => {
                es.push(e);
            },
            Err(err) => {
                proof {
                    assert(cs[i as int] is None);
                    assert(!all_readable(cs));
                }
                return Err(err);
            },
        }
        i = i + 1;
    }
    assert(views_of_entries(es@) =~= entries_of(cs));
    Ok(es)
}

/// Turns the entries into the extraction plan: unsafe names are skipped,
/// directory entries become directory creations, file entries become
/// ancestor creations and verbatim writes, in container order.
pub fn plan_entries(entries: Vec<ZipEntry>) -> (ops: Vec<FsOp>)
    ensures
        views_of_ops(ops@) == plan_of(views_of_entries(entries@)),
        forall|i: int| 0 <= i < ops@.len() ==> op_is_safe((#[trigger] ops@[i])@),
{
    let ghost all = entries@;
    let mut rest = entries;
    let mut ops: Vec<FsOp> = Vec::new();
    let ghost mut k: int = 0;
    while rest.len() > 0
        invariant
            0 <= k <= all.len(),
            rest@ == all.skip(k),
            views_of_ops(ops@) == plan_of(views_of_entries(all.take(k))),
        decreases rest.len(),
    {
        let e = rest.remove(0);
        let ghost ops_pre = views_of_ops(ops@);
        let ghost ev = e@;
        proof {
            assert(e == all[k]);
            assert(rest@ =~= all.skip(k + 1));
            assert(views_of_entries(all.take(k + 1)) =~= views_of_entries(all.take(k)).push(ev));
            lemma_plan_push(views_of_entries(all.take(k)), ev);
        }
        let ZipEntry { name, mode, data } = e;
        proof {
            assert(ev == (name@, mode, data@));
        }
        let nlen = name.as_str().unicode_len();
        let is_dir = nlen > 0 && name.as_str().get_char(nlen - 1) == '/';
        proof {
            assert(is_dir == is_dir_name(name@));
        }
        match sanitize_entry_path(name.as_str()) {
            None => {
                proof {
                    assert(views_of_ops(ops@) =~= ops_pre + entry_ops(ev));
                }
            },
            Some(comps) => {
                let ghost comps_v = views_of(comps@);
                if is_dir {
                    ops.push(FsOp::MakeDir { path: comps, mode });
                    proof {
                        assert(views_of_ops(ops@) =~= ops_pre + entry_ops(ev));
                    }
                } else if comps.len() > 1 {
                    let mut parent = clone_components(&comps);
                    parent.pop();
                    proof {
                        assert(views_of(parent@) =~= comps_v.drop_last());
                    }
                    ops.push(FsOp::MakeDir { path: parent, mode: None });
                    ops.push(FsOp::WriteFile { path: comps, data, mode });
                    proof {
                        assert(views_of_ops(ops@) =~= ops_pre + entry_ops(ev));
                    }
                } else {
                    ops.push(FsOp::WriteFile { path: comps, data, mode });
                    proof {
                        assert(views_of_ops(ops@) =~= ops_pre + entry_ops(ev));
                    }
                }
            },
        }
        proof {
            k = k + 1;
        }
    }
    proof {
        assert(all.take(k) =~= all);
        lemma_plan_stays_within_destination(views_of_entries(all));
        assert forall|i: int| 0 <= i < ops@.len() implies op_is_safe((#[trigger] ops@[i])@) by {
            assert(views_of_ops(ops@)[i] == (ops@[i])@);
            assert(op_is_safe(plan_of(views_of_entries(all))[i]));
        }
    }
    ops
}

/// Plans the extraction of the zip container held in `bytes`: exactly the
/// plan of its entries when every one is readable, the matching error
/// otherwise. Applying the plan in order under the destination root is the
/// whole extraction; no planned path can leave that root.
pub fn plan_extraction(bytes: &Vec<u8>) -> (r: Result<Vec<FsOp>, Error>)
    ensures
        r is Ok <==> (zip_parse(bytes@) matches Some(cs) && all_readable(cs)),
        r matches Ok(ops) ==> views_of_ops(ops@) == plan_of(
            entries_of(zip_parse(bytes@).unwrap()),
        ),
        r matches Ok(ops) ==> forall|i: int|
            0 <= i < ops@.len() ==> op_is_safe((#[trigger] ops@[i])@),
        r matches Err(e) ==> (e == Error::ArchiveOpen && zip_parse(bytes@) is None) || (e
            == Error::ArchiveRead && zip_parse(bytes@) is Some && !all_readable(
            zip_parse(bytes@).unwrap(),
        )),
{
    let es = match read_zip_entries(bytes) {
        Ok(es) => es,
        Err(e) => {
            return Err(e);
        },
    };
    Ok(plan_entries(es))
}

} // verus!
