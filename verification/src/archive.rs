use vstd::prelude::*;
use vstd::string::*;
use crate::errors::{ErrorKind, UpdateError};
use crate::strutil::string_eq_str;

verus! {

/// The components of `s` split on `/`; splitting the empty text yields one
/// empty component, and every separator opens a new component.
pub open spec fn spec_split(s: Seq<char>) -> Seq<Seq<char>>
    decreases s.len(),
{
    if s.len() == 0 {
        seq![Seq::<char>::empty()]
    } else if s.last() == '/' {
        spec_split(s.drop_last()).push(Seq::<char>::empty())
    } else {
        let prev = spec_split(s.drop_last());
        prev.update(prev.len() - 1, prev.last().push(s.last()))
    }
}

pub proof fn lemma_split_len(s: Seq<char>)
    ensures
        spec_split(s).len() >= 1,
    decreases s.len(),
{
    if s.len() != 0 {
        lemma_split_len(s.drop_last());
    }
}

/// Split a path into its `/`-separated components.
pub fn split_path(name: &str) -> (r: Vec<String>)
    ensures
        r@.map_values(|c: String| c@) == spec_split(name@),
{
    let n = name.unicode_len();
    let mut parts: Vec<String> = Vec::new();
    proof {
        assert(name@.take(0) =~= Seq::<char>::empty());
        assert(name@.subrange(0, 0) =~= Seq::<char>::empty());
        assert(parts@.map_values(|c: String| c@).push(name@.subrange(0, 0)) =~= seq![
            Seq::<char>::empty(),
        ]);
    }
    let mut start: usize = 0;
    let mut i: usize = 0;
    while i < n
        invariant
            start <= i <= n,
            n == name@.len(),
            spec_split(name@.take(i as int)) == parts@.map_values(|c: String| c@).push(
                name@.subrange(start as int, i as int),
            ),
        decreases n - i,
    {
        let ghost prefix = name@.take(i as int);
        let ghost longer = name@.take(i + 1);
        proof {
            assert(longer.drop_last() =~= prefix);
            assert(longer.last() == name@[i as int]);
        }
        let c = name.get_char(i);
        if c == '/' {
            let comp = name.substring_char(start, i);
            let owned = comp.to_owned();
            proof {
                assert(parts@.push(owned).map_values(|c: String| c@) =~= parts@.map_values(
                    |c: String| c@,
                ).push(owned@));
                assert(name@.subrange(i + 1, i + 1) =~= Seq::<char>::empty());
            }
            parts.push(owned);
            start = i + 1;
        } else {
            proof {
                let prev = spec_split(prefix);
                assert(prev.len() >= 1) by {
                    lemma_split_len(prefix);
                }
                assert(name@.subrange(start as int, i as int).push(name@[i as int])
                    =~= name@.subrange(start as int, i + 1));
                assert(spec_split(longer) =~= parts@.map_values(|c: String| c@).push(
                    name@.subrange(start as int, i + 1),
                ));
            }
        }
        i += 1;
    }
    let comp = name.substring_char(start, n);
    let owned = comp.to_owned();
    proof {
        assert(parts@.push(owned).map_values(|c: String| c@) =~= parts@.map_values(
            |c: String| c@,
        ).push(owned@));
        assert(name@.take(n as int) =~= name@);
    }
    parts.push(owned);
    parts
}

/// Remove the first path component when it equals the strip component: this
/// collapses an archive that wraps everything in one top-level folder.
pub open spec fn spec_strip_first(parts: Seq<Seq<char>>, strip: Seq<char>) -> Seq<Seq<char>> {
    if parts.len() > 0 && parts[0] == strip {
        parts.drop_first()
    } else {
        parts
    }
}

/// Lexically resolve a relative path: empty and `.` components vanish, `..`
/// removes the component before it, and `None` means the path would climb
/// above its root.
pub open spec fn spec_resolve(parts: Seq<Seq<char>>) -> Option<Seq<Seq<char>>>
    decreases parts.len(),
{
    if parts.len() == 0 {
        Option::Some(Seq::empty())
    } else {
        match spec_resolve(parts.drop_last()) {
            Option::None => Option::None,
            Option::Some(st) => {
                let c = parts.last();
                if c == Seq::<char>::empty() || c == "."@ {
                    Option::Some(st)
                } else if c == ".."@ {
                    if st.len() == 0 {
                        Option::None
                    } else {
                        Option::Some(st.drop_last())
                    }
                } else {
                    Option::Some(st.push(c))
                }
            },
        }
    }
}

/// Path safety: whatever a resolved path contains, it is made of plain
/// component names — no `..`, `.` or empty segment survives resolution, so
/// joining it under the destination root cannot leave that root.
pub proof fn lemma_resolve_stays_inside(parts: Seq<Seq<char>>, resolved: Seq<Seq<char>>)
    requires
        spec_resolve(parts) == Some(resolved),
    ensures
        forall|j: int|
            0 <= j < resolved.len() ==> resolved[j] != Seq::<char>::empty() && resolved[j] != "."@
                && resolved[j] != ".."@,
    decreases parts.len(),
{
    if parts.len() != 0 {
        let st = spec_resolve(parts.drop_last()).unwrap();
        lemma_resolve_stays_inside(parts.drop_last(), st);
        let c = parts.last();
        if c == Seq::<char>::empty() || c == "."@ {
        } else if c == ".."@ {
            assert(resolved =~= st.drop_last());
        } else {
            assert(resolved =~= st.push(c));
        }
    }
}

/// Once a prefix of the path escapes, the whole path escapes: later
/// components cannot re-enter the root.
proof fn lemma_resolve_none_extends(parts: Seq<Seq<char>>, k: int)
    requires
        0 <= k <= parts.len(),
        spec_resolve(parts.take(k)) is None,
    ensures
        spec_resolve(parts) is None,
    decreases parts.len() - k,
{
    if k < parts.len() {
        assert(parts.take(k + 1).drop_last() =~= parts.take(k));
        lemma_resolve_none_extends(parts, k + 1);
    } else {
        assert(parts.take(k) =~= parts);
    }
}

/// Resolve the components, rejecting any path that escapes its root.
fn resolve_components(parts: &Vec<String>) -> (r: Option<Vec<String>>)
    ensures
        match r {
            Option::Some(p) => spec_resolve(parts@.map_values(|c: String| c@)) == Some(
                p@.map_values(|c: String| c@),
            ),
            Option::None => spec_resolve(parts@.map_values(|c: String| c@)) is None,
        },
{
    let ghost gparts = parts@.map_values(|c: String| c@);
    let mut stack: Vec<String> = Vec::new();
    proof {
        assert(gparts.take(0) =~= Seq::<Seq<char>>::empty());
        assert(stack@.map_values(|c: String| c@) =~= Seq::<Seq<char>>::empty());
    }
    let mut i: usize = 0;
    while i < parts.len()
        invariant
            i <= parts@.len(),
            gparts == parts@.map_values(|c: String| c@),
            spec_resolve(gparts.take(i as int)) == Some(stack@.map_values(|c: String| c@)),
        decreases parts@.len() - i,
    {
        proof {
            assert(gparts.take(i + 1).drop_last() =~= gparts.take(i as int));
            assert(gparts.take(i + 1).last() == gparts[i as int]);
        }
        let comp = &parts[i];
        let comp_empty = comp.as_str().unicode_len() == 0;
        proof {
            if comp_empty {
                assert(comp@ =~= Seq::<char>::empty());
            }
        }
        if comp_empty || string_eq_str(comp, ".") {
            // component vanishes
        } else if string_eq_str(comp, "..") {
            if stack.len() == 0 {
                proof {
                    assert(spec_resolve(gparts.take(i + 1)) is None);
                    lemma_resolve_none_extends(gparts, i + 1);
                }
                return Option::None;
            }
            let _popped = stack.pop();
            proof {
                assert(stack@.map_values(|c: String| c@) =~= spec_resolve(
                    gparts.take(i as int),
                ).unwrap().drop_last());
            }
        } else {
            let ghost old_stack = stack@;
            stack.push(comp.clone());
            proof {
                assert(stack@.map_values(|c: String| c@) =~= old_stack.map_values(
                    |c: String| c@,
                ).push(gparts[i as int]));
            }
        }
        i += 1;
    }
    proof {
        assert(gparts.take(parts@.len() as int) =~= gparts);
    }
    Option::Some(stack)
}

/// A plain path component: free of the backslash and drive-colon characters
/// that a Windows path join would reinterpret as a separator or a root.
pub open spec fn spec_component_plain(c: Seq<char>) -> bool {
    forall|j: int| 0 <= j < c.len() ==> c[j] != '\\' && c[j] != ':'
}

/// Every component of the path is plain.
pub open spec fn spec_all_plain(parts: Seq<Seq<char>>) -> bool {
    forall|k: int| 0 <= k < parts.len() ==> spec_component_plain(parts[k])
}

/// Does the text hold a character a Windows path join would reinterpret?
fn has_special(c: &str) -> (r: bool)
    ensures
        r == !spec_component_plain(c@),
{
    let n = c.unicode_len();
    let mut i: usize = 0;
    while i < n
        invariant
            i <= n,
            n == c@.len(),
            forall|j: int| 0 <= j < i ==> c@[j] != '\\' && c@[j] != ':',
        decreases n - i,
    {
        let ch = c.get_char(i);
        if ch == '\\' || ch == ':' {
            return true;
        }
        i += 1;
    }
    false
}

/// Are all components plain?
fn all_plain(parts: &Vec<String>) -> (r: bool)
    ensures
        r == spec_all_plain(parts@.map_values(|c: String| c@)),
{
    let ghost gparts = parts@.map_values(|c: String| c@);
    let mut i: usize = 0;
    while i < parts.len()
        invariant
            i <= parts@.len(),
            gparts == parts@.map_values(|c: String| c@),
            forall|k: int| 0 <= k < i ==> spec_component_plain(#[trigger] gparts[k]),
        decreases parts@.len() - i,
    {
        if has_special(parts[i].as_str()) {
            proof {
                assert(!spec_component_plain(gparts[i as int]));
            }
            return false;
        }
        i += 1;
    }
    true
}

/// What extraction does with one archive entry.
#[derive(Debug, Clone, PartialEq, Eq)]
pub enum EntryPlan {
    /// Create this directory, given by its path components relative to the
    /// destination root (idempotent if already present).
    Dir(Vec<String>),
    /// Write this file, given by its path components relative to the
    /// destination root (overwriting an existing file).
    File(Vec<String>),
    /// The entry's path would escape the destination root: it is never
    /// written; the entry is reported and skipped.
    Reject,
}

/// The mathematical shape of an entry plan.
pub enum PlanModel {
    Dir(Seq<Seq<char>>),
    File(Seq<Seq<char>>),
    Reject,
}

impl View for EntryPlan {
    type V = PlanModel;

    open spec fn view(&self) -> PlanModel {
        match self {
            EntryPlan::Dir(p) => PlanModel::Dir(p@.map_values(|c: String| c@)),
            EntryPlan::File(p) => PlanModel::File(p@.map_values(|c: String| c@)),
            EntryPlan::Reject => PlanModel::Reject,
        }
    }
}

/// The plan for an archive entry named `name` under strip component `strip`:
/// an empty or absolute path is rejected; a trailing `/` marks a directory;
/// the first component is removed when it equals `strip`; the rest is
/// resolved lexically and rejected if it escapes the destination root, as
/// are a path with a component a Windows path join would reinterpret (a
/// backslash or a drive colon) and a file entry whose resolved path is
/// empty.
pub open spec fn spec_plan_entry(name: Seq<char>, strip: Seq<char>) -> PlanModel {
    if name.len() == 0 || name[0] == '/' {
        PlanModel::Reject
    } else {
        let is_dir = name.last() == '/';
        let parts0 = spec_split(name);
        let parts1 = if is_dir {
            parts0.drop_last()
        } else {
            parts0
        };
        let parts2 = spec_strip_first(parts1, strip);
        match spec_resolve(parts2) {
            Option::None => PlanModel::Reject,
            Option::Some(p) => if !spec_all_plain(p) {
                PlanModel::Reject
            } else if is_dir {
                PlanModel::Dir(p)
            } else if p.len() == 0 {
                PlanModel::Reject
            } else {
                PlanModel::File(p)
            },
        }
    }
}

/// Path safety of entry planning: an entry is either rejected or planned at
/// a path made only of plain, non-special component names, so writing it
/// under the destination root can never leave that root.
pub proof fn lemma_plan_entry_stays_inside(name: Seq<char>, strip: Seq<char>)
    ensures
        match spec_plan_entry(name, strip) {
            PlanModel::Dir(p) => forall|j: int|
                0 <= j < p.len() ==> p[j] != Seq::<char>::empty() && p[j] != "."@ && p[j] != ".."@
                    && spec_component_plain(p[j]),
            PlanModel::File(p) => forall|j: int|
                0 <= j < p.len() ==> p[j] != Seq::<char>::empty() && p[j] != "."@ && p[j] != ".."@
                    && spec_component_plain(p[j]),
            PlanModel::Reject => true,
        },
{
    if name.len() != 0 && name[0] != '/' {
        let is_dir = name.last() == '/';
        let parts0 = spec_split(name);
        let parts1 = if is_dir {
            parts0.drop_last()
        } else {
            parts0
        };
        let parts2 = spec_strip_first(parts1, strip);
        match spec_resolve(parts2) {
            Option::None => {},
            Option::Some(p) => {
                lemma_resolve_stays_inside(parts2, p);
            },
        }
    }
}

/// Compute the plan for one archive entry: its output path relative to the
/// destination root, or a rejection when the path would escape that root.
pub fn plan_entry(name: &str, strip: &str) -> (r: EntryPlan)
    ensures
        r@ == spec_plan_entry(name@, strip@),
{
    let n = name.unicode_len();
    if n == 0 {
        return EntryPlan::Reject;
    }
    if name.get_char(0) == '/' {
        return EntryPlan::Reject;
    }
    let is_dir = name.get_char(n - 1) == '/';
    let mut parts = split_path(name);
    proof {
        lemma_split_len(name@);
    }
    if is_dir {
        let _marker = parts.pop();
        proof {
            assert(parts@.map_values(|c: String| c@) =~= spec_split(name@).drop_last());
        }
    }
    let stripped_first = parts.len() > 0 && string_eq_str(&parts[0], strip);
    if stripped_first {
        let _first = parts.remove(0);
        proof {
            assert(parts@.map_values(|c: String| c@) =~= spec_strip_first(
                if name@.last() == '/' {
                    spec_split(name@).drop_last()
                } else {
                    spec_split(name@)
                },
                strip@,
            ));
        }
    }
    match resolve_components(&parts) {
        Option::None => EntryPlan::Reject,
        Option::Some(p) => {
            if !all_plain(&p) {
                EntryPlan::Reject
            } else if is_dir {
                EntryPlan::Dir(p)
            } else if p.len() == 0 {
                EntryPlan::Reject
            } else {
                EntryPlan::File(p)
            }
        },
    }
}

#[verifier::external_type_specification]
#[verifier::external_body]
pub struct ExZipError(zip::result::ZipError);

/// An opened release archive: a zip container over its in-memory bytes.
#[verifier::external_body]
pub struct Archive {
    inner: zip::ZipArchive<std::io::Cursor<Vec<u8>>>,
}

/// The entries of an opened archive, in index order: each entry's path text
/// and its decompressed contents.
pub uninterp spec fn spec_entries(a: Archive) -> Seq<(Seq<char>, Seq<u8>)>;

/// Whether every entry of an opened archive can be opened and fully
/// decompressed; over an in-memory cursor this depends on the archive
/// alone.
pub uninterp spec fn spec_readable(a: Archive) -> bool;

/// The fully readable entry list that the bytes of a zip archive parse to:
/// `None` when the container is corrupt or any entry cannot be opened and
/// decompressed; it depends on the bytes alone.
pub uninterp spec fn spec_zip_parse(bytes: Seq<u8>) -> Option<Seq<(Seq<char>, Seq<u8>)>>;

/// Relies on zip::ZipArchive::new over an in-memory cursor: it errs exactly
/// on a corrupt container, and the entries of an archive it opens are
/// readable exactly when the bytes have a fully readable listing, which
/// they then equal.
#[verifier::external_body]
fn open_archive(bytes: Vec<u8>) -> (r: Result<Archive, zip::result::ZipError>)
    ensures
        r matches Ok(a) ==> (spec_readable(a) <==> spec_zip_parse(bytes@) is Some),
        r matches Ok(a) ==> (spec_zip_parse(bytes@) matches Some(es) ==> spec_entries(a) == es),
        r is Err ==> spec_zip_parse(bytes@) is None,
{
    match zip::ZipArchive::new(std::io::Cursor::new(bytes)) {
        Ok(inner) => Ok(Archive { inner }),
        Err(e) => Err(e),
    }
}

/// Relies on zip::ZipArchive::len: the number of entries in the archive.
#[verifier::external_body]
fn archive_len(a: &Archive) -> (n: usize)
    ensures
        n == spec_entries(*a).len(),
{
    a.inner.len()
}

/// Relies on zip::ZipArchive::by_index and zip::read::ZipFile::name: the
/// stored path text of the entry at this index, which it returns whenever
/// the archive is readable.
#[verifier::external_body]
fn entry_name(a: &mut Archive, i: usize) -> (r: Result<String, zip::result::ZipError>)
    requires
        i < spec_entries(*old(a)).len(),
    ensures
        spec_entries(*final(a)) == spec_entries(*old(a)),
        spec_readable(*final(a)) == spec_readable(*old(a)),
        r matches Ok(s) ==> s@ == spec_entries(*old(a))[i as int].0,
        spec_readable(*old(a)) ==> r is Ok,
{
    match a.inner.by_index(i) {
        Ok(f) => Ok(f.name().to_owned()),
        Err(e) => Err(e),
    }
}

/// Relies on zip::ZipArchive::by_index and std::io::Read::read_to_end on the
/// entry: the decompressed contents of the entry at this index, which it
/// returns whenever the archive is readable.
#[verifier::external_body]
fn entry_data(a: &mut Archive, i: usize) -> (r: Result<Vec<u8>, zip::result::ZipError>)
    requires
        i < spec_entries(*old(a)).len(),
    ensures
        spec_entries(*final(a)) == spec_entries(*old(a)),
        spec_readable(*final(a)) == spec_readable(*old(a)),
        r matches Ok(d) ==> d@ == spec_entries(*old(a))[i as int].1,
        spec_readable(*old(a)) ==> r is Ok,
{
    match a.inner.by_index(i) {
        Ok(mut f) => {
            let mut buf: Vec<u8> = Vec::new();
            match std::io::Read::read_to_end(&mut f, &mut buf) {
                Ok(_) => Ok(buf),
                Err(e) => Err(zip::result::ZipError::Io(e)),
            }
        },
        Err(e) => Err(e),
    }
}

/// One write that extraction calls for.
#[derive(Debug, Clone, PartialEq, Eq)]
pub enum ExtractAction {
    /// Create this directory under the destination root.
    MakeDir(Vec<String>),
    /// Write this file under the destination root, with these contents.
    WriteFile(Vec<String>, Vec<u8>),
}

/// The mathematical shape of an extraction write.
pub enum ActionModel {
    MakeDir(Seq<Seq<char>>),
    WriteFile(Seq<Seq<char>>, Seq<u8>),
}

impl View for ExtractAction {
    type V = ActionModel;

    open spec fn view(&self) -> ActionModel {
        match self {
            ExtractAction::MakeDir(p) => ActionModel::MakeDir(p@.map_values(|c: String| c@)),
            ExtractAction::WriteFile(p, d) => ActionModel::WriteFile(
                p@.map_values(|c: String| c@),
                d@,
            ),
        }
    }
}

/// What extracting an archive comes to: the writes to perform, in entry
/// order, and how many entries the path check rejected.
#[derive(Debug)]
pub struct ExtractReport {
    pub actions: Vec<ExtractAction>,
    pub skipped: usize,
}

/// The mathematical shape of an extraction report.
pub struct ReportModel {
    pub actions: Seq<ActionModel>,
    pub skipped: nat,
}

impl View for ExtractReport {
    type V = ReportModel;

    open spec fn view(&self) -> ReportModel {
        ReportModel {
            actions: self.actions@.map_values(|a: ExtractAction| a@),
            skipped: self.skipped as nat,
        }
    }
}

impl ExtractReport {
    /// The count of entries written.
    pub fn written(&self) -> (n: usize)
        ensures
            n == self@.actions.len(),
    {
        self.actions.len()
    }

    /// The path-escape report: exactly when entries were rejected by the
    /// path check, an error of kind `ArchivePath` for the caller to log or
    /// display. Rejections are recovered per entry and never abort the run,
    /// so the error stands beside the report rather than replacing it.
    pub fn path_error(&self) -> (r: Option<UpdateError>)
        ensures
            r is Some <==> self@.skipped > 0,
            r matches Some(e) ==> e.kind == ErrorKind::ArchivePath,
    {
        if self.skipped > 0 {
            Some(
                UpdateError::new(
                    ErrorKind::ArchivePath,
                    "archive entries whose paths would escape the destination root were skipped".to_owned(),
                ),
            )
        } else {
            None
        }
    }
}

/// The writes and the rejection count that the first `i` entries call for.
/// Entry 0 is the archive's conventional root folder and contributes
/// nothing.
pub open spec fn spec_extract_upto(
    entries: Seq<(Seq<char>, Seq<u8>)>,
    strip: Seq<char>,
    i: int,
) -> (Seq<ActionModel>, nat)
    decreases i,
{
    if i <= 1 {
        (Seq::empty(), 0)
    } else {
        let prev = spec_extract_upto(entries, strip, i - 1);
        match spec_plan_entry(entries[i - 1].0, strip) {
            PlanModel::Dir(p) => (prev.0.push(ActionModel::MakeDir(p)), prev.1),
            PlanModel::File(p) => (
                prev.0.push(ActionModel::WriteFile(p, entries[i - 1].1)),
                prev.1,
            ),
            PlanModel::Reject => (prev.0, (prev.1 + 1) as nat),
        }
    }
}

/// The writes and the rejection count that a whole entry list calls for.
pub open spec fn spec_extract(entries: Seq<(Seq<char>, Seq<u8>)>, strip: Seq<char>) -> (
    Seq<ActionModel>,
    nat,
) {
    spec_extract_upto(entries, strip, entries.len() as int)
}

/// Walk the archive and plan every entry; a readable archive always yields
/// a report.
fn extract_entries(a: &mut Archive, strip: &str) -> (r: Result<ExtractReport, UpdateError>)
    ensures
        spec_entries(*final(a)) == spec_entries(*old(a)),
        spec_readable(*old(a)) ==> r is Ok,
        r matches Ok(rep) ==> rep@.actions == spec_extract(spec_entries(*old(a)), strip@).0
            && rep@.skipped == spec_extract(spec_entries(*old(a)), strip@).1,
        r matches Err(e) ==> e.kind == ErrorKind::Archive && !spec_readable(*old(a)),
{
    let ghost entries = spec_entries(*a);
    let len = archive_len(a);
    let mut actions: Vec<ExtractAction> = Vec::new();
    let mut skipped: usize = 0;
    proof {
        assert(actions@.map_values(|x: ExtractAction| x@) =~= Seq::<ActionModel>::empty());
    }
    let mut i: usize = 1;
    while i < len
        invariant
            1 <= i,
            i <= len || i == 1,
            len == entries.len(),
            entries == spec_entries(*a),
            spec_entries(*a) == spec_entries(*old(a)),
            spec_readable(*a) == spec_readable(*old(a)),
            skipped < i,
            (actions@.map_values(|x: ExtractAction| x@), skipped as nat) == spec_extract_upto(
                entries,
                strip@,
                i as int,
            ),
        decreases len - i,
    {
        let name = match entry_name(a, i) {
            Ok(s) => s,
            Err(_) => {
                return Err(UpdateError::new(
                    ErrorKind::Archive,
                    "an archive entry could not be read".to_owned(),
                ));
            },
        };
        let plan = plan_entry(name.as_str(), strip);
        match plan {
            EntryPlan::Dir(p) => {
                let ghost before = actions@;
                actions.push(ExtractAction::MakeDir(p));
                proof {
                    assert(actions@.map_values(|x: ExtractAction| x@) =~= before.map_values(
                        |x: ExtractAction| x@,
                    ).push(ActionModel::MakeDir(p@.map_values(|c: String| c@))));
                }
            },
            EntryPlan::File(p) => {
                let data = match entry_data(a, i) {
                    Ok(d) => d,
                    Err(_) => {
                        return Err(UpdateError::new(
                            ErrorKind::Archive,
                            "an archive entry could not be decompressed".to_owned(),
                        ));
                    },
                };
                let ghost before = actions@;
                let ghost gdata = data@;
                let ghost gp = p@.map_values(|c: String| c@);
                actions.push(ExtractAction::WriteFile(p, data));
                proof {
                    assert(actions@.map_values(|x: ExtractAction| x@) =~= before.map_values(
                        |x: ExtractAction| x@,
                    ).push(ActionModel::WriteFile(gp, gdata)));
                }
            },
            EntryPlan::Reject => {
                skipped = skipped + 1;
            },
        }
        i = i + 1;
    }
    Ok(ExtractReport { actions, skipped })
}

/// Unpack a downloaded release archive, given its bytes and the strip
/// component: plan every entry of the archive, skipping entry 0 and
/// counting — never writing — entries whose path would escape the
/// destination root. Whenever the bytes have a fully readable listing the
/// report is owed and exact; an error comes only from an archive whose
/// container or entries cannot be read.
pub fn extract_zip(bytes: Vec<u8>, strip: &str) -> (r: Result<ExtractReport, UpdateError>)
    ensures
        spec_zip_parse(bytes@) matches Some(es) ==> r matches Ok(rep) && rep@.actions
            == spec_extract(es, strip@).0 && rep@.skipped == spec_extract(es, strip@).1,
        r matches Err(e) ==> e.kind == ErrorKind::Archive && spec_zip_parse(bytes@) is None,
{
    match open_archive(bytes) {
        Ok(mut archive) => extract_entries(&mut archive, strip),
        Err(_) => Err(UpdateError::new(
            ErrorKind::Archive,
            "the downloaded archive is not a readable zip container".to_owned(),
        )),
    }
}

} // verus!
