//! Building the catalog from a listing of the root, classifying the
//! version-control probe, and preparing a new project's record.
use vstd::prelude::*;
use vstd::string::StringExecFns;
use vstd::string::StrSliceExecFns;
use vstd::multiset::Multiset;
use crate::project::{Project, ProjectConfig, ProjectView, VcsState};
use crate::session::catalog_views;

verus! {

broadcast use vstd::seq_lib::to_multiset_insert, vstd::seq_lib::group_to_multiset_ensures, vstd::multiset::group_multiset_axioms;

/// One immediate entry of the root, with what was read about it.
pub struct ScanEntry {
    /// Absolute path of the entry.
    pub path: String,
    /// The entry's base name.
    pub name: String,
    pub is_dir: bool,
    /// The sidecar record, if one was present and parsed.
    pub config: Option<ProjectConfig>,
    pub vcs_state: Option<VcsState>,
}

/// What the version-control client reported for one directory.
pub struct ProbeOutput {
    /// Whether the client exited successfully.
    pub exit_ok: bool,
    /// What it wrote to standard output.
    pub stdout: Vec<u8>,
}

/// Why creating a project failed.
#[derive(Clone, Copy, Debug, PartialEq, Eq, Structural)]
pub enum CreateError {
    /// The path of the new project is already taken.
    AlreadyExists,
    /// The record could not be made, serialised or written.
    WriteError,
}

/// The project that an entry becomes.
pub open spec fn entry_project(e: ScanEntry) -> ProjectView {
    ProjectView {
        path: e.path@,
        dir_name: e.name@,
        config: match e.config {
            Some(c) => Some(c@),
            None => None,
        },
        vcs_state: e.vcs_state,
    }
}

/// The projects of the directory entries, in listing order.
pub open spec fn dir_projects(entries: Seq<ScanEntry>) -> Seq<ProjectView>
    decreases entries.len(),
{
    if entries.len() == 0 {
        Seq::empty()
    } else if entries.last().is_dir {
        dir_projects(entries.drop_last()).push(entry_project(entries.last()))
    } else {
        dir_projects(entries.drop_last())
    }
}

/// `a` comes before `b`, or equals it, comparing code points from the left.
pub open spec fn name_le(a: Seq<char>, b: Seq<char>) -> bool
    decreases a.len(),
{
    if a.len() == 0 {
        true
    } else if b.len() == 0 {
        false
    } else if a[0] != b[0] {
        (a[0] as int) < (b[0] as int)
    } else {
        name_le(a.drop_first(), b.drop_first())
    }
}

/// Each project's directory name is at most the next one's.
pub open spec fn sorted_by_name(c: Seq<ProjectView>) -> bool {
    forall|i: int| 0 <= i < c.len() - 1 ==> name_le(#[trigger] c[i].dir_name, c[i + 1].dir_name)
}

/// Any two names are ordered one way or the other.
pub proof fn name_le_total(a: Seq<char>, b: Seq<char>)
    ensures
        name_le(a, b) || name_le(b, a),
    decreases a.len(),
{
    if a.len() > 0 && b.len() > 0 {
        if a[0] == b[0] {
            name_le_total(a.drop_first(), b.drop_first());
        } else {
            assert((a[0] as int) != (b[0] as int));
        }
    }
}

/// The order on names is transitive.
pub proof fn name_le_transitive(a: Seq<char>, b: Seq<char>, c: Seq<char>)
    requires
        name_le(a, b),
        name_le(b, c),
    ensures
        name_le(a, c),
    decreases a.len(),
{
    if a.len() > 0 && b.len() > 0 && c.len() > 0 && a[0] == b[0] && b[0] == c[0] {
        name_le_transitive(a.drop_first(), b.drop_first(), c.drop_first());
    }
}

/// In a catalog sorted by name, every name is at most every later one.
pub proof fn sorted_pairwise(c: Seq<ProjectView>, i: int, j: int)
    requires
        sorted_by_name(c),
        0 <= i <= j < c.len(),
    ensures
        name_le(c[i].dir_name, c[j].dir_name),
    decreases j - i,
{
    if i == j {
        name_le_total(c[i].dir_name, c[i].dir_name);
    } else {
        sorted_pairwise(c, i, j - 1);
        assert(name_le(c[j - 1].dir_name, c[j].dir_name));
        name_le_transitive(c[i].dir_name, c[j - 1].dir_name, c[j].dir_name);
    }
}

/// Whether `a` comes before `b` or equals it, comparing code points from the left.
pub fn name_le_exec(a: &str, b: &str) -> (r: bool)
    ensures
        r == name_le(a@, b@),
{
    let na = a.unicode_len();
    let nb = b.unicode_len();
    let mut i: usize = 0;
    proof {
        assert(a@.subrange(0, na as int) =~= a@);
        assert(b@.subrange(0, nb as int) =~= b@);
    }
    while i < na && i < nb
        invariant
            na == a@.len(),
            nb == b@.len(),
            i <= na,
            i <= nb,
            name_le(a@, b@) == name_le(a@.subrange(i as int, na as int), b@.subrange(i as int, nb as int)),
        decreases na - i,
    {
        let ca = a.get_char(i);
        let cb = b.get_char(i);
        if ca != cb {
            return (ca as u32) < (cb as u32);
        }
        proof {
            assert(a@.subrange(i as int, na as int).drop_first() =~= a@.subrange(i + 1, na as int));
            assert(b@.subrange(i as int, nb as int).drop_first() =~= b@.subrange(i + 1, nb as int));
        }
        i += 1;
    }
    i >= na
}

/// The catalog of a listing of the root: its directories, each as a project,
/// ordered by directory name.
pub fn build_catalog(entries: Vec<ScanEntry>) -> (r: Vec<Project>)
    ensures
        sorted_by_name(catalog_views(r@)),
        forall|i: int, j: int|
            0 <= i <= j < r@.len() ==> name_le(
                #[trigger] catalog_views(r@)[i].dir_name,
                #[trigger] catalog_views(r@)[j].dir_name,
            ),
        catalog_views(r@).to_multiset() == dir_projects(entries@).to_multiset(),
{
    let mut rest = entries;
    let mut r: Vec<Project> = Vec::new();
    proof {
        assert(catalog_views(r@) =~= Seq::<ProjectView>::empty());
    }
    while rest.len() > 0
        invariant
            sorted_by_name(catalog_views(r@)),
            catalog_views(r@).to_multiset().add(dir_projects(rest@).to_multiset())
                == dir_projects(entries@).to_multiset(),
        decreases rest.len(),
    {
        let ghost before = rest@;
        let e = rest.pop().unwrap();
        proof {
            assert(before =~= rest@.push(e));
            assert(before.drop_last() =~= rest@);
        }
        if e.is_dir {
            let p = Project {
                path: e.path,
                dir_name: e.name,
                config: e.config,
                vcs_state: e.vcs_state,
            };
            let mut k: usize = 0;
            while k < r.len() && name_le_exec(r[k].dir_name.as_str(), p.dir_name.as_str())
                invariant
                    k <= r.len(),
                    k > 0 ==> name_le(r@[k - 1]@.dir_name, p@.dir_name),
                decreases r.len() - k,
            {
                k += 1;
            }
            let ghost old_r = catalog_views(r@);
            let ghost pv = p@;
            proof {
                if k < r.len() {
                    name_le_total(r@[k as int]@.dir_name, pv.dir_name);
                }
            }
            r.insert(k, p);
            proof {
                assert(catalog_views(r@) =~= old_r.insert(k as int, pv));
                assert(pv == entry_project(e));
                let c = catalog_views(r@);
                assert forall|i: int| 0 <= i < c.len() - 1 implies name_le(
                    #[trigger] c[i].dir_name,
                    c[i + 1].dir_name,
                ) by {
                    if i < k - 1 {
                        assert(c[i] == old_r[i] && c[i + 1] == old_r[i + 1]);
                    } else if i == k - 1 {
                    } else if i == k {
                    } else {
                        assert(c[i] == old_r[i - 1] && c[i + 1] == old_r[i]);
                    }
                }
                assert(dir_projects(before) == dir_projects(rest@).push(pv));
                vstd::seq_lib::to_multiset_build(dir_projects(rest@), pv);
                assert(c.to_multiset().add(dir_projects(rest@).to_multiset()) =~= old_r.to_multiset().add(
                    dir_projects(before).to_multiset(),
                ));
            }
        } else {
            proof {
                assert(dir_projects(before) == dir_projects(rest@));
            }
        }
    }
    proof {
        assert(dir_projects(rest@) =~= Seq::<ProjectView>::empty());
        assert(dir_projects(rest@).to_multiset() =~= Multiset::empty());
        assert(catalog_views(r@).to_multiset().add(Multiset::empty()) =~= catalog_views(r@).to_multiset());
        assert forall|i: int, j: int| 0 <= i <= j < r@.len() implies name_le(
            #[trigger] catalog_views(r@)[i].dir_name,
            #[trigger] catalog_views(r@)[j].dir_name,
        ) by {
            sorted_pairwise(catalog_views(r@), i, j);
        }
    }
    r
}

/// The state a probe shows: none without a marker or when the probe failed,
/// else clean exactly when the client reported no pending change.
pub open spec fn vcs_state_spec(has_marker: bool, probe: Option<ProbeOutput>) -> Option<VcsState> {
    if !has_marker {
        None
    } else {
        match probe {
            None => None,
            Some(o) => if !o.exit_ok {
                None
            } else if o.stdout@.len() == 0 {
                Some(VcsState::Clean)
            } else {
                Some(VcsState::Modified)
            },
        }
    }
}

/// Classifies a directory's version-control probe; `probe` is `None` when the
/// client could not be run.
pub fn vcs_state_of(has_marker: bool, probe: &Option<ProbeOutput>) -> (r: Option<VcsState>)
    ensures
        r == vcs_state_spec(has_marker, *probe),
{
    if !has_marker {
        return None;
    }
    match probe {
        None => None,
        Some(o) => {
            if !o.exit_ok {
                None
            } else if o.stdout.len() == 0 {
                Some(VcsState::Clean)
            } else {
                Some(VcsState::Modified)
            }
        },
    }
}

/// `s` without the slashes that end it.
pub open spec fn strip_trailing_slashes(s: Seq<char>) -> Seq<char>
    decreases s.len(),
{
    if s.len() > 0 && s.last() == '/' {
        strip_trailing_slashes(s.drop_last())
    } else {
        s
    }
}

/// The part of `s` after its last slash; all of `s` if it has none.
pub open spec fn after_last_slash(s: Seq<char>) -> Seq<char>
    decreases s.len(),
{
    if s.len() == 0 {
        s
    } else if s.last() == '/' {
        Seq::empty()
    } else {
        after_last_slash(s.drop_last()).push(s.last())
    }
}

/// The last segment of a slash-separated path; trailing slashes are ignored.
pub open spec fn final_segment_spec(s: Seq<char>) -> Seq<char> {
    after_last_slash(strip_trailing_slashes(s))
}

/// The last segment of a slash-separated path; trailing slashes are ignored.
pub fn final_segment(s: &str) -> (r: String)
    ensures
        r@ == final_segment_spec(s@),
{
    let n = s.unicode_len();
    let mut b: usize = n;
    proof {
        assert(s@.subrange(0, n as int) =~= s@);
    }
    while b > 0 && s.get_char(b - 1) == '/'
        invariant
            n == s@.len(),
            b <= n,
            strip_trailing_slashes(s@) == strip_trailing_slashes(s@.subrange(0, b as int)),
        decreases b,
    {
        proof {
            assert(s@.subrange(0, b as int).drop_last() =~= s@.subrange(0, b - 1));
        }
        b -= 1;
    }
    let mut a: usize = b;
    proof {
        assert(s@.subrange(a as int, b as int) =~= Seq::<char>::empty());
    }
    while a > 0 && s.get_char(a - 1) != '/'
        invariant
            n == s@.len(),
            a <= b <= n,
            final_segment_spec(s@) == after_last_slash(s@.subrange(0, a as int)) + s@.subrange(
                a as int,
                b as int,
            ),
        decreases a,
    {
        proof {
            let pre = s@.subrange(0, a as int);
            assert(pre.drop_last() =~= s@.subrange(0, a - 1));
            assert(s@.subrange(a - 1, b as int) =~= seq![pre.last()] + s@.subrange(a as int, b as int));
            assert(after_last_slash(pre) == after_last_slash(s@.subrange(0, a - 1)).push(pre.last()));
            assert(after_last_slash(s@.subrange(0, a - 1)).push(pre.last()) + s@.subrange(
                a as int,
                b as int,
            ) =~= after_last_slash(s@.subrange(0, a - 1)) + s@.subrange(a - 1, b as int));
        }
        a -= 1;
    }
    proof {
        let pre = s@.subrange(0, a as int);
        assert(after_last_slash(pre) =~= Seq::<char>::empty());
        assert(final_segment_spec(s@) =~= s@.subrange(a as int, b as int));
    }
    let t = s.substring_char(a, b);
    String::from_str(t)
}

/// The shape of every UTC timestamp in RFC 3339 text: it holds a `T`
/// between date and time and ends with the offset `+00:00`.
pub open spec fn utc_rfc3339_shape(s: Seq<char>) -> bool {
    &&& s.len() >= 6
    &&& s.subrange(s.len() - 6, s.len() as int) == "+00:00"@
    &&& exists|i: int| 0 <= i < s.len() && #[trigger] s[i] == 'T'
}

/// Relies on std's `SystemTime::now` and `SystemTime::duration_since`, and on
/// chrono's `DateTime::from_timestamp` and `DateTime::to_rfc3339`: the current
/// instant as RFC 3339 text in UTC, written with a `T` between date and time
/// and, the offset being zero, ending in `+00:00`. `None` when the clock reads
/// before 1970 or beyond what chrono can represent.
#[verifier::external_body]
fn now_rfc3339() -> (r: Option<String>)
    ensures
        r is Some ==> utc_rfc3339_shape(r->0@),
{
    let since = std::time::SystemTime::now().duration_since(std::time::UNIX_EPOCH).ok()?;
    let secs = i64::try_from(since.as_secs()).ok()?;
    match chrono::DateTime::from_timestamp(secs, since.subsec_nanos()) {
        Some(t) => Some(t.to_rfc3339()),
        None => None,
    }
}

/// A fresh record for a project created under the path `name`: named after
/// the path's last segment, with no description, no tags, and `created_at`.
pub fn default_config_at(name: &str, created_at: String) -> (r: ProjectConfig)
    requires
        final_segment_spec(name@).len() > 0,
    ensures
        r@.name == final_segment_spec(name@),
        r@.description.len() == 0,
        r@.tags.len() == 0,
        r@.created_at == created_at@,
{
    let r = ProjectConfig {
        name: final_segment(name),
        description: String::new(),
        tags: Vec::new(),
        created_at,
    };
    proof {
        assert(r@.tags =~= Seq::<Seq<char>>::empty());
    }
    r
}

/// The first step of creating the project `name`, given the current instant
/// `now` as text (`None` when the clock could not be read): `AlreadyExists`
/// when the path is taken; else `WriteError` without an instant, since no
/// record can be made; else the record to write.
pub fn create_record(name: &str, path_exists: bool, now: Option<String>) -> (r: Result<
    ProjectConfig,
    CreateError,
>)
    requires
        !path_exists ==> final_segment_spec(name@).len() > 0,
    ensures
        path_exists ==> r == Err::<ProjectConfig, CreateError>(CreateError::AlreadyExists),
        !path_exists && now is None ==> r == Err::<ProjectConfig, CreateError>(
            CreateError::WriteError,
        ),
        !path_exists && now is Some ==> r is Ok && r->Ok_0@.name == final_segment_spec(name@)
            && r->Ok_0@.description.len() == 0 && r->Ok_0@.tags.len() == 0
            && r->Ok_0@.created_at == now->0@,
{
    if path_exists {
        return Err(CreateError::AlreadyExists);
    }
    match now {
        Some(t) => Ok(default_config_at(name, t)),
        None => Err(CreateError::WriteError),
    }
}

/// Decides the first step of creating the project `name`: it fails with
/// `AlreadyExists` exactly when its path is taken; otherwise it gives the
/// record to write, stamped with the current instant, or `WriteError` when the
/// clock cannot be read. A free path must have a last segment to name the
/// project after.
pub fn prepare_create(name: &str, path_exists: bool) -> (r: Result<ProjectConfig, CreateError>)
    requires
        !path_exists ==> final_segment_spec(name@).len() > 0,
    ensures
        path_exists ==> r == Err::<ProjectConfig, CreateError>(CreateError::AlreadyExists),
        !path_exists ==> r is Ok || r == Err::<ProjectConfig, CreateError>(
            CreateError::WriteError,
        ),
        r is Ok ==> r->Ok_0@.name == final_segment_spec(name@) && r->Ok_0@.description.len() == 0
            && r->Ok_0@.tags.len() == 0 && utc_rfc3339_shape(r->Ok_0@.created_at),
{
    if path_exists {
        return Err(CreateError::AlreadyExists);
    }
    let now = now_rfc3339();
    create_record(name, path_exists, now)
}

} // verus!
