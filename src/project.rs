//! Projects: a directory under the root, with an optional sidecar record and
//! an optional version-control state.
use vstd::prelude::*;
use vstd::string::StringExecFns;
use crate::text::{is_substring, join, join_spec, lower_of, to_lower, views, contains};

verus! {

/// The sidecar record kept in a project directory.
#[derive(Clone, Debug, PartialEq, Eq)]
pub struct ProjectConfig {
    pub name: String,
    pub description: String,
    pub tags: Vec<String>,
    pub created_at: String,
}

/// What the version-control probe reports for a directory that has a marker.
#[derive(Clone, Copy, Debug, PartialEq, Eq, Structural)]
pub enum VcsState {
    Clean,
    Modified,
}

/// One immediate subdirectory of the root.
#[derive(Clone, Debug, PartialEq, Eq)]
pub struct Project {
    /// Absolute path of the directory.
    pub path: String,
    /// The directory's base name.
    pub dir_name: String,
    pub config: Option<ProjectConfig>,
    pub vcs_state: Option<VcsState>,
}

pub struct ProjectConfigView {
    pub name: Seq<char>,
    pub description: Seq<char>,
    pub tags: Seq<Seq<char>>,
    pub created_at: Seq<char>,
}

pub struct ProjectView {
    pub path: Seq<char>,
    pub dir_name: Seq<char>,
    pub config: Option<ProjectConfigView>,
    pub vcs_state: Option<VcsState>,
}

impl View for ProjectConfig {
    type V = ProjectConfigView;

    open spec fn view(&self) -> ProjectConfigView {
        ProjectConfigView {
            name: self.name@,
            description: self.description@,
            tags: views(self.tags@),
            created_at: self.created_at@,
        }
    }
}

impl View for Project {
    type V = ProjectView;

    open spec fn view(&self) -> ProjectView {
        ProjectView {
            path: self.path@,
            dir_name: self.dir_name@,
            config: match self.config {
                Some(c) => Some(c@),
                None => None,
            },
            vcs_state: self.vcs_state,
        }
    }
}

/// The name shown for a project: its record's name, else its directory's name.
pub open spec fn display_name(p: ProjectView) -> Seq<char> {
    match p.config {
        Some(c) => c.name,
        None => p.dir_name,
    }
}

/// The project's tags; none without a record.
pub open spec fn tags_of(p: ProjectView) -> Seq<Seq<char>> {
    match p.config {
        Some(c) => c.tags,
        None => Seq::empty(),
    }
}

/// The text a filter is matched against: the folded display name, a space,
/// and the folded tags joined by commas.
pub open spec fn haystack(p: ProjectView) -> Seq<char> {
    lower_of(display_name(p)) + seq![' '] + join_spec(
        tags_of(p).map_values(|t: Seq<char>| lower_of(t)),
        seq![','],
    )
}

/// Whether a project is kept by a filter whose folded text is `needle`.
pub open spec fn kept_by(p: ProjectView, needle: Seq<char>) -> bool {
    is_substring(needle, haystack(p))
}

/// The marker shown after a project's name for its version-control state.
pub open spec fn vcs_suffix_spec(v: Option<VcsState>) -> Seq<char> {
    match v {
        Some(VcsState::Clean) => " | V"@,
        Some(VcsState::Modified) => " | M"@,
        None => Seq::empty(),
    }
}

/// The marker for a version-control state.
pub fn vcs_suffix(v: Option<VcsState>) -> (r: &'static str)
    ensures
        r@ == vcs_suffix_spec(v),
{
    match v {
        Some(VcsState::Clean) => " | V",
        Some(VcsState::Modified) => " | M",
        None => {
            let e = "";
            proof {
                reveal_strlit("");
            }
            e
        },
    }
}

/// The text a filter is matched against, from the already folded name and
/// tags: the name, a space, and the tags joined by commas.
pub fn haystack_of(folded_name: &str, folded_tags: &Vec<String>) -> (r: String)
    ensures
        r@ == folded_name@ + seq![' '] + join_spec(views(folded_tags@), seq![',']),
{
    let mut r = String::from_str(folded_name);
    let sp = " ";
    proof {
        reveal_strlit(" ");
        assert(sp@ =~= seq![' ']);
    }
    r.append(sp);
    let comma = ",";
    proof {
        reveal_strlit(",");
        assert(comma@ =~= seq![',']);
    }
    let tags = join(folded_tags, comma);
    r.append(tags.as_str());
    r
}

impl Project {
    /// The record's name if there is a record, else the directory's name.
    pub fn display_name(&self) -> (r: &String)
        ensures
            r@ == display_name(self@),
    {
        match &self.config {
            Some(c) => &c.name,
            None => &self.dir_name,
        }
    }

    /// The folded text that filters are matched against.
    pub fn haystack(&self) -> (r: String)
        ensures
            r@ == haystack(self@),
    {
        let name = to_lower(self.display_name().as_str());
        let mut folded: Vec<String> = Vec::new();
        if let Some(c) = &self.config {
            let mut i: usize = 0;
            while i < c.tags.len()
                invariant
                    0 <= i <= c.tags.len(),
                    views(folded@) =~= views(c.tags@).take(i as int).map_values(
                        |t: Seq<char>| lower_of(t),
                    ),
                decreases c.tags.len() - i,
            {
                let t = to_lower(c.tags[i].as_str());
                let ghost before = folded@;
                folded.push(t);
                proof {
                    let f = |t: Seq<char>| lower_of(t);
                    assert(views(c.tags@).take(i + 1) =~= views(c.tags@).take(i as int).push(
                        c.tags@[i as int]@,
                    ));
                    assert(views(folded@) =~= views(before).push(t@));
                    assert(views(c.tags@).take(i + 1).map_values(f) =~= views(c.tags@).take(
                        i as int,
                    ).map_values(f).push(lower_of(c.tags@[i as int]@)));
                }
                i += 1;
            }
            proof {
                assert(views(c.tags@).take(c.tags.len() as int) =~= views(c.tags@));
            }
        }
        proof {
            assert(views(folded@) =~= tags_of(self@).map_values(|t: Seq<char>| lower_of(t)));
        }
        haystack_of(name.as_str(), &folded)
    }

    /// Whether this project is kept by a filter whose folded text is `needle`.
    pub fn matches_folded(&self, needle: &str) -> (r: bool)
        ensures
            r == kept_by(self@, needle@),
    {
        let hay = self.haystack();
        contains(hay.as_str(), needle)
    }
}

} // verus!
