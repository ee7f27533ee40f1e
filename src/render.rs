//! The screen layout: a pure function from a session and the terminal size to
//! what is drawn where.
use vstd::prelude::*;
use vstd::string::StringExecFns;
use vstd::string::StrSliceExecFns;
use crate::project::{display_name, tags_of, vcs_suffix, vcs_suffix_spec, ProjectView};
use crate::session::{filter_preserves_order, SessionState, SessionView};
use crate::text::{join, join_spec, lower_of, split_words, views, words_of};

verus! {

/// First row of the project list.
pub const LIST_TOP: usize = 3;

/// Row of the first line of the wrapped description.
pub const DESCRIPTION_TOP: usize = 7;

/// One listed project.
pub struct ListRow {
    /// Screen row.
    pub row: usize,
    /// The project's display name.
    pub label: String,
    /// The version-control marker drawn after the name.
    pub suffix: String,
    /// Whether this is the row under the cursor.
    pub selected: bool,
}

/// The detail pane's fields for the selected project.
pub struct Details {
    pub name: String,
    pub path: String,
    pub tags: String,
    /// The description, wrapped to the pane and cut to the rows left.
    pub description: Vec<String>,
}

/// Everything that one redraw puts on the terminal.
pub struct Screen {
    /// Text of the header bar on row 0.
    pub header: String,
    /// The filter text, shown after the prompt on row 1.
    pub filter: String,
    /// Width of the list pane; the detail pane starts two columns after it.
    pub list_width: usize,
    /// First column of the detail pane.
    pub detail_left: usize,
    pub list: Vec<ListRow>,
    pub details: Option<Details>,
}

/// Greedy word-wrapping state: the finished lines and the line being filled.
pub struct WrapState {
    pub lines: Seq<Seq<char>>,
    pub cur: Seq<char>,
}

/// Places one more word: it goes on the current line when it fits (or the
/// line is empty); otherwise the line is closed, unless `max_lines` lines are
/// already closed, in which case nothing more is shown.
pub open spec fn wrap_step(st: WrapState, w: Seq<char>, width: nat, max_lines: nat) -> WrapState {
    if st.cur.len() > 0 && st.cur.len() + 1 + w.len() > width {
        if st.lines.len() >= max_lines {
            st
        } else {
            WrapState { lines: st.lines.push(st.cur), cur: w }
        }
    } else {
        WrapState {
            lines: st.lines,
            cur: if st.cur.len() == 0 {
                w
            } else {
                st.cur + seq![' '] + w
            },
        }
    }
}

/// The wrapping state after all of `words`.
pub open spec fn wrap_fold(words: Seq<Seq<char>>, width: nat, max_lines: nat) -> WrapState
    decreases words.len(),
{
    if words.len() == 0 {
        WrapState { lines: Seq::empty(), cur: Seq::empty() }
    } else {
        wrap_step(wrap_fold(words.drop_last(), width, max_lines), words.last(), width, max_lines)
    }
}

/// `words` wrapped greedily into lines of at most `width` characters (a longer
/// word stands alone), words never split, at most `max_lines` lines.
pub open spec fn wrap_spec(words: Seq<Seq<char>>, width: nat, max_lines: nat) -> Seq<Seq<char>> {
    let st = wrap_fold(words, width, max_lines);
    if st.cur.len() > 0 && st.lines.len() < max_lines {
        st.lines.push(st.cur)
    } else {
        st.lines
    }
}

/// Wraps `words` greedily into at most `max_lines` lines of `width` characters.
pub fn wrap_words(words: &Vec<String>, width: usize, max_lines: usize) -> (r: Vec<String>)
    ensures
        views(r@) == wrap_spec(views(words@), width as nat, max_lines as nat),
{
    let ghost all = views(words@);
    let mut lines: Vec<String> = Vec::new();
    let mut cur = String::new();
    let mut cur_len: usize = 0;
    let mut i: usize = 0;
    while i < words.len()
        invariant
            i <= words.len(),
            all == views(words@),
            cur_len == cur@.len(),
            views(lines@) == wrap_fold(all.take(i as int), width as nat, max_lines as nat).lines,
            cur@ == wrap_fold(all.take(i as int), width as nat, max_lines as nat).cur,
        decreases words.len() - i,
    {
        proof {
            assert(all.take(i + 1).drop_last() =~= all.take(i as int));
        }
        let w = &words[i];
        let w_len = w.as_str().unicode_len();
        if cur_len > 0 && (cur_len as u128) + 1 + (w_len as u128) > (width as u128) {
            if lines.len() < max_lines {
                let ghost before = lines@;
                lines.push(cur);
                proof {
                    assert(views(lines@) =~= views(before).push(cur@));
                }
                cur = w.clone();
                cur_len = w_len;
            }
        } else if cur_len == 0 {
            cur = w.clone();
            cur_len = w_len;
        } else {
            let sp = " ";
            proof {
                reveal_strlit(" ");
                assert(sp@ =~= seq![' ']);
            }
            cur.append(sp);
            cur.append(w.as_str());
            cur_len = cur.as_str().unicode_len();
        }
        i += 1;
    }
    proof {
        assert(all.take(words.len() as int) =~= all);
    }
    if cur_len > 0 && lines.len() < max_lines {
        let ghost before = lines@;
        lines.push(cur);
        proof {
            assert(views(lines@) =~= views(before).push(cur@));
        }
    }
    lines
}

/// Width of the list pane: two fifths of the terminal, rounded down.
pub open spec fn list_width_spec(cols: nat) -> nat {
    cols * 2 / 5
}

/// How many list rows fit: rows 3 up to, not including, the last row.
pub open spec fn list_capacity(rows: nat) -> nat {
    if rows >= 4 {
        (rows - 4) as nat
    } else {
        0
    }
}

/// Number of projects listed on screen.
pub open spec fn listed_count(s: SessionView, rows: nat) -> nat {
    if s.visible.len() < list_capacity(rows) {
        s.visible.len()
    } else {
        list_capacity(rows)
    }
}

/// The project shown on list row `i`.
pub open spec fn listed_project(s: SessionView, i: int) -> ProjectView {
    s.catalog[s.visible[i] as int]
}

/// List row `i` shows the `i`-th kept project, its marker, and whether it is selected.
pub open spec fn row_shows(s: SessionView, i: int, r: ListRow) -> bool {
    &&& r.row == LIST_TOP + i
    &&& r.label@ == display_name(listed_project(s, i))
    &&& r.suffix@ == vcs_suffix_spec(listed_project(s, i).vcs_state)
    &&& r.selected == (i == s.cursor)
}

/// The name shown in the detail pane.
pub open spec fn detail_name(p: ProjectView) -> Seq<char> {
    match p.config {
        Some(c) => c.name,
        None => "(No config file set)"@,
    }
}

/// The description of a project; empty without a record.
pub open spec fn description_of(p: ProjectView) -> Seq<char> {
    match p.config {
        Some(c) => c.description,
        None => Seq::empty(),
    }
}

/// Width left for the description: from the detail pane to two columns
/// before the right edge.
pub open spec fn detail_width(cols: nat) -> nat {
    if cols >= list_width_spec(cols) + 4 {
        (cols - list_width_spec(cols) - 4) as nat
    } else {
        0
    }
}

/// Rows left for the description, above the last row.
pub open spec fn description_rows(rows: nat) -> nat {
    if rows >= DESCRIPTION_TOP + 1 {
        (rows - DESCRIPTION_TOP - 1) as nat
    } else {
        0
    }
}

/// The detail pane shows the selected project's fields.
pub open spec fn details_show(p: ProjectView, d: Details, rows: nat, cols: nat) -> bool {
    &&& d.name@ == detail_name(p)
    &&& d.path@ == p.path
    &&& d.tags@ == join_spec(tags_of(p), ", "@)
    &&& views(d.description@) == wrap_spec(
        words_of(description_of(p)),
        detail_width(cols),
        description_rows(rows),
    )
}

/// The header's text for the root `root`.
pub open spec fn header_spec(root: Seq<char>) -> Seq<char> {
    " Project Manager - root: "@ + root
        + " | ENTER=open Q=quit N=new T=edit tag R=reload, type to filter "@
}

/// The project under the cursor.
pub open spec fn selected_project(s: SessionView) -> ProjectView {
    s.catalog[s.visible[s.cursor] as int]
}

/// What a redraw shows of session `state` on a terminal of `rows` by `cols`
/// under the root `root`.
pub fn render(state: &SessionState, root: &str, rows: usize, cols: usize) -> (r: Screen)
    requires
        state.wf(),
    ensures
        r.header@ == header_spec(root@),
        r.filter@ == state@.filter_text,
        r.list_width == list_width_spec(cols as nat),
        r.detail_left == r.list_width + 2,
        r.list@.len() == listed_count(state@, rows as nat),
        forall|i: int| 0 <= i < r.list@.len() ==> row_shows(state@, i, #[trigger] r.list@[i]),
        state@.visible.len() == 0 <==> r.details is None,
        r.details is Some ==> details_show(
            selected_project(state@),
            r.details->0,
            rows as nat,
            cols as nat,
        ),
{
    let ghost s = state@;
    proof {
        filter_preserves_order(s.catalog, lower_of(s.filter_text));
    }
    let mut header = String::from_str(" Project Manager - root: ");
    header.append(root);
    header.append(" | ENTER=open Q=quit N=new T=edit tag R=reload, type to filter ");
    let filter = state.filter_text.clone();
    let list_width = cols / 5 * 2 + (cols % 5) * 2 / 5;
    proof {
        assert(list_width == list_width_spec(cols as nat)) by (nonlinear_arith)
            requires
                list_width == cols / 5 * 2 + (cols % 5) * 2 / 5,
                cols >= 0,
        ;
    }
    let capacity: usize = if rows >= 4 {
        rows - 4
    } else {
        0
    };
    let count: usize = if state.visible_indices.len() < capacity {
        state.visible_indices.len()
    } else {
        capacity
    };
    let mut list: Vec<ListRow> = Vec::new();
    let mut i: usize = 0;
    while i < count
        invariant
            s == state@,
            state.wf(),
            count == listed_count(s, rows as nat),
            count <= s.visible.len(),
            i <= count,
            list@.len() == i,
            forall|k: int| 0 <= k < s.visible.len() ==> (#[trigger] s.visible[k]) < s.catalog.len(),
            forall|k: int| 0 <= k < i ==> row_shows(s, k, #[trigger] list@[k]),
        decreases count - i,
    {
        let p = &state.catalog[state.visible_indices[i]];
        let row = ListRow {
            row: LIST_TOP + i,
            label: p.display_name().clone(),
            suffix: String::from_str(vcs_suffix(p.vcs_state)),
            selected: i == state.cursor,
        };
        list.push(row);
        i += 1;
    }
    let details = if state.visible_indices.len() == 0 {
        None
    } else {
        let p = &state.catalog[state.visible_indices[state.cursor]];
        let name = match &p.config {
            Some(c) => c.name.clone(),
            None => String::from_str("(No config file set)"),
        };
        let sep = ", ";
        let tags = match &p.config {
            Some(c) => join(&c.tags, sep),
            None => {
                let e = String::new();
                proof {
                    assert(e@ =~= join_spec(tags_of(p@), sep@));
                }
                e
            },
        };
        let empty = String::new();
        let desc = match &p.config {
            Some(c) => &c.description,
            None => &empty,
        };
        let words = split_words(desc.as_str());
        let width: usize = if cols >= list_width + 4 {
            cols - list_width - 4
        } else {
            0
        };
        let max_lines: usize = if rows >= DESCRIPTION_TOP + 1 {
            rows - DESCRIPTION_TOP - 1
        } else {
            0
        };
        let description = wrap_words(&words, width, max_lines);
        Some(Details { name, path: p.path.clone(), tags, description })
    };
    Screen { header, filter, list_width, detail_left: list_width + 2, list, details }
}

} // verus!
