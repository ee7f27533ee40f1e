//! The session: a catalog, the filter text, the projects it keeps and the cursor.
use vstd::prelude::*;
use vstd::string::StringExecFns;
use crate::project::{kept_by, Project, ProjectView};
use crate::text::{lower_of, pop_char, push_char, to_lower};

verus! {

/// The interactive state over one catalog.
pub struct SessionState {
    pub catalog: Vec<Project>,
    pub filter_text: String,
    /// Positions in `catalog` of the projects that the filter keeps, in catalog order.
    pub visible_indices: Vec<usize>,
    /// Position in `visible_indices` of the selected project.
    pub cursor: usize,
}

pub struct SessionView {
    pub catalog: Seq<ProjectView>,
    pub filter_text: Seq<char>,
    pub visible: Seq<usize>,
    pub cursor: int,
}

/// The views of a sequence of projects.
pub open spec fn catalog_views(c: Seq<Project>) -> Seq<ProjectView> {
    c.map_values(|p: Project| p@)
}

impl View for SessionState {
    type V = SessionView;

    open spec fn view(&self) -> SessionView {
        SessionView {
            catalog: catalog_views(self.catalog@),
            filter_text: self.filter_text@,
            visible: self.visible_indices@,
            cursor: self.cursor as int,
        }
    }
}

/// Positions, in ascending order, of the projects of `catalog` kept by the
/// folded filter text `needle`.
pub open spec fn filtered(catalog: Seq<ProjectView>, needle: Seq<char>) -> Seq<usize>
    decreases catalog.len(),
{
    if catalog.len() == 0 {
        Seq::empty()
    } else {
        let prev = filtered(catalog.drop_last(), needle);
        if kept_by(catalog.last(), needle) {
            prev.push((catalog.len() - 1) as usize)
        } else {
            prev
        }
    }
}

/// The positions `0, 1, ..., n - 1`.
pub open spec fn all_positions(n: nat) -> Seq<usize> {
    Seq::new(n, |i: int| i as usize)
}

/// A cursor pulled back onto a list of `len` entries; 0 on an empty list.
pub open spec fn clamp_cursor(cursor: int, len: int) -> int {
    if cursor < len {
        cursor
    } else if len > 0 {
        len - 1
    } else {
        0
    }
}

/// The session after the filter text is set to `text`.
pub open spec fn after_filter(s: SessionView, text: Seq<char>) -> SessionView {
    let visible = filtered(s.catalog, lower_of(text));
    SessionView {
        catalog: s.catalog,
        filter_text: text,
        visible: visible,
        cursor: clamp_cursor(s.cursor, visible.len() as int),
    }
}

/// The session after the cursor is moved by `delta` (-1 up, +1 down), without
/// leaving the list.
pub open spec fn after_move(s: SessionView, delta: int) -> SessionView {
    let cursor = if delta < 0 {
        if s.cursor > 0 {
            s.cursor - 1
        } else {
            s.cursor
        }
    } else {
        if s.cursor + 1 < s.visible.len() {
            s.cursor + 1
        } else {
            s.cursor
        }
    };
    SessionView { cursor: cursor, ..s }
}

/// The session after the catalog is replaced by a fresh scan; the filter text is kept.
pub open spec fn after_rescan(s: SessionView, catalog: Seq<ProjectView>) -> SessionView {
    after_filter(SessionView { catalog: catalog, ..s }, s.filter_text)
}

/// The cursor lies on the list, or is 0 when the list is empty.
pub open spec fn cursor_in_range(s: SessionView) -> bool {
    0 <= s.cursor && (s.visible.len() == 0 ==> s.cursor == 0) && (s.visible.len() > 0
        ==> s.cursor < s.visible.len())
}

/// A well-formed session: the list is the filter of the catalog, the cursor lies on it.
pub open spec fn session_wf(s: SessionView) -> bool {
    &&& s.catalog.len() <= usize::MAX
    &&& s.visible == filtered(s.catalog, lower_of(s.filter_text))
    &&& cursor_in_range(s)
}

/// The kept positions are positions of the catalog, strictly ascending, so the
/// list is a subsequence of the catalog in its own order.
pub proof fn filter_preserves_order(catalog: Seq<ProjectView>, needle: Seq<char>)
    requires
        catalog.len() <= usize::MAX,
    ensures
        filtered(catalog, needle).len() <= catalog.len(),
        forall|i: int|
            0 <= i < filtered(catalog, needle).len() ==> (#[trigger] filtered(catalog, needle)[i])
                < catalog.len(),
        forall|i: int, j: int|
            0 <= i < j < filtered(catalog, needle).len() ==> filtered(catalog, needle)[i]
                < filtered(catalog, needle)[j],
    decreases catalog.len(),
{
    if catalog.len() > 0 {
        filter_preserves_order(catalog.drop_last(), needle);
    }
}

/// An empty filter keeps every project, in catalog order.
pub proof fn empty_filter_keeps_all(catalog: Seq<ProjectView>)
    requires
        catalog.len() <= usize::MAX,
    ensures
        filtered(catalog, Seq::empty()) == all_positions(catalog.len()),
    decreases catalog.len(),
{
    if catalog.len() > 0 {
        empty_filter_keeps_all(catalog.drop_last());
        let hay = crate::project::haystack(catalog.last());
        assert(hay.subrange(0int, 0int + Seq::<char>::empty().len()) =~= Seq::<char>::empty());
        assert(kept_by(catalog.last(), Seq::empty()));
    }
    assert(filtered(catalog, Seq::empty()) =~= all_positions(catalog.len()));
}

/// Applying the same filter twice gives the same session as applying it once.
pub proof fn filter_idempotent(s: SessionView, text: Seq<char>)
    ensures
        after_filter(after_filter(s, text), text) == after_filter(s, text),
{
}

/// Every filter and every cursor move keeps the cursor on the list (or at 0
/// on an empty list), and keeps the session well formed.
pub proof fn cursor_stays_in_range(s: SessionView, text: Seq<char>, delta: int)
    requires
        session_wf(s),
        delta == 1 || delta == -1,
    ensures
        session_wf(after_filter(s, text)),
        session_wf(after_move(s, delta)),
        0 <= after_filter(s, text).cursor <= if after_filter(s, text).visible.len() > 0 {
            after_filter(s, text).visible.len() - 1
        } else {
            0
        },
        0 <= after_move(s, delta).cursor <= if after_move(s, delta).visible.len() > 0 {
            after_move(s, delta).visible.len() - 1
        } else {
            0
        },
{
}

/// One step of a session: set the filter text, or move the cursor.
pub enum SessionOp {
    Filter(Seq<char>),
    Move(int),
}

/// The session after `ops`, in order.
pub open spec fn run_ops(s: SessionView, ops: Seq<SessionOp>) -> SessionView
    decreases ops.len(),
{
    if ops.len() == 0 {
        s
    } else {
        let prev = run_ops(s, ops.drop_last());
        match ops.last() {
            SessionOp::Filter(t) => after_filter(prev, t),
            SessionOp::Move(d) => after_move(prev, d),
        }
    }
}

/// After any sequence of filters and single-step cursor moves from a
/// well-formed session, the cursor lies in `[0, max(0, len - 1)]` of the list.
pub proof fn cursor_in_range_after_ops(s: SessionView, ops: Seq<SessionOp>)
    requires
        session_wf(s),
        forall|i: int|
            0 <= i < ops.len() ==> match #[trigger] ops[i] {
                SessionOp::Move(d) => d == 1 || d == -1,
                SessionOp::Filter(_) => true,
            },
    ensures
        session_wf(run_ops(s, ops)),
        0 <= run_ops(s, ops).cursor <= if run_ops(s, ops).visible.len() > 0 {
            run_ops(s, ops).visible.len() - 1
        } else {
            0
        },
    decreases ops.len(),
{
    if ops.len() > 0 {
        let rest = ops.drop_last();
        assert forall|i: int| 0 <= i < rest.len() implies match #[trigger] rest[i] {
            SessionOp::Move(d) => d == 1 || d == -1,
            SessionOp::Filter(_) => true,
        } by {
            assert(rest[i] == ops[i]);
        }
        cursor_in_range_after_ops(s, rest);
        let prev = run_ops(s, rest);
        match ops.last() {
            SessionOp::Filter(t) => cursor_stays_in_range(prev, t, 1),
            SessionOp::Move(d) => {
                assert(ops[ops.len() - 1] == ops.last());
                cursor_stays_in_range(prev, Seq::empty(), d);
            },
        }
    }
}

/// The positions of the projects of `catalog` kept by the folded filter text `needle`.
pub fn visible_for(catalog: &Vec<Project>, needle: &str) -> (r: Vec<usize>)
    ensures
        r@ == filtered(catalog_views(catalog@), needle@),
{
    let mut r: Vec<usize> = Vec::new();
    let mut i: usize = 0;
    while i < catalog.len()
        invariant
            i <= catalog.len(),
            r@ == filtered(catalog_views(catalog@).take(i as int), needle@),
        decreases catalog.len() - i,
    {
        let ghost c = catalog_views(catalog@);
        proof {
            assert(c.take(i + 1).drop_last() =~= c.take(i as int));
        }
        if catalog[i].matches_folded(needle) {
            r.push(i);
        }
        i += 1;
    }
    proof {
        assert(catalog_views(catalog@).take(catalog.len() as int) =~= catalog_views(catalog@));
    }
    r
}

impl SessionState {
    pub open spec fn wf(&self) -> bool {
        session_wf(self@)
    }

    /// A session over `catalog` with an empty filter: every project is listed
    /// and the first one is selected.
    pub fn new(catalog: Vec<Project>) -> (r: SessionState)
        ensures
            r.wf(),
            r@.catalog == catalog_views(catalog@),
            r@.filter_text.len() == 0,
            r@.visible == all_positions(catalog@.len()),
            r@.cursor == 0,
    {
        let mut r = SessionState {
            catalog,
            filter_text: String::new(),
            visible_indices: Vec::new(),
            cursor: 0,
        };
        let empty = String::new();
        r.refilter(empty);
        r
    }

    fn refilter(&mut self, text: String)
        ensures
            final(self)@ == after_filter(old(self)@, text@),
            session_wf(final(self)@),
            text@.len() == 0 ==> final(self)@.visible == all_positions(old(self).catalog@.len()),
    {
        let total = self.catalog.len();
        let needle = to_lower(text.as_str());
        let visible = visible_for(&self.catalog, needle.as_str());
        proof {
            filter_preserves_order(self@.catalog, needle@);
            if text@.len() == 0 {
                assert(needle@ =~= Seq::<char>::empty());
                empty_filter_keeps_all(self@.catalog);
            }
        }
        let n = visible.len();
        self.filter_text = text;
        self.visible_indices = visible;
        if self.cursor >= n {
            self.cursor = if n > 0 {
                n - 1
            } else {
                0
            };
        }
    }

    /// Sets the filter text and recomputes the list; the cursor is pulled back
    /// onto the list.
    pub fn apply_filter(&mut self, text: &str)
        requires
            old(self).wf(),
        ensures
            final(self)@ == after_filter(old(self)@, text@),
            final(self).wf(),
            text@.len() == 0 ==> final(self)@.visible == all_positions(old(self)@.catalog.len()),
    {
        let t = String::from_str(text);
        self.refilter(t);
    }

    /// Appends a character to the filter text and recomputes the list.
    pub fn push_filter_char(&mut self, c: char)
        requires
            old(self).wf(),
        ensures
            final(self)@ == after_filter(old(self)@, old(self)@.filter_text.push(c)),
            final(self).wf(),
    {
        let mut t = self.filter_text.clone();
        push_char(&mut t, c);
        self.refilter(t);
    }

    /// Removes the last character of the filter text, if any, and recomputes the list.
    pub fn pop_filter_char(&mut self)
        requires
            old(self).wf(),
        ensures
            final(self)@ == after_filter(
                old(self)@,
                if old(self)@.filter_text.len() > 0 {
                    old(self)@.filter_text.drop_last()
                } else {
                    old(self)@.filter_text
                },
            ),
            final(self).wf(),
    {
        let mut t = self.filter_text.clone();
        let _ = pop_char(&mut t);
        self.refilter(t);
    }

    /// Replaces the catalog by a fresh scan and filters it with the current text.
    pub fn set_catalog(&mut self, catalog: Vec<Project>)
        requires
            old(self).wf(),
        ensures
            final(self)@ == after_rescan(old(self)@, catalog_views(catalog@)),
            final(self).wf(),
    {
        self.catalog = catalog;
        let t = self.filter_text.clone();
        self.refilter(t);
    }

    /// Moves the cursor by `delta` (-1 up, +1 down) without leaving the list.
    pub fn move_cursor(&mut self, delta: i32)
        requires
            old(self).wf(),
            delta == 1 || delta == -1,
        ensures
            final(self)@ == after_move(old(self)@, delta as int),
            final(self).wf(),
    {
        if delta < 0 {
            if self.cursor > 0 {
                self.cursor = self.cursor - 1;
            }
        } else if self.visible_indices.len() > 0 && self.cursor < self.visible_indices.len() - 1 {
            self.cursor = self.cursor + 1;
        }
    }

    /// The selected project, if the list is not empty.
    pub fn current_selection(&self) -> (r: Option<&Project>)
        requires
            self.wf(),
        ensures
            self@.visible.len() == 0 ==> r is None,
            self@.visible.len() > 0 ==> r is Some && r->0@ == self@.catalog[self@.visible[self@.cursor] as int],
    {
        if self.cursor < self.visible_indices.len() {
            let i = self.visible_indices[self.cursor];
            proof {
                filter_preserves_order(self@.catalog, lower_of(self@.filter_text));
            }
            Some(&self.catalog[i])
        } else {
            None
        }
    }
}

} // verus!
