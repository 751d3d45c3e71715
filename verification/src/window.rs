//! The windows present when the setup hook runs.
//!
//! The host framework constructs the application's windows before the
//! setup hook is invoked and identifies each by a label of its own; the
//! hook may look a window up by label and change its title. This module
//! models that window set: a table of labeled, titled windows in which
//! no label repeats.

use vstd::prelude::*;

verus! {

/// One top-level window: the label that identifies it to the
/// application, and the title it displays.
pub struct Window {
    pub label: String,
    pub title: String,
}

/// Whether some window in `t` carries the label `label`.
pub open spec fn has_label(t: Seq<Window>, label: Seq<char>) -> bool {
    exists|i: int| 0 <= i < t.len() && t[i].label@ == label
}

/// The title of the window in `t` labeled `label`. Well defined when
/// labels are distinct and one of them is `label`.
pub open spec fn title_of(t: Seq<Window>, label: Seq<char>) -> Seq<char>
    recommends
        has_label(t, label),
{
    let i = choose|i: int| 0 <= i < t.len() && t[i].label@ == label;
    t[i].title@
}

/// The windows present at setup time, in creation order.
pub struct WindowTable {
    windows: Vec<Window>,
}

impl View for WindowTable {
    type V = Seq<Window>;

    closed spec fn view(&self) -> Seq<Window> {
        self.windows@
    }
}

impl WindowTable {
    /// Labels identify windows: no two windows in the table share one.
    pub open spec fn wf(self) -> bool {
        forall|i: int, j: int|
            0 <= i < j < self@.len() ==> self@[i].label@ != self@[j].label@
    }

    /// A table with no windows.
    pub fn new() -> (t: WindowTable)
        ensures
            t@ == Seq::<Window>::empty(),
            t.wf(),
    {
        WindowTable { windows: Vec::new() }
    }

    /// How many windows the table holds.
    pub fn window_count(&self) -> (n: usize)
        ensures
            n == self@.len(),
    {
        self.windows.len()
    }

    /// The label of the window at position `i`.
    pub fn label_at(&self, i: usize) -> (label: &String)
        requires
            i < self@.len(),
        ensures
            label@ == self@[i as int].label@,
    {
        &self.windows[i].label
    }

    /// The title of the window at position `i`.
    pub fn title_at(&self, i: usize) -> (title: &String)
        requires
            i < self@.len(),
        ensures
            title@ == self@[i as int].title@,
    {
        &self.windows[i].title
    }

    /// Adds a window after the existing ones; refused when another
    /// window already carries `label`.
    pub fn add_window(&mut self, label: String, title: String) -> (added: bool)
        requires
            old(self).wf(),
        ensures
            final(self).wf(),
            added == !has_label(old(self)@, label@),
            added ==> final(self)@ == old(self)@.push(Window { label, title }),
            !added ==> final(self)@ == old(self)@,
    {
        if self.find_window(&label).is_some() {
            return false;
        }
        self.windows.push(Window { label, title });
        true
    }

    /// Position of the window labeled `label`, if the table has one;
    /// the first such position when several match.
    pub fn find_window(&self, label: &String) -> (r: Option<usize>)
        ensures
            match r {
                Some(i) => {
                    &&& i < self@.len()
                    &&& self@[i as int].label@ == label@
                    &&& forall|j: int| 0 <= j < i ==> self@[j].label@ != label@
                },
                None => !has_label(self@, label@),
            },
    {
        let n = self.windows.len();
        let mut i: usize = 0;
        while i < n
            invariant
                n == self@.len(),
                i <= n,
                forall|j: int| 0 <= j < i ==> self@[j].label@ != label@,
            decreases n - i,
        {
            if self.windows[i].label == *label {
                return Some(i);
            }
            i += 1;
        }
        None
    }

    /// Gives the window labeled `label` the title `title`; a table
    /// without that label is left as it was. Reports whether a window
    /// was retitled.
    pub fn set_title(&mut self, label: &String, title: String) -> (set: bool)
        requires
            old(self).wf(),
        ensures
            final(self).wf(),
            set == has_label(old(self)@, label@),
            !set ==> final(self)@ == old(self)@,
            final(self)@.len() == old(self)@.len(),
            forall|j: int|
                0 <= j < old(self)@.len() ==> final(self)@[j].label@ == old(self)@[j].label@,
            set ==> exists|i: int|
                {
                    &&& 0 <= i < old(self)@.len()
                    &&& old(self)@[i].label@ == label@
                    &&& final(self)@[i].title@ == title@
                    &&& forall|j: int|
                        0 <= j < old(self)@.len() && j != i ==> final(self)@[j] == old(self)@[j]
                },
            set ==> title_of(final(self)@, label@) == title@,
    {
        match self.find_window(label) {
            None => false,
            Some(i) => {
                self.windows[i].title = title;
                proof {
                    let t = self@;
                    assert(has_label(t, label@));
                    let k = choose|k: int| 0 <= k < t.len() && t[k].label@ == label@;
                    assert(k == i);
                }
                true
            },
        }
    }
}

} // verus!
