//! The registry of open windows.

use crate::text::same_text;
use crate::window::{WindowHandle, WindowStatus};
use vstd::prelude::*;

verus! {

/// Whether `windows[i]` exists and carries `label`.
spec fn labelled(windows: Seq<WindowHandle>, label: Seq<char>, i: int) -> bool {
    0 <= i < windows.len() && windows[i].label@ == label
}

/// Whether some window carries `label`.
spec fn listed(windows: Seq<WindowHandle>, label: Seq<char>) -> bool {
    exists|i: int| labelled(windows, label, i)
}

/// A place at which `label` is found, if it is listed.
spec fn slot(windows: Seq<WindowHandle>, label: Seq<char>) -> int {
    choose|i: int| labelled(windows, label, i)
}

/// No two windows carry the same label.
spec fn distinct(windows: Seq<WindowHandle>) -> bool {
    forall|i: int, j: int|
        0 <= i < j < windows.len() ==> windows[i].label@ != windows[j].label@
}

/// The condition of each listed window, by label.
spec fn by_label(windows: Seq<WindowHandle>) -> Map<Seq<char>, WindowStatus> {
    Map::new(
        |label: Seq<char>| listed(windows, label),
        |label: Seq<char>| windows[slot(windows, label)].status,
    )
}

proof fn lemma_slot(windows: Seq<WindowHandle>, label: Seq<char>, i: int)
    requires
        distinct(windows),
        labelled(windows, label, i),
    ensures
        listed(windows, label),
        slot(windows, label) == i,
{
    let j = slot(windows, label);
    assert(labelled(windows, label, j));
    if i < j {
        assert(windows[i].label@ != windows[j].label@);
    } else if j < i {
        assert(windows[j].label@ != windows[i].label@);
    }
}

proof fn lemma_push(windows: Seq<WindowHandle>, handle: WindowHandle)
    requires
        distinct(windows),
        !listed(windows, handle.label@),
    ensures
        distinct(windows.push(handle)),
        by_label(windows.push(handle)) == by_label(windows).insert(handle.label@, handle.status),
{
    let grown = windows.push(handle);
    assert forall|i: int, j: int| 0 <= i < j < grown.len() implies grown[i].label@
        != grown[j].label@ by {
        if j == windows.len() {
            assert(!labelled(windows, handle.label@, i));
        }
    }
    assert forall|label: Seq<char>| listed(grown, label) <==> (label == handle.label@ || listed(
        windows,
        label,
    )) by {
        if listed(grown, label) {
            let i = slot(grown, label);
            if i < windows.len() {
                assert(labelled(windows, label, i));
            }
        }
        if label == handle.label@ {
            assert(labelled(grown, label, windows.len() as int));
        }
        if listed(windows, label) {
            let i = slot(windows, label);
            assert(labelled(grown, label, i));
        }
    }
    assert forall|label: Seq<char>| listed(grown, label) implies #[trigger] by_label(grown)[label]
        == by_label(windows).insert(handle.label@, handle.status)[label] by {
        if label == handle.label@ {
            lemma_slot(grown, label, windows.len() as int);
        } else {
            let i = slot(windows, label);
            assert(labelled(grown, label, i));
            lemma_slot(grown, label, i);
        }
    }
    assert(by_label(grown) =~= by_label(windows).insert(handle.label@, handle.status));
}

proof fn lemma_remove(windows: Seq<WindowHandle>, at: int)
    requires
        distinct(windows),
        0 <= at < windows.len(),
    ensures
        distinct(windows.remove(at)),
        by_label(windows.remove(at)) == by_label(windows).remove(windows[at].label@),
{
    let gone = windows[at].label@;
    let rest = windows.remove(at);
    assert forall|i: int, j: int| 0 <= i < j < rest.len() implies rest[i].label@
        != rest[j].label@ by {
        let a = if i < at { i } else { i + 1 };
        let b = if j < at { j } else { j + 1 };
        assert(windows[a].label@ != windows[b].label@);
    }
    assert forall|label: Seq<char>| listed(rest, label) <==> (label != gone && listed(
        windows,
        label,
    )) by {
        if listed(rest, label) {
            let i = slot(rest, label);
            let a = if i < at { i } else { i + 1 };
            assert(labelled(windows, label, a));
            if a < at {
                assert(windows[a].label@ != windows[at].label@);
            } else {
                assert(windows[at].label@ != windows[a].label@);
            }
        }
        if label != gone && listed(windows, label) {
            let a = slot(windows, label);
            let i = if a < at { a } else { a - 1 };
            assert(labelled(rest, label, i));
        }
    }
    assert forall|label: Seq<char>| listed(rest, label) implies #[trigger] by_label(rest)[label]
        == by_label(windows).remove(gone)[label] by {
        let i = slot(rest, label);
        let a = if i < at { i } else { i + 1 };
        assert(labelled(windows, label, a));
        lemma_slot(windows, label, a);
    }
    assert(by_label(rest) =~= by_label(windows).remove(gone));
}

proof fn lemma_update(windows: Seq<WindowHandle>, at: int, handle: WindowHandle)
    requires
        distinct(windows),
        0 <= at < windows.len(),
        handle.label@ == windows[at].label@,
    ensures
        distinct(windows.update(at, handle)),
        by_label(windows.update(at, handle)) == by_label(windows).insert(
            handle.label@,
            handle.status,
        ),
{
    let changed = windows.update(at, handle);
    assert forall|i: int, j: int| 0 <= i < j < changed.len() implies changed[i].label@
        != changed[j].label@ by {
        assert(windows[i].label@ != windows[j].label@);
    }
    assert forall|label: Seq<char>| listed(changed, label) <==> listed(windows, label) by {
        if listed(changed, label) {
            assert(labelled(windows, label, slot(changed, label)));
        }
        if listed(windows, label) {
            assert(labelled(changed, label, slot(windows, label)));
        }
    }
    assert(labelled(windows, handle.label@, at));
    assert forall|label: Seq<char>| listed(changed, label) implies #[trigger] by_label(
        changed,
    )[label] == by_label(windows).insert(handle.label@, handle.status)[label] by {
        let i = slot(windows, label);
        assert(labelled(changed, label, i));
        lemma_slot(changed, label, i);
        if label == handle.label@ {
            lemma_slot(windows, label, at);
        }
    }
    assert(by_label(changed) =~= by_label(windows).insert(handle.label@, handle.status));
}

/// The windows that are open, each under its label. No two open windows
/// share a label.
pub struct WindowRegistry {
    windows: Vec<WindowHandle>,
}

impl View for WindowRegistry {
    type V = Map<Seq<char>, WindowStatus>;

    /// The condition of each open window, by label.
    closed spec fn view(&self) -> Self::V {
        by_label(self.windows@)
    }
}

impl WindowRegistry {
    /// The stored windows carry distinct labels and are as many as the
    /// labels of the view.
    pub closed spec fn well_stored(&self) -> bool {
        &&& distinct(self.windows@)
        &&& self@.dom().len() == self.windows@.len()
    }

    /// Validity of a registry: it is well stored, and holds finitely many
    /// windows.
    pub open spec fn wf(&self) -> bool {
        self.well_stored() && self@.dom().finite()
    }

    /// A registry with no open window.
    pub fn new() -> (registry: Self)
        ensures
            registry.wf(),
            registry@ == Map::<Seq<char>, WindowStatus>::empty(),
    {
        let registry = WindowRegistry { windows: Vec::new() };
        assert(registry@ =~= Map::<Seq<char>, WindowStatus>::empty());
        registry
    }

    /// The number of open windows.
    pub fn count(&self) -> (n: usize)
        requires
            self.wf(),
        ensures
            n == self@.len(),
    {
        self.windows.len()
    }

    fn position(&self, label: &str) -> (at: Option<usize>)
        requires
            self.wf(),
        ensures
            match at {
                Some(i) => labelled(self.windows@, label@, i as int),
                None => !listed(self.windows@, label@),
            },
    {
        let mut i: usize = 0;
        while i < self.windows.len()
            invariant
                i <= self.windows.len(),
                forall|j: int| 0 <= j < i ==> !labelled(self.windows@, label@, j),
            decreases self.windows.len() - i,
        {
            if same_text(self.windows[i].label.as_str(), label) {
                return Some(i);
            }
            i += 1;
        }
        None
    }

    /// The open window with that label, or none where no such window is
    /// open.
    pub fn find(&self, label: &str) -> (found: Option<&WindowHandle>)
        requires
            self.wf(),
        ensures
            found is Some <==> self@.contains_key(label@),
            found matches Some(handle) ==> handle.label@ == label@ && handle.status
                == self@[label@],
    {
        match self.position(label) {
            Some(i) => {
                proof {
                    lemma_slot(self.windows@, label@, i as int);
                }
                Some(&self.windows[i])
            },
            None => None,
        }
    }

    /// Opens a window under `label`, unless one is open under it already.
    pub fn open(&mut self, label: String, status: WindowStatus) -> (opened: bool)
        requires
            old(self).wf(),
        ensures
            final(self).wf(),
            opened == !old(self)@.contains_key(label@),
            opened ==> final(self)@ == old(self)@.insert(label@, status),
            !opened ==> final(self)@ == old(self)@,
    {
        match self.position(label.as_str()) {
            Some(_) => false,
            None => {
                let handle = WindowHandle { label, status };
                proof {
                    lemma_push(self.windows@, handle);
                }
                self.windows.push(handle);
                true
            },
        }
    }

    /// Closes the window under `label`, if one is open.
    pub fn close(&mut self, label: &str) -> (closed: bool)
        requires
            old(self).wf(),
        ensures
            final(self).wf(),
            closed == old(self)@.contains_key(label@),
            final(self)@ == old(self)@.remove(label@),
    {
        match self.position(label) {
            Some(i) => {
                proof {
                    lemma_remove(self.windows@, i as int);
                }
                self.windows.remove(i);
                true
            },
            None => {
                assert(self@.remove(label@) =~= self@);
                false
            },
        }
    }

    /// Records a new condition for the window under `label`, if one is open.
    pub fn set_status(&mut self, label: &str, status: WindowStatus) -> (changed: bool)
        requires
            old(self).wf(),
        ensures
            final(self).wf(),
            changed == old(self)@.contains_key(label@),
            changed ==> final(self)@ == old(self)@.insert(label@, status),
            !changed ==> final(self)@ == old(self)@,
    {
        match self.position(label) {
            Some(i) => {
                proof {
                    let handle = WindowHandle { label: self.windows@[i as int].label, status };
                    lemma_update(self.windows@, i as int, handle);
                    assert(self.windows@.update(i as int, handle).len() == self.windows@.len());
                }
                self.windows[i].status = status;
                true
            },
            None => false,
        }
    }
}

} // verus!
