//! The run-scoped output store: one entry per action identity, written once by
//! the owning action on a successful perform, read by any number of
//! dependents. No entry is ever overwritten, and a read of an absent entry
//! fails immediately rather than waiting for a future write.

use vstd::prelude::*;

use crate::action::{ActionIdentity, ActionOutput, OutputVal};

verus! {

/// The table mapping an action identity to the output it produced, viewed as
/// a mathematical map from identities to output values.
pub struct OutputStore {
    entries: Vec<(ActionIdentity, ActionOutput)>,
}

/// The map an entry list denotes: later entries would win, but the store never
/// holds two entries for one identity.
spec fn entry_map(s: Seq<(ActionIdentity, ActionOutput)>) -> Map<ActionIdentity, OutputVal>
    decreases s.len(),
{
    if s.len() == 0 {
        Map::empty()
    } else {
        entry_map(s.drop_last()).insert(s.last().0, s.last().1@)
    }
}

spec fn unique_keys(s: Seq<(ActionIdentity, ActionOutput)>) -> bool {
    forall|i: int, j: int| 0 <= i < j < s.len() ==> s[i].0 != s[j].0
}

proof fn lemma_entry_map_domain(s: Seq<(ActionIdentity, ActionOutput)>)
    ensures
        forall|id: ActionIdentity|
            entry_map(s).contains_key(id) <==> exists|j: int| 0 <= j < s.len() && s[j].0 == id,
    decreases s.len(),
{
    if s.len() > 0 {
        lemma_entry_map_domain(s.drop_last());
        assert forall|id: ActionIdentity|
            entry_map(s).contains_key(id) <==> exists|j: int|
                0 <= j < s.len() && s[j].0 == id by {
            if entry_map(s).contains_key(id) {
                if id == s.last().0 {
                    assert(s[s.len() - 1].0 == id);
                } else {
                    assert(entry_map(s.drop_last()).contains_key(id));
                    let j = choose|j: int| 0 <= j < s.drop_last().len() && s.drop_last()[j].0 == id;
                    assert(s.drop_last()[j] == s[j]);
                }
            }
            if exists|j: int| 0 <= j < s.len() && s[j].0 == id {
                let j = choose|j: int| 0 <= j < s.len() && s[j].0 == id;
                if j < s.len() - 1 {
                    assert(s.drop_last()[j] == s[j]);
                    assert(exists|k: int| 0 <= k < s.drop_last().len() && s.drop_last()[k].0 == id);
                    assert(entry_map(s.drop_last()).contains_key(id));
                } else {
                    assert(s.last().0 == id);
                }
            }
        }
    }
}

proof fn lemma_entry_map_index(s: Seq<(ActionIdentity, ActionOutput)>, j: int)
    requires
        unique_keys(s),
        0 <= j < s.len(),
    ensures
        entry_map(s).contains_key(s[j].0),
        entry_map(s)[s[j].0] == s[j].1@,
    decreases s.len(),
{
    if j == s.len() - 1 {
    } else {
        assert(s.drop_last()[j] == s[j]);
        lemma_entry_map_index(s.drop_last(), j);
        assert(s[j].0 != s.last().0);
    }
}

impl View for OutputStore {
    type V = Map<ActionIdentity, OutputVal>;

    closed spec fn view(&self) -> Map<ActionIdentity, OutputVal> {
        entry_map(self.entries@)
    }
}

impl OutputStore {
    #[verifier::type_invariant]
    spec fn wf(&self) -> bool {
        unique_keys(self.entries@)
    }

    /// An empty store, as at the start of a run.
    pub fn new() -> (r: Self)
        ensures
            r@ == Map::<ActionIdentity, OutputVal>::empty(),
    {
        OutputStore { entries: Vec::new() }
    }

    /// Whether the action named by `id` has already written its output.
    pub fn has_output(&self, id: ActionIdentity) -> (r: bool)
        ensures
            r == self@.contains_key(id),
    {
        proof {
            use_type_invariant(&*self);
            lemma_entry_map_domain(self.entries@);
        }
        let n = self.entries.len();
        let mut i: usize = 0;
        while i < n
            invariant
                0 <= i <= n,
                n == self.entries@.len(),
                forall|j: int| 0 <= j < i ==> self.entries@[j].0 != id,
                self@ == entry_map(self.entries@),
                forall|k: ActionIdentity|
                    entry_map(self.entries@).contains_key(k) <==> exists|j: int|
                        0 <= j < self.entries@.len() && self.entries@[j].0 == k,
            decreases n - i,
        {
            if self.entries[i].0 == id {
                return true;
            }
            i += 1;
        }
        false
    }

    /// The output the action named by `id` produced, if it has produced one.
    /// The read never blocks: an absent entry is reported at once.
    pub fn get_output(&self, id: ActionIdentity) -> (r: Option<&ActionOutput>)
        ensures
            match r {
                Some(out) => self@.contains_key(id) && out@ == self@[id],
                None => !self@.contains_key(id),
            },
    {
        proof {
            use_type_invariant(&*self);
            lemma_entry_map_domain(self.entries@);
        }
        let n = self.entries.len();
        let mut i: usize = 0;
        while i < n
            invariant
                0 <= i <= n,
                n == self.entries@.len(),
                unique_keys(self.entries@),
                forall|j: int| 0 <= j < i ==> self.entries@[j].0 != id,
                self@ == entry_map(self.entries@),
                forall|k: ActionIdentity|
                    entry_map(self.entries@).contains_key(k) <==> exists|j: int|
                        0 <= j < self.entries@.len() && self.entries@[j].0 == k,
            decreases n - i,
        {
            if self.entries[i].0 == id {
                proof {
                    lemma_entry_map_index(self.entries@, i as int);
                }
                return Some(&self.entries[i].1);
            }
            i += 1;
        }
        None
    }

    /// Record the output of the action named by `id`. The store is
    /// single-writer per key: the owning action writes its own entry exactly
    /// once, so the entry must not exist yet.
    pub fn write_output(&mut self, id: ActionIdentity, out: ActionOutput)
        requires
            !old(self)@.contains_key(id),
        ensures
            final(self)@ == old(self)@.insert(id, out@),
    {
        proof {
            use_type_invariant(&*self);
            lemma_entry_map_domain(self.entries@);
        }
        let ghost s0 = self.entries@;
        let mut entries = Vec::new();
        std::mem::swap(&mut entries, &mut self.entries);
        entries.push((id, out));
        proof {
            assert(entries@.drop_last() =~= s0);
            assert forall|i: int, j: int| 0 <= i < j < entries@.len() implies entries@[i].0
                != entries@[j].0 by {
                if j == entries@.len() - 1 {
                    assert(s0[i].0 != id);
                }
            }
        }
        self.entries = entries;
    }
}

} // verus!
