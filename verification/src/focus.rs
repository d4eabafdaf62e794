//! Keyboard-focus bookkeeping: the single id of the box that currently owns
//! keyboard input, plus an optional per-box cursor position — a side-channel
//! a component reads to restore or draw its insertion caret, not ownership
//! of rendering.

use vstd::prelude::*;

use crate::dimens::Position;

verus! {

/// An id-keyed entry of the cursor map.
type CursorEntry = (String, Option<Position>);

/// First-match lookup in the cursor map; with unique keys it is the only
/// match. `None` means the id has no entry at all, `Some(None)` an entry
/// that explicitly holds no cursor.
pub open spec fn spec_cursor_lookup(entries: Seq<CursorEntry>, id: Seq<char>) -> Option<
    Option<Position>,
>
    decreases entries.len(),
{
    if entries.len() == 0 {
        None
    } else if entries[0].0@ == id {
        Some(entries[0].1)
    } else {
        spec_cursor_lookup(entries.drop_first(), id)
    }
}

/// Each box id appears at most once in the cursor map.
pub open spec fn spec_cursor_keys_unique(entries: Seq<CursorEntry>) -> bool {
    forall|i: int, j: int|
        0 <= i < j < entries.len() ==> entries[i].0@ != entries[j].0@
}

proof fn lemma_lookup_after_update(
    entries: Seq<CursorEntry>,
    idx: int,
    entry: CursorEntry,
    q: Seq<char>,
)
    requires
        0 <= idx < entries.len(),
        entry.0@ == entries[idx].0@,
        forall|j: int| 0 <= j < idx ==> entries[j].0@ != entries[idx].0@,
    ensures
        q == entries[idx].0@ ==> spec_cursor_lookup(entries.update(idx, entry), q) == Some(
            entry.1,
        ),
        q != entries[idx].0@ ==> spec_cursor_lookup(entries.update(idx, entry), q)
            == spec_cursor_lookup(entries, q),
    decreases entries.len(),
{
    let updated = entries.update(idx, entry);
    if idx == 0 {
        assert(updated[0] == entry);
        assert(updated.drop_first() =~= entries.drop_first());
    } else {
        assert(updated[0] == entries[0]);
        assert(updated.drop_first() =~= entries.drop_first().update(idx - 1, entry));
        assert forall|j: int|
            0 <= j < idx - 1 implies #[trigger] entries.drop_first()[j].0@ != entries.drop_first()[
        idx - 1].0@ by {
            assert(entries.drop_first()[j] == entries[j + 1]);
        }
        lemma_lookup_after_update(entries.drop_first(), idx - 1, entry, q);
    }
}

proof fn lemma_lookup_none(entries: Seq<CursorEntry>, q: Seq<char>)
    requires
        forall|j: int| 0 <= j < entries.len() ==> entries[j].0@ != q,
    ensures
        spec_cursor_lookup(entries, q) is None,
    decreases entries.len(),
{
    if entries.len() > 0 {
        assert forall|j: int|
            0 <= j < entries.drop_first().len() implies entries.drop_first()[j].0@ != q by {
            assert(entries.drop_first()[j] == entries[j + 1]);
        }
        lemma_lookup_none(entries.drop_first(), q);
    }
}

proof fn lemma_lookup_after_push(
    entries: Seq<CursorEntry>,
    entry: CursorEntry,
    q: Seq<char>,
)
    requires
        spec_cursor_lookup(entries, entry.0@) is None,
    ensures
        q == entry.0@ ==> spec_cursor_lookup(entries.push(entry), q) == Some(entry.1),
        q != entry.0@ ==> spec_cursor_lookup(entries.push(entry), q) == spec_cursor_lookup(
            entries,
            q,
        ),
    decreases entries.len(),
{
    let pushed = entries.push(entry);
    if entries.len() == 0 {
        assert(pushed[0] == entry);
        assert(pushed.drop_first() =~= Seq::<CursorEntry>::empty());
    } else {
        assert(pushed[0] == entries[0]);
        assert(pushed.drop_first() =~= entries.drop_first().push(entry));
        lemma_lookup_after_push(entries.drop_first(), entry, q);
    }
}

/// The focus holder: which box id owns keyboard input, and each id's
/// remembered cursor position.
#[derive(Clone, PartialEq, Debug)]
pub struct StateManageFocusData {
    pub cursor_position_map: Vec<CursorEntry>,
    pub id_with_focus: String,
}

impl Default for StateManageFocusData {
    fn default() -> (r: StateManageFocusData)
        ensures
            r.cursor_position_map@ == Seq::<CursorEntry>::empty(),
            r.id_with_focus@ == Seq::<char>::empty(),
            r.well_formed(),
    {
        StateManageFocusData { cursor_position_map: Vec::new(), id_with_focus: String::new() }
    }
}

impl StateManageFocusData {
    /// No id has two entries in the cursor map.
    pub open spec fn well_formed(&self) -> bool {
        spec_cursor_keys_unique(self.cursor_position_map@)
    }

    pub fn new() -> (r: StateManageFocusData)
        ensures
            r.cursor_position_map@ == Seq::<CursorEntry>::empty(),
            r.id_with_focus@ == Seq::<char>::empty(),
            r.well_formed(),
    {
        StateManageFocusData { cursor_position_map: Vec::new(), id_with_focus: String::new() }
    }

    /// The id of the box that has keyboard focus.
    pub fn get_focus_id(&self) -> (r: String)
        ensures
            r@ == self.id_with_focus@,
    {
        self.id_with_focus.clone()
    }

    /// Moves keyboard focus to the given box id.
    pub fn set_focus_id(&mut self, id: &str)
        ensures
            final(self).id_with_focus@ == id@,
            final(self).cursor_position_map == old(self).cursor_position_map,
    {
        self.id_with_focus = id.to_owned();
    }

    /// Remembers (or clears, with `None`) the cursor position for one box
    /// id, leaving every other id's entry untouched.
    pub fn set_cursor_position_for_id(&mut self, id: &str, maybe_position: Option<Position>)
        requires
            old(self).well_formed(),
        ensures
            final(self).well_formed(),
            final(self).id_with_focus == old(self).id_with_focus,
            spec_cursor_lookup(final(self).cursor_position_map@, id@) == Some(maybe_position),
            forall|other: Seq<char>|
                other != id@ ==> spec_cursor_lookup(final(self).cursor_position_map@, other)
                    == spec_cursor_lookup(old(self).cursor_position_map@, other),
    {
        let key: String = id.to_owned();
        let n = self.cursor_position_map.len();
        let mut i: usize = 0;
        while i < n
            invariant
                i <= n,
                n == self.cursor_position_map@.len(),
                key@ == id@,
                *self == *old(self),
                spec_cursor_keys_unique(self.cursor_position_map@),
                forall|j: int| 0 <= j < i ==> self.cursor_position_map@[j].0@ != id@,
            decreases n - i,
        {
            if self.cursor_position_map[i].0 == key {
                let ghost entries = self.cursor_position_map@;
                let slot = &mut self.cursor_position_map[i];
                *slot = (key, maybe_position);
                proof {
                    let new_entry = self.cursor_position_map@[i as int];
                    assert(new_entry.0@ == id@);
                    assert(new_entry.1 == maybe_position);
                    assert(entries[i as int].0@ == id@);
                    assert(self.cursor_position_map@ == entries.update(i as int, new_entry));
                    lemma_lookup_after_update(entries, i as int, new_entry, id@);
                    assert(spec_cursor_lookup(self.cursor_position_map@, id@) == Some(
                        maybe_position,
                    ));
                    assert forall|q: Seq<char>|
                        q != id@ implies spec_cursor_lookup(self.cursor_position_map@, q)
                        == spec_cursor_lookup(entries, q) by {
                        lemma_lookup_after_update(entries, i as int, new_entry, q);
                    }
                    assert forall|x: int|
                        0 <= x < self.cursor_position_map@.len() implies #[trigger] self
                        .cursor_position_map@[x].0@ == entries[x].0@ by {
                        if x == i as int {
                            assert(self.cursor_position_map@[x] == new_entry);
                        } else {
                            assert(self.cursor_position_map@[x] == entries[x]);
                        }
                    }
                    assert forall|i2: int, j2: int|
                        0 <= i2 < j2 < self.cursor_position_map@.len() implies self
                        .cursor_position_map@[i2].0@ != self.cursor_position_map@[j2].0@ by {
                        assert(self.cursor_position_map@[i2].0@ == entries[i2].0@);
                        assert(self.cursor_position_map@[j2].0@ == entries[j2].0@);
                        assert(entries[i2].0@ != entries[j2].0@);
                    }
                }
                return ;
            }
            i += 1;
        }
        let ghost entries = self.cursor_position_map@;
        proof {
            lemma_lookup_none(entries, id@);
        }
        self.cursor_position_map.push((key, maybe_position));
        proof {
            let new_entry = self.cursor_position_map@.last();
            assert(new_entry.0@ == id@);
            assert(new_entry.1 == maybe_position);
            assert(self.cursor_position_map@ == entries.push(new_entry));
            assert forall|q: Seq<char>| true implies {
                &&& (q == id@ ==> spec_cursor_lookup(self.cursor_position_map@, q) == Some(
                    maybe_position,
                ))
                &&& (q != id@ ==> spec_cursor_lookup(self.cursor_position_map@, q)
                    == spec_cursor_lookup(entries, q))
            } by {
                lemma_lookup_after_push(entries, new_entry, q);
            }
            assert forall|i2: int, j2: int|
                0 <= i2 < j2 < self.cursor_position_map@.len() implies self
                .cursor_position_map@[i2].0@ != self.cursor_position_map@[j2].0@ by {
                if j2 < entries.len() {
                    assert(self.cursor_position_map@[i2] == entries[i2]);
                    assert(self.cursor_position_map@[j2] == entries[j2]);
                } else {
                    assert(self.cursor_position_map@[i2] == entries[i2]);
                    assert(self.cursor_position_map@[j2] == new_entry);
                }
            }
        }
    }

    /// The remembered cursor position for one box id, or `None` when the id
    /// has no entry or its entry holds no cursor.
    pub fn get_cursor_position_for_id(&self, id: &str) -> (r: Option<Position>)
        ensures
            r == (match spec_cursor_lookup(self.cursor_position_map@, id@) {
                Some(maybe_position) => maybe_position,
                None => None::<Position>,
            }),
    {
        let key: String = id.to_owned();
        let n = self.cursor_position_map.len();
        proof {
            assert(self.cursor_position_map@.skip(0) =~= self.cursor_position_map@);
        }
        let mut i: usize = 0;
        while i < n
            invariant
                i <= n,
                n == self.cursor_position_map@.len(),
                key@ == id@,
                spec_cursor_lookup(self.cursor_position_map@.skip(i as int), id@)
                    == spec_cursor_lookup(self.cursor_position_map@, id@),
            decreases n - i,
        {
            proof {
                assert(self.cursor_position_map@.skip(i as int)[0]
                    == self.cursor_position_map@[i as int]);
                assert(self.cursor_position_map@.skip(i as int).drop_first() =~= self
                    .cursor_position_map@.skip(i + 1));
            }
            if self.cursor_position_map[i].0 == key {
                return self.cursor_position_map[i].1;
            }
            i += 1;
        }
        proof {
            assert(self.cursor_position_map@.skip(n as int) =~= Seq::<CursorEntry>::empty());
        }
        None
    }
}

} // verus!
