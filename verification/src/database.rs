//! The table of guilds: at most one entry for each guild id, kept in the
//! order in which the ids were first stored.

use vstd::prelude::*;
use crate::entry::{
    entries_view, entry_of_row, entry_view, GuildEntry, GuildEntryView, Row, RowView,
};
use crate::text::{contains_folded, contains_ignore_case};

verus! {

/// No two rows share a guild id.
pub open spec fn distinct_ids(rows: Seq<GuildEntryView>) -> bool {
    forall|i: int, j: int|
        0 <= i < j < rows.len() ==> (#[trigger] rows[i]).guild_id != (#[trigger] rows[j]).guild_id
}

/// Whether some row holds `guild_id`.
pub open spec fn has_id(rows: Seq<GuildEntryView>, guild_id: u64) -> bool {
    exists|i: int| 0 <= i < rows.len() && (#[trigger] rows[i]).guild_id == guild_id
}

/// The index of a row that holds `guild_id`, where there is one.
pub open spec fn position(rows: Seq<GuildEntryView>, guild_id: u64) -> int {
    choose|i: int| 0 <= i < rows.len() && (#[trigger] rows[i]).guild_id == guild_id
}

/// The entry stored under `guild_id`, if any.
pub open spec fn lookup(rows: Seq<GuildEntryView>, guild_id: u64) -> Option<GuildEntryView> {
    if has_id(rows, guild_id) {
        Some(rows[position(rows, guild_id)])
    } else {
        None
    }
}

/// The table after `entry` is stored: it takes the place of the row with its
/// id, or comes last where there is none.
pub open spec fn upsert(rows: Seq<GuildEntryView>, entry: GuildEntryView) -> Seq<GuildEntryView> {
    if has_id(rows, entry.guild_id) {
        rows.update(position(rows, entry.guild_id), entry)
    } else {
        rows.push(entry)
    }
}

/// The table after the row with `guild_id`, if any, is taken out.
pub open spec fn delete(rows: Seq<GuildEntryView>, guild_id: u64) -> Seq<GuildEntryView> {
    if has_id(rows, guild_id) {
        rows.remove(position(rows, guild_id))
    } else {
        rows
    }
}

/// The table after each of `entries` is stored, first to last.
pub open spec fn upsert_all(rows: Seq<GuildEntryView>, entries: Seq<GuildEntryView>) -> Seq<
    GuildEntryView,
>
    decreases entries.len(),
{
    if entries.len() == 0 {
        rows
    } else {
        upsert(upsert_all(rows, entries.drop_last()), entries.last())
    }
}

/// Whether `name` is found in the name of `entry`, letter case aside.
pub open spec fn name_matches(entry: GuildEntryView, name: Seq<char>) -> bool {
    contains_folded(entry.name, name)
}

/// The rows whose name contains `name`, in table order.
pub open spec fn matching(rows: Seq<GuildEntryView>, name: Seq<char>) -> Seq<GuildEntryView>
    decreases rows.len(),
{
    if rows.len() == 0 {
        Seq::empty()
    } else {
        let before = matching(rows.drop_last(), name);
        if name_matches(rows.last(), name) {
            before.push(rows.last())
        } else {
            before
        }
    }
}

/// The entries that `rows` hold, in order.
pub open spec fn entries_of_rows(rows: Seq<Row>) -> Seq<GuildEntryView> {
    Seq::new(rows.len(), |i: int| entry_of_row(rows[i]@))
}

/// Where ids are distinct, the row that holds an id is the only one.
pub proof fn lemma_position_unique(rows: Seq<GuildEntryView>, at: int)
    requires
        distinct_ids(rows),
        0 <= at < rows.len(),
    ensures
        has_id(rows, rows[at].guild_id),
        position(rows, rows[at].guild_id) == at,
        lookup(rows, rows[at].guild_id) == Some(rows[at]),
{
    let p = position(rows, rows[at].guild_id);
    if p < at {
        assert(rows[p].guild_id != rows[at].guild_id);
    } else if at < p {
        assert(rows[at].guild_id != rows[p].guild_id);
    }
}

/// Storing an entry keeps the ids distinct, makes it the entry found under
/// its id, and leaves what is found under every other id as it was.
pub proof fn lemma_upsert(rows: Seq<GuildEntryView>, entry: GuildEntryView)
    requires
        distinct_ids(rows),
    ensures
        distinct_ids(upsert(rows, entry)),
        lookup(upsert(rows, entry), entry.guild_id) == Some(entry),
        forall|other: u64|
            other != entry.guild_id ==> lookup(upsert(rows, entry), other) == lookup(rows, other),
{
    let after = upsert(rows, entry);
    let at = if has_id(rows, entry.guild_id) {
        position(rows, entry.guild_id)
    } else {
        rows.len() as int
    };
    assert(after.len() > at && after[at] == entry);
    assert forall|i: int| 0 <= i < after.len() && i != at implies after[i] == rows[i]
        && rows[i].guild_id != entry.guild_id by {
        if has_id(rows, entry.guild_id) {
            lemma_position_unique(rows, i);
        }
    }
    assert forall|i: int, j: int| 0 <= i < j < after.len() implies (#[trigger] after[i]).guild_id
        != (#[trigger] after[j]).guild_id by {
        if i != at && j != at {
            assert(rows[i].guild_id != rows[j].guild_id);
        }
    }
    lemma_position_unique(after, at);
    assert forall|other: u64| other != entry.guild_id implies lookup(after, other) == lookup(
        rows,
        other,
    ) by {
        if has_id(rows, other) {
            let p = position(rows, other);
            assert(after[p] == rows[p]);
            lemma_position_unique(after, p);
        } else if has_id(after, other) {
            let p = position(after, other);
            assert(rows[p].guild_id == other);
        }
    }
}

/// Of two entries stored one after the other under one id, the first is what
/// the second replaces, and the second is what is found afterwards.
pub proof fn lemma_last_write_wins(
    rows: Seq<GuildEntryView>,
    first: GuildEntryView,
    second: GuildEntryView,
)
    requires
        distinct_ids(rows),
        first.guild_id == second.guild_id,
    ensures
        lookup(upsert(rows, first), second.guild_id) == Some(first),
        lookup(upsert(upsert(rows, first), second), first.guild_id) == Some(second),
{
    lemma_upsert(rows, first);
    lemma_upsert(upsert(rows, first), second);
}

/// Taking an id out keeps the ids distinct, leaves nothing under that id and
/// everything under the others; where the id was absent, the table is
/// unchanged.
pub proof fn lemma_delete(rows: Seq<GuildEntryView>, guild_id: u64)
    requires
        distinct_ids(rows),
    ensures
        distinct_ids(delete(rows, guild_id)),
        lookup(delete(rows, guild_id), guild_id) is None,
        forall|other: u64|
            other != guild_id ==> lookup(delete(rows, guild_id), other) == lookup(rows, other),
        lookup(rows, guild_id) is None ==> delete(rows, guild_id) == rows,
{
    let after = delete(rows, guild_id);
    if has_id(rows, guild_id) {
        let at = position(rows, guild_id);
        assert forall|i: int| 0 <= i < after.len() implies (#[trigger] after[i]) == rows[if i
            < at {
            i
        } else {
            i + 1
        }] && after[i].guild_id != guild_id by {
            let k = if i < at {
                i
            } else {
                i + 1
            };
            lemma_position_unique(rows, k);
        }
        assert forall|i: int, j: int| 0 <= i < j < after.len() implies (#[trigger] after[i]).guild_id
            != (#[trigger] after[j]).guild_id by {
            let a = if i < at {
                i
            } else {
                i + 1
            };
            let b = if j < at {
                j
            } else {
                j + 1
            };
            assert(rows[a].guild_id != rows[b].guild_id);
        }
        assert forall|other: u64| other != guild_id implies lookup(after, other) == lookup(
            rows,
            other,
        ) by {
            if has_id(rows, other) {
                let p = position(rows, other);
                let q = if p < at {
                    p
                } else {
                    p - 1
                };
                assert(after[q] == rows[p]);
                lemma_position_unique(after, q);
            } else if has_id(after, other) {
                let q = position(after, other);
                let p = if q < at {
                    q
                } else {
                    q + 1
                };
                assert(rows[p].guild_id == other);
            }
        }
    }
}

/// A search holds exactly the rows of the table whose name contains the
/// text that was searched for.
pub proof fn lemma_matching(rows: Seq<GuildEntryView>, name: Seq<char>)
    ensures
        forall|entry: GuildEntryView|
            matching(rows, name).contains(entry) <==> rows.contains(entry) && name_matches(
                entry,
                name,
            ),
    decreases rows.len(),
{
    if rows.len() > 0 {
        let front = rows.drop_last();
        lemma_matching(front, name);
        let before = matching(front, name);
        assert forall|entry: GuildEntryView|
            matching(rows, name).contains(entry) <==> rows.contains(entry) && name_matches(
                entry,
                name,
            ) by {
            if rows.contains(entry) {
                let i = choose|i: int| 0 <= i < rows.len() && rows[i] == entry;
                if i < front.len() {
                    assert(front[i] == entry);
                }
            }
            if front.contains(entry) {
                let i = choose|i: int| 0 <= i < front.len() && front[i] == entry;
                assert(rows[i] == entry);
            }
            assert(rows[rows.len() - 1] == rows.last());
            if name_matches(rows.last(), name) {
                let found = before.push(rows.last());
                assert(found[before.len() as int] == rows.last());
                if before.contains(entry) {
                    let i = choose|i: int| 0 <= i < before.len() && before[i] == entry;
                    assert(found[i] == entry);
                }
                if found.contains(entry) {
                    let i = choose|i: int| 0 <= i < found.len() && found[i] == entry;
                    if i < before.len() {
                        assert(before[i] == entry);
                    }
                }
            }
        }
    }
}

/// The directory of guilds.
pub struct Database {
    rows: Vec<GuildEntry>,
}

impl View for Database {
    type V = Seq<GuildEntryView>;

    closed spec fn view(&self) -> Seq<GuildEntryView> {
        entries_view(self.rows@)
    }
}

impl Database {
    #[verifier::type_invariant]
    spec fn unique(&self) -> bool {
        distinct_ids(self@)
    }

    fn find(&self, guild_id: u64) -> (at: Option<usize>)
        ensures
            distinct_ids(self@),
            match at {
                Some(i) => i < self.rows@.len() && has_id(self@, guild_id) && position(
                    self@,
                    guild_id,
                ) == i,
                None => !has_id(self@, guild_id),
            },
    {
        proof {
            use_type_invariant(self);
        }
        let mut i: usize = 0;
        while i < self.rows.len()
            invariant
                i <= self.rows@.len(),
                distinct_ids(self@),
                forall|k: int| 0 <= k < i ==> (#[trigger] self@[k]).guild_id != guild_id,
            decreases self.rows@.len() - i,
        {
            if self.rows[i].guild_id == guild_id {
                proof {
                    lemma_position_unique(self@, i as int);
                }
                return Some(i);
            }
            i += 1;
        }
        None
    }

    /// Opens the table over the rows that storage holds, read first to last.
    pub fn open(rows: &[Row]) -> (database: Database)
        ensures
            database@ == upsert_all(Seq::empty(), entries_of_rows(rows@)),
            distinct_ids(database@),
    {
        let mut database = Database { rows: Vec::new() };
        let ghost all = entries_of_rows(rows@);
        let mut i: usize = 0;
        assert(all.take(0) =~= Seq::<GuildEntryView>::empty());
        while i < rows.len()
            invariant
                i <= rows@.len(),
                all == entries_of_rows(rows@),
                database@ == upsert_all(Seq::empty(), all.take(i as int)),
            decreases rows@.len() - i,
        {
            let entry = GuildEntry::from_row(&rows[i]);
            proof {
                let next = all.take(i + 1);
                assert(next.drop_last() =~= all.take(i as int));
                assert(next.last() == entry@);
            }
            database.insert(&entry);
            i += 1;
        }
        assert(all.take(rows@.len() as int) =~= all);
        proof {
            use_type_invariant(&database);
        }
        database
    }

    /// Stores `value`, in place of the entry with its id where there is
    /// one, and returns the entry that it replaced.
    pub fn insert(&mut self, value: &GuildEntry) -> (prior: Option<GuildEntry>)
        ensures
            entry_view(prior) == lookup(old(self)@, value.guild_id),
            final(self)@ == upsert(old(self)@, value@),
            distinct_ids(final(self)@),
    {
        let found = self.find(value.guild_id);
        proof {
            lemma_upsert(self@, value@);
        }
        let mut rows: Vec<GuildEntry> = Vec::new();
        core::mem::swap(&mut self.rows, &mut rows);
        let prior = match found {
            Some(i) => {
                let prior = rows[i].clone();
                rows.set(i, value.clone());
                Some(prior)
            },
            None => {
                rows.push(value.clone());
                None
            },
        };
        assert(entries_view(rows@) =~= upsert(old(self)@, value@));
        self.rows = rows;
        prior
    }

    /// Takes out the entry stored under `guild_id` and returns it; leaves
    /// the table as it is where there is none.
    pub fn remove(&mut self, guild_id: u64) -> (prior: Option<GuildEntry>)
        ensures
            entry_view(prior) == lookup(old(self)@, guild_id),
            final(self)@ == delete(old(self)@, guild_id),
            distinct_ids(final(self)@),
    {
        let found = self.find(guild_id);
        proof {
            lemma_delete(self@, guild_id);
        }
        match found {
            Some(i) => {
                let mut rows: Vec<GuildEntry> = Vec::new();
                core::mem::swap(&mut self.rows, &mut rows);
                let prior = rows.remove(i);
                assert(entries_view(rows@) =~= delete(old(self)@, guild_id));
                self.rows = rows;
                Some(prior)
            },
            None => None,
        }
    }

    /// The entry stored under `guild_id`, if any.
    pub fn get(&self, guild_id: u64) -> (entry: Option<GuildEntry>)
        ensures
            entry_view(entry) == lookup(self@, guild_id),
    {
        match self.find(guild_id) {
            Some(i) => Some(self.rows[i].clone()),
            None => None,
        }
    }

    /// The entries whose name contains `name`, letter case aside, in table
    /// order.
    pub fn search(&self, name: &str) -> (found: Vec<GuildEntry>)
        ensures
            entries_view(found@) == matching(self@, name@),
    {
        let mut found: Vec<GuildEntry> = Vec::new();
        let mut i: usize = 0;
        assert(self@.take(0) =~= Seq::<GuildEntryView>::empty());
        assert(entries_view(found@) =~= Seq::<GuildEntryView>::empty());
        while i < self.rows.len()
            invariant
                i <= self.rows@.len(),
                entries_view(found@) == matching(self@.take(i as int), name@),
            decreases self.rows@.len() - i,
        {
            proof {
                let next = self@.take(i + 1);
                assert(next.drop_last() =~= self@.take(i as int));
                assert(next.last() == self.rows@[i as int]@);
            }
            let ghost before = entries_view(found@);
            if contains_ignore_case(self.rows[i].name.as_str(), name) {
                found.push(self.rows[i].clone());
                assert(entries_view(found@) =~= before.push(self.rows@[i as int]@));
            }
            i += 1;
        }
        assert(self@.take(self.rows@.len() as int) =~= self@);
        found
    }

    /// Every entry of the table, in table order.
    pub fn export(&self) -> (entries: Vec<GuildEntry>)
        ensures
            entries_view(entries@) == self@,
            distinct_ids(self@),
    {
        proof {
            use_type_invariant(self);
        }
        let mut entries: Vec<GuildEntry> = Vec::new();
        let mut i: usize = 0;
        while i < self.rows.len()
            invariant
                i <= self.rows@.len(),
                entries_view(entries@) =~= self@.take(i as int),
            decreases self.rows@.len() - i,
        {
            let ghost before = entries_view(entries@);
            entries.push(self.rows[i].clone());
            assert(entries_view(entries@) =~= before.push(self.rows@[i as int]@));
            i += 1;
        }
        assert(self@.take(self.rows@.len() as int) =~= self@);
        entries
    }

    /// Stores each of `entries`, first to last.
    pub fn import(&mut self, entries: &[GuildEntry])
        ensures
            final(self)@ == upsert_all(old(self)@, entries_view(entries@)),
            distinct_ids(final(self)@),
    {
        proof {
            use_type_invariant(&*self);
        }
        let ghost all = entries_view(entries@);
        let mut i: usize = 0;
        assert(all.take(0) =~= Seq::<GuildEntryView>::empty());
        while i < entries.len()
            invariant
                i <= entries@.len(),
                all == entries_view(entries@),
                self@ == upsert_all(old(self)@, all.take(i as int)),
                distinct_ids(self@),
            decreases entries@.len() - i,
        {
            proof {
                let next = all.take(i + 1);
                assert(next.drop_last() =~= all.take(i as int));
                assert(next.last() == entries@[i as int]@);
            }
            self.insert(&entries[i]);
            i += 1;
        }
        assert(all.take(entries@.len() as int) =~= all);
    }
}

} // verus!
