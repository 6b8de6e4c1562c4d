//! The table of assets that the service keeps: for each user and path the checksum of
//! the file, the Immich asset that it is linked to, if any, and when it was created, if
//! that is known.
use vstd::prelude::*;

use crate::text::{copy_bytes, copy_opt, opt_str, opt_text, same_bytes, same_text};

verus! {

/// A row of the table.
#[derive(Debug, PartialEq, Eq)]
pub struct AssetEntry {
    pub user_id: String,
    pub asset_path: String,
    pub checksum: Vec<u8>,
    pub asset_id: Option<String>,
    pub created_at: Option<String>,
}

/// What is found under a user and a path.
#[derive(Debug, PartialEq, Eq)]
pub struct AssetRow {
    pub asset_id: Option<String>,
}

/// An asset that is linked to an asset of the server.
#[derive(Debug, PartialEq, Eq)]
pub struct TrackedAsset {
    pub asset_path: String,
    pub checksum: Vec<u8>,
}

/// The table. No user has two rows with the same path.
pub struct LocalDatabase {
    rows: Vec<AssetEntry>,
}

/// What the table holds of a file.
pub struct AssetView {
    pub checksum: Seq<u8>,
    pub asset_id: Option<Seq<char>>,
    pub created_at: Option<Seq<char>>,
}

/// What the table is as a map, from user and path.
pub type Table = Map<(Seq<char>, Seq<char>), AssetView>;

/// The first of two values that is there.
pub open spec fn coalesce(first: Option<Seq<char>>, second: Option<Seq<char>>) -> Option<
    Seq<char>,
> {
    if first is Some {
        first
    } else {
        second
    }
}

/// What a row becomes when a file is recorded again. A link belongs to the content: it
/// is kept while the checksum stays the same and given up when it changes. A creation
/// time is kept unless there is a new one.
pub open spec fn recorded(
    row: Option<AssetView>,
    checksum: Seq<u8>,
    asset_id: Option<Seq<char>>,
    created_at: Option<Seq<char>>,
) -> AssetView {
    match row {
        None => AssetView { checksum, asset_id, created_at },
        Some(row) => AssetView {
            checksum,
            asset_id: if row.checksum == checksum {
                coalesce(asset_id, row.asset_id)
            } else {
                asset_id
            },
            created_at: coalesce(created_at, row.created_at),
        },
    }
}

/// The table after a file was recorded.
pub open spec fn with_record(
    table: Table,
    key: (Seq<char>, Seq<char>),
    checksum: Seq<u8>,
    asset_id: Option<Seq<char>>,
    created_at: Option<Seq<char>>,
) -> Table {
    table.insert(key, recorded(table.get(key), checksum, asset_id, created_at))
}

/// What a row becomes when it is linked to an asset.
pub open spec fn linked(
    row: AssetView,
    asset_id: Seq<char>,
    created_at: Option<Seq<char>>,
) -> AssetView {
    AssetView {
        checksum: row.checksum,
        asset_id: Some(asset_id),
        created_at: coalesce(created_at, row.created_at),
    }
}

/// Whether a row waits for the link of a content of a user.
pub open spec fn waits_for(
    table: Table,
    key: (Seq<char>, Seq<char>),
    user_id: Seq<char>,
    checksum: Seq<u8>,
) -> bool {
    table.contains_key(key) && key.0 == user_id && table[key].checksum == checksum
        && table[key].asset_id is None
}

/// The table after every unlinked row of a user with a content was linked.
pub open spec fn with_links(
    table: Table,
    user_id: Seq<char>,
    checksum: Seq<u8>,
    asset_id: Seq<char>,
    created_at: Option<Seq<char>>,
) -> Table {
    Map::new(
        |key: (Seq<char>, Seq<char>)| table.contains_key(key),
        |key: (Seq<char>, Seq<char>)|
            if waits_for(table, key, user_id, checksum) {
                linked(table[key], asset_id, created_at)
            } else {
                table[key]
            },
    )
}

/// The table after a file was given its creation time: a row that has none gets it, with
/// everything else of it as it was.
pub open spec fn with_date(
    table: Table,
    key: (Seq<char>, Seq<char>),
    created_at: Seq<char>,
) -> Table {
    if table.contains_key(key) && table[key].created_at is None {
        table.insert(key, AssetView { created_at: Some(created_at), ..table[key] })
    } else {
        table
    }
}

/// Whether the table has an unlinked row of a user.
pub open spec fn is_unlinked(table: Table, user_id: Seq<char>, path: Seq<char>) -> bool {
    table.contains_key((user_id, path)) && table[(user_id, path)].asset_id is None
}

/// Whether the table has a linked row of a user.
pub open spec fn is_tracked(table: Table, user_id: Seq<char>, path: Seq<char>) -> bool {
    table.contains_key((user_id, path)) && table[(user_id, path)].asset_id is Some
}

/// What a list of paths and checksums holds.
pub open spec fn assets_view(assets: Seq<(String, Vec<u8>)>) -> Seq<(Seq<char>, Seq<u8>)> {
    assets.map_values(|asset: (String, Vec<u8>)| (asset.0@, asset.1@))
}

/// What a list of tracked assets holds.
pub open spec fn tracked_view(assets: Seq<TrackedAsset>) -> Seq<(Seq<char>, Seq<u8>)> {
    assets.map_values(|asset: TrackedAsset| (asset.asset_path@, asset.checksum@))
}

/// Whether a list holds the path and the checksum of each row of a user that is linked,
/// or of each that is not, once. The order is left open.
pub open spec fn lists(
    list: Seq<(Seq<char>, Seq<u8>)>,
    table: Table,
    user_id: Seq<char>,
    is_linked: bool,
) -> bool {
    &&& forall|i: int|
        #![trigger list[i]]
        0 <= i < list.len() ==> {
            &&& table.contains_key((user_id, list[i].0))
            &&& table[(user_id, list[i].0)].asset_id is Some == is_linked
            &&& table[(user_id, list[i].0)].checksum == list[i].1
        }
    &&& forall|i: int, j: int| 0 <= i < j < list.len() ==> list[i].0 != list[j].0
    &&& forall|path: Seq<char>|
        #![trigger table.contains_key((user_id, path))]
        table.contains_key((user_id, path)) && table[(user_id, path)].asset_id is Some == is_linked
            ==> exists|i: int| 0 <= i < list.len() && (#[trigger] list[i]).0 == path
}

impl AssetEntry {
    /// The user and the path of a row.
    pub open spec fn key(self) -> (Seq<char>, Seq<char>) {
        (self.user_id@, self.asset_path@)
    }

    /// What a row holds of its file.
    pub open spec fn content(self) -> AssetView {
        AssetView {
            checksum: self.checksum@,
            asset_id: opt_text(self.asset_id),
            created_at: opt_text(self.created_at),
        }
    }

    fn is_at(&self, user_id: &str, asset_path: &str) -> (r: bool)
        ensures
            r == (self.key() == (user_id@, asset_path@)),
    {
        same_text(self.user_id.as_str(), user_id) && same_text(self.asset_path.as_str(), asset_path)
    }
}

/// Whether a row is one of a user that is linked, or one that is not.
spec fn selected(row: AssetEntry, user_id: Seq<char>, is_linked: bool) -> bool {
    row.user_id@ == user_id && row.asset_id is Some == is_linked
}

/// What a row holds after a content of a user was linked.
spec fn link_of(
    row: AssetEntry,
    user_id: Seq<char>,
    checksum: Seq<u8>,
    asset_id: Seq<char>,
    created_at: Option<Seq<char>>,
) -> AssetView {
    if row.user_id@ == user_id && row.checksum@ == checksum && row.asset_id is None {
        linked(row.content(), asset_id, created_at)
    } else {
        row.content()
    }
}

spec fn distinct(rows: Seq<AssetEntry>) -> bool {
    forall|i: int, j: int|
        0 <= i < j < rows.len() ==> #[trigger] rows[i].key() != #[trigger] rows[j].key()
}

spec fn row_at(rows: Seq<AssetEntry>, key: (Seq<char>, Seq<char>), i: int) -> bool {
    0 <= i < rows.len() && rows[i].key() == key
}

spec fn table_of(rows: Seq<AssetEntry>) -> Table {
    Map::new(
        |key: (Seq<char>, Seq<char>)| exists|i: int| row_at(rows, key, i),
        |key: (Seq<char>, Seq<char>)| rows[choose|i: int| row_at(rows, key, i)].content(),
    )
}

proof fn row_is_in_table(rows: Seq<AssetEntry>, i: int)
    requires
        distinct(rows),
        0 <= i < rows.len(),
    ensures
        table_of(rows).contains_key(rows[i].key()),
        table_of(rows)[rows[i].key()] == rows[i].content(),
{
    let key = rows[i].key();
    assert(row_at(rows, key, i));
    let j = choose|j: int| row_at(rows, key, j);
    assert(rows[j].key() == rows[i].key());
}

/// A table is told by its rows.
proof fn rows_make_table(rows: Seq<AssetEntry>, table: Table)
    requires
        distinct(rows),
        forall|i: int|
            0 <= i < rows.len() ==> table.contains_key((#[trigger] rows[i]).key())
                && table[rows[i].key()] == rows[i].content(),
        forall|key: (Seq<char>, Seq<char>)| #[trigger]
            table.contains_key(key) ==> exists|i: int| row_at(rows, key, i),
    ensures
        table_of(rows) == table,
{
    assert forall|key: (Seq<char>, Seq<char>)|
        table_of(rows).contains_key(key) <==> table.contains_key(key) by {
        if table_of(rows).contains_key(key) {
            let i = choose|i: int| row_at(rows, key, i);
            assert(table.contains_key(rows[i].key()));
        }
    }
    assert forall|key: (Seq<char>, Seq<char>)| table_of(rows).contains_key(key) implies table_of(
        rows,
    )[key] == table[key] by {
        let i = choose|i: int| row_at(rows, key, i);
        row_is_in_table(rows, i);
        assert(table[rows[i].key()] == rows[i].content());
    }
    assert(table_of(rows) =~= table);
}

proof fn pushed(rows: Seq<AssetEntry>, entry: AssetEntry)
    requires
        distinct(rows),
        forall|i: int| 0 <= i < rows.len() ==> #[trigger] rows[i].key() != entry.key(),
    ensures
        distinct(rows.push(entry)),
        table_of(rows.push(entry)) == table_of(rows).insert(entry.key(), entry.content()),
        !table_of(rows).contains_key(entry.key()),
{
    let after = rows.push(entry);
    let table = table_of(rows).insert(entry.key(), entry.content());
    assert forall|i: int| 0 <= i < after.len() implies table.contains_key(
        (#[trigger] after[i]).key(),
    ) && table[after[i].key()] == after[i].content() by {
        if i < rows.len() {
            row_is_in_table(rows, i);
            assert(rows[i].key() != entry.key());
        }
    }
    assert forall|key: (Seq<char>, Seq<char>)| #[trigger] table.contains_key(key) implies exists|
        i: int,
    | row_at(after, key, i) by {
        if key == entry.key() {
            assert(row_at(after, key, rows.len() as int));
        } else {
            let i = choose|i: int| row_at(rows, key, i);
            assert(row_at(after, key, i));
        }
    }
    assert(distinct(after)) by {
        assert forall|i: int, j: int| 0 <= i < j < after.len() implies #[trigger] after[i].key()
            != #[trigger] after[j].key() by {
            assert(after[i] == rows[i]);
            if j < rows.len() {
                assert(after[j] == rows[j]);
                assert(rows[i].key() != rows[j].key());
            } else {
                assert(rows[i].key() != entry.key());
            }
        }
    }
    rows_make_table(after, table);
    if table_of(rows).contains_key(entry.key()) {
        let i = choose|i: int| row_at(rows, entry.key(), i);
        assert(rows[i].key() == entry.key());
    }
}

proof fn replaced(rows: Seq<AssetEntry>, i: int, entry: AssetEntry)
    requires
        distinct(rows),
        0 <= i < rows.len(),
        rows[i].key() == entry.key(),
    ensures
        distinct(rows.update(i, entry)),
        table_of(rows.update(i, entry)) == table_of(rows).insert(entry.key(), entry.content()),
{
    let after = rows.update(i, entry);
    let table = table_of(rows).insert(entry.key(), entry.content());
    assert forall|j: int| 0 <= j < after.len() implies (#[trigger] after[j]).key()
        == rows[j].key() by {}
    assert(distinct(after)) by {
        assert forall|j: int, k: int| 0 <= j < k < after.len() implies #[trigger] after[j].key()
            != #[trigger] after[k].key() by {
            assert(rows[j].key() != rows[k].key());
        }
    }
    assert forall|j: int| 0 <= j < after.len() implies table.contains_key(
        (#[trigger] after[j]).key(),
    ) && table[after[j].key()] == after[j].content() by {
        row_is_in_table(rows, j);
        if j != i {
            if j < i {
                assert(rows[j].key() != rows[i].key());
            } else {
                assert(rows[i].key() != rows[j].key());
            }
        }
    }
    assert forall|key: (Seq<char>, Seq<char>)| #[trigger] table.contains_key(key) implies exists|
        j: int,
    | row_at(after, key, j) by {
        if key == entry.key() {
            assert(row_at(after, key, i));
        } else {
            let j = choose|j: int| row_at(rows, key, j);
            assert(row_at(after, key, j));
        }
    }
    rows_make_table(after, table);
}

proof fn removed(rows: Seq<AssetEntry>, i: int)
    requires
        distinct(rows),
        0 <= i < rows.len(),
    ensures
        distinct(rows.remove(i)),
        table_of(rows.remove(i)) == table_of(rows).remove(rows[i].key()),
{
    let after = rows.remove(i);
    let table = table_of(rows).remove(rows[i].key());
    assert(distinct(after)) by {
        assert forall|j: int, k: int| 0 <= j < k < after.len() implies #[trigger] after[j].key()
            != #[trigger] after[k].key() by {
            let j2 = if j < i {
                j
            } else {
                j + 1
            };
            let k2 = if k < i {
                k
            } else {
                k + 1
            };
            assert(rows[j2].key() != rows[k2].key());
        }
    }
    assert forall|j: int| 0 <= j < after.len() implies table.contains_key(
        (#[trigger] after[j]).key(),
    ) && table[after[j].key()] == after[j].content() by {
        let j2 = if j < i {
            j
        } else {
            j + 1
        };
        assert(after[j] == rows[j2]);
        row_is_in_table(rows, j2);
        if j2 < i {
            assert(rows[j2].key() != rows[i].key());
        } else {
            assert(rows[i].key() != rows[j2].key());
        }
    }
    assert forall|key: (Seq<char>, Seq<char>)| #[trigger] table.contains_key(key) implies exists|
        j: int,
    | row_at(after, key, j) by {
        let j = choose|j: int| row_at(rows, key, j);
        let j2 = if j < i {
            j
        } else {
            j - 1
        };
        assert(after[j2] == rows[j]);
        assert(row_at(after, key, j2));
    }
    rows_make_table(after, table);
}

proof fn absent(rows: Seq<AssetEntry>, key: (Seq<char>, Seq<char>))
    requires
        forall|i: int| 0 <= i < rows.len() ==> #[trigger] rows[i].key() != key,
    ensures
        !table_of(rows).contains_key(key),
        table_of(rows).remove(key) == table_of(rows),
{
    if table_of(rows).contains_key(key) {
        let i = choose|i: int| row_at(rows, key, i);
        assert(rows[i].key() == key);
    }
    assert(table_of(rows).remove(key) =~= table_of(rows));
}

/// A list made of the selected rows holds what the table says it should.
proof fn listed(
    rows: Seq<AssetEntry>,
    at: Seq<usize>,
    list: Seq<(Seq<char>, Seq<u8>)>,
    user_id: Seq<char>,
    is_linked: bool,
)
    requires
        distinct(rows),
        list.len() == at.len(),
        forall|i: int|
            0 <= i < at.len() ==> #[trigger] at[i] < rows.len() && selected(
                rows[at[i] as int],
                user_id,
                is_linked,
            ),
        forall|i: int, j: int| 0 <= i < j < at.len() ==> at[i] < at[j],
        forall|k: int|
            0 <= k < rows.len() && selected(#[trigger] rows[k], user_id, is_linked) ==> at.contains(
                k as usize,
            ),
        forall|i: int|
            0 <= i < list.len() ==> #[trigger] list[i] == (
                rows[at[i] as int].asset_path@,
                rows[at[i] as int].checksum@,
            ),
        rows.len() <= usize::MAX,
    ensures
        lists(list, table_of(rows), user_id, is_linked),
{
    let table = table_of(rows);
    assert forall|i: int| #![trigger list[i]] 0 <= i < list.len() implies {
        &&& table.contains_key((user_id, list[i].0))
        &&& table[(user_id, list[i].0)].asset_id is Some == is_linked
        &&& table[(user_id, list[i].0)].checksum == list[i].1
    } by {
        assert(at[i] < rows.len());
        row_is_in_table(rows, at[i] as int);
    }
    assert forall|i: int, j: int| 0 <= i < j < list.len() implies list[i].0 != list[j].0 by {
        assert(at[i] < at[j]);
        assert(rows[at[i] as int].key() != rows[at[j] as int].key());
    }
    assert forall|path: Seq<char>|
        #![trigger table.contains_key((user_id, path))]
        table.contains_key((user_id, path)) && table[(user_id, path)].asset_id is Some
            == is_linked implies exists|i: int| 0 <= i < list.len() && (#[trigger] list[i]).0
        == path by {
        let k = choose|k: int| row_at(rows, (user_id, path), k);
        row_is_in_table(rows, k);
        assert(selected(rows[k], user_id, is_linked));
        let i = choose|i: int| 0 <= i < at.len() && at[i] == k as usize;
        assert(list[i].0 == path);
    }
}

impl View for LocalDatabase {
    type V = Table;

    closed spec fn view(&self) -> Table {
        table_of(self.rows@)
    }
}

fn to_owned_opt(text: Option<&str>) -> (r: Option<String>)
    ensures
        opt_text(r) == opt_str(text),
{
    match text {
        Some(t) => Some(t.to_owned()),
        None => None,
    }
}

impl LocalDatabase {
    /// What holds of every table: no user has two rows with the same path.
    pub closed spec fn wf(&self) -> bool {
        distinct(self.rows@)
    }

    /// An empty table.
    pub fn new() -> (r: LocalDatabase)
        ensures
            r.wf(),
            r@ == Map::<(Seq<char>, Seq<char>), AssetView>::empty(),
    {
        let r = LocalDatabase { rows: Vec::new() };
        proof {
            rows_make_table(r.rows@, Map::empty());
        }
        r
    }

    fn position(&self, user_id: &str, asset_path: &str) -> (r: Option<usize>)
        ensures
            match r {
                Some(i) => i < self.rows.len() && self.rows[i as int].key() == (
                    user_id@,
                    asset_path@,
                ),
                None => forall|i: int|
                    0 <= i < self.rows.len() ==> #[trigger] self.rows@[i].key() != (
                        user_id@,
                        asset_path@,
                    ),
            },
    {
        let mut i: usize = 0;
        while i < self.rows.len()
            invariant
                i <= self.rows.len(),
                forall|j: int|
                    0 <= j < i ==> #[trigger] self.rows@[j].key() != (user_id@, asset_path@),
            decreases self.rows.len() - i,
        {
            if self.rows[i].is_at(user_id, asset_path) {
                return Some(i);
            }
            i = i + 1;
        }
        None
    }

    /// Records a file. A link is kept while the checksum stays the same, and given up for
    /// the one handed in, if any, when it changes; a creation time is kept unless there is
    /// a new one.
    pub fn upsert_asset(
        &mut self,
        user_id: &str,
        asset_path: &str,
        checksum: &[u8],
        asset_id: Option<&str>,
        created_at: Option<&str>,
    )
        requires
            old(self).wf(),
        ensures
            final(self).wf(),
            final(self)@ == with_record(
                old(self)@,
                (user_id@, asset_path@),
                checksum@,
                opt_str(asset_id),
                opt_str(created_at),
            ),
    {
        let mut entry = AssetEntry {
            user_id: user_id.to_owned(),
            asset_path: asset_path.to_owned(),
            checksum: copy_bytes(checksum),
            asset_id: to_owned_opt(asset_id),
            created_at: to_owned_opt(created_at),
        };
        match self.position(user_id, asset_path) {
            Some(i) => {
                let row = &self.rows[i];
                if entry.asset_id.is_none() && same_bytes(row.checksum.as_slice(), checksum) {
                    entry.asset_id = copy_opt(&row.asset_id);
                }
                if entry.created_at.is_none() {
                    entry.created_at = copy_opt(&row.created_at);
                }
                proof {
                    row_is_in_table(self.rows@, i as int);
                    replaced(self.rows@, i as int, entry);
                }
                self.rows.set(i, entry);
            },
            None => {
                proof {
                    pushed(self.rows@, entry);
                }
                self.rows.push(entry);
            },
        }
    }

    /// The row of a user and a path.
    pub fn entry(&self, user_id: &str, asset_path: &str) -> (r: Option<AssetEntry>)
        requires
            self.wf(),
        ensures
            r is Some <==> self@.contains_key((user_id@, asset_path@)),
            r is Some ==> r->0.key() == (user_id@, asset_path@) && r->0.content() == self@[(
                user_id@,
                asset_path@,
            )],
    {
        match self.position(user_id, asset_path) {
            Some(i) => {
                proof {
                    row_is_in_table(self.rows@, i as int);
                }
                let row = &self.rows[i];
                Some(
                    AssetEntry {
                        user_id: row.user_id.clone(),
                        asset_path: row.asset_path.clone(),
                        checksum: copy_bytes(row.checksum.as_slice()),
                        asset_id: copy_opt(&row.asset_id),
                        created_at: copy_opt(&row.created_at),
                    },
                )
            },
            None => {
                proof {
                    absent(self.rows@, (user_id@, asset_path@));
                }
                None
            },
        }
    }

    /// What the table has under a user and a path.
    pub fn find_asset_by_path(&self, user_id: &str, asset_path: &str) -> (r: Option<AssetRow>)
        requires
            self.wf(),
        ensures
            r is Some <==> self@.contains_key((user_id@, asset_path@)),
            r is Some ==> opt_text(r->0.asset_id) == self@[(user_id@, asset_path@)].asset_id,
    {
        match self.entry(user_id, asset_path) {
            Some(entry) => Some(AssetRow { asset_id: entry.asset_id }),
            None => None,
        }
    }

    /// When the file of a user and a path was created, if that is known.
    pub fn asset_created_at(&self, user_id: &str, asset_path: &str) -> (r: Option<String>)
        requires
            self.wf(),
        ensures
            opt_text(r) == (if self@.contains_key((user_id@, asset_path@)) {
                self@[(user_id@, asset_path@)].created_at
            } else {
                None
            }),
    {
        match self.entry(user_id, asset_path) {
            Some(entry) => entry.created_at,
            None => None,
        }
    }

    /// Gives a file its creation time, where the table has the file without one.
    pub fn date_asset(&mut self, user_id: &str, asset_path: &str, created_at: &str)
        requires
            old(self).wf(),
        ensures
            final(self).wf(),
            final(self)@ == with_date(old(self)@, (user_id@, asset_path@), created_at@),
    {
        match self.position(user_id, asset_path) {
            Some(i) => {
                proof {
                    row_is_in_table(self.rows@, i as int);
                }
                let row = &self.rows[i];
                if row.created_at.is_none() {
                    let entry = AssetEntry {
                        user_id: row.user_id.clone(),
                        asset_path: row.asset_path.clone(),
                        checksum: copy_bytes(row.checksum.as_slice()),
                        asset_id: copy_opt(&row.asset_id),
                        created_at: Some(created_at.to_owned()),
                    };
                    proof {
                        replaced(self.rows@, i as int, entry);
                    }
                    self.rows.set(i, entry);
                }
            },
            None => {
                proof {
                    absent(self.rows@, (user_id@, asset_path@));
                }
            },
        }
    }

    /// Forgets a file.
    pub fn delete_asset(&mut self, user_id: &str, asset_path: &str)
        requires
            old(self).wf(),
        ensures
            final(self).wf(),
            final(self)@ == old(self)@.remove((user_id@, asset_path@)),
    {
        match self.position(user_id, asset_path) {
            Some(i) => {
                proof {
                    removed(self.rows@, i as int);
                }
                self.rows.remove(i);
            },
            None => {
                proof {
                    absent(self.rows@, (user_id@, asset_path@));
                }
            },
        }
    }

    /// The places of the rows of a user that are linked, or that are not.
    fn positions(&self, user_id: &str, is_linked: bool) -> (r: Vec<usize>)
        ensures
            forall|i: int|
                0 <= i < r.len() ==> #[trigger] r@[i] < self.rows.len() && selected(
                    self.rows@[r@[i] as int],
                    user_id@,
                    is_linked,
                ),
            forall|i: int, j: int| 0 <= i < j < r.len() ==> r@[i] < r@[j],
            forall|k: int|
                0 <= k < self.rows.len() && selected(#[trigger] self.rows@[k], user_id@, is_linked)
                    ==> r@.contains(k as usize),
    {
        let mut r: Vec<usize> = Vec::new();
        let mut k: usize = 0;
        while k < self.rows.len()
            invariant
                k <= self.rows.len(),
                forall|i: int|
                    0 <= i < r.len() ==> #[trigger] r@[i] < k && selected(
                        self.rows@[r@[i] as int],
                        user_id@,
                        is_linked,
                    ),
                forall|i: int, j: int| 0 <= i < j < r.len() ==> r@[i] < r@[j],
                forall|j: int|
                    0 <= j < k && selected(#[trigger] self.rows@[j], user_id@, is_linked)
                        ==> r@.contains(j as usize),
            decreases self.rows.len() - k,
        {
            let row = &self.rows[k];
            let ghost before = r@;
            if same_text(row.user_id.as_str(), user_id) && row.asset_id.is_some() == is_linked {
                r.push(k);
                assert(r@[before.len() as int] == k);
            }
            assert forall|j: int|
                0 <= j < k + 1 && selected(
                    #[trigger] self.rows@[j],
                    user_id@,
                    is_linked,
                ) implies r@.contains(j as usize) by {
                if j < k {
                    let i = choose|i: int| 0 <= i < before.len() && before[i] == j as usize;
                    assert(r@[i] == j as usize);
                }
            }
            k = k + 1;
        }
        r
    }

    /// The paths and checksums of the assets of a user that are not linked yet.
    pub fn find_unlinked_assets(&self, user_id: &str) -> (r: Vec<(String, Vec<u8>)>)
        requires
            self.wf(),
        ensures
            lists(assets_view(r@), self@, user_id@, false),
    {
        let at: Vec<usize> = self.positions(user_id, false);
        let mut r: Vec<(String, Vec<u8>)> = Vec::new();
        let mut i: usize = 0;
        while i < at.len()
            invariant
                i <= at.len(),
                r.len() == i,
                forall|j: int| 0 <= j < at.len() ==> #[trigger] at@[j] < self.rows.len(),
                forall|j: int|
                    0 <= j < i ==> #[trigger] assets_view(r@)[j] == (
                        self.rows@[at@[j] as int].asset_path@,
                        self.rows@[at@[j] as int].checksum@,
                    ),
            decreases at.len() - i,
        {
            let ghost before = assets_view(r@);
            let row = &self.rows[at[i]];
            r.push((row.asset_path.clone(), copy_bytes(row.checksum.as_slice())));
            assert(assets_view(r@) =~= before.push((row.asset_path@, row.checksum@)));
            i = i + 1;
        }
        proof {
            listed(self.rows@, at@, assets_view(r@), user_id@, false);
        }
        r
    }

    /// The assets of a user that are linked.
    pub fn list_tracked_assets(&self, user_id: &str) -> (r: Vec<TrackedAsset>)
        requires
            self.wf(),
        ensures
            lists(tracked_view(r@), self@, user_id@, true),
    {
        let at: Vec<usize> = self.positions(user_id, true);
        let mut r: Vec<TrackedAsset> = Vec::new();
        let mut i: usize = 0;
        while i < at.len()
            invariant
                i <= at.len(),
                r.len() == i,
                forall|j: int| 0 <= j < at.len() ==> #[trigger] at@[j] < self.rows.len(),
                forall|j: int|
                    0 <= j < i ==> #[trigger] tracked_view(r@)[j] == (
                        self.rows@[at@[j] as int].asset_path@,
                        self.rows@[at@[j] as int].checksum@,
                    ),
            decreases at.len() - i,
        {
            let ghost before = tracked_view(r@);
            let row = &self.rows[at[i]];
            r.push(
                TrackedAsset {
                    asset_path: row.asset_path.clone(),
                    checksum: copy_bytes(row.checksum.as_slice()),
                },
            );
            assert(tracked_view(r@) =~= before.push((row.asset_path@, row.checksum@)));
            i = i + 1;
        }
        proof {
            listed(self.rows@, at@, tracked_view(r@), user_id@, true);
        }
        r
    }

    /// Links every unlinked asset of a user that has this content to an asset of the
    /// server. A creation time is kept unless there is a new one.
    pub fn link_asset_by_checksum(
        &mut self,
        user_id: &str,
        checksum: &[u8],
        asset_id: &str,
        created_at: Option<&str>,
    )
        requires
            old(self).wf(),
        ensures
            final(self).wf(),
            final(self)@ == with_links(
                old(self)@,
                user_id@,
                checksum@,
                asset_id@,
                opt_str(created_at),
            ),
    {
        let ghost before = self.rows@;
        let mut i: usize = 0;
        while i < self.rows.len()
            invariant
                i <= self.rows.len(),
                self.rows.len() == before.len(),
                forall|j: int| i <= j < before.len() ==> self.rows@[j] == before[j],
                forall|j: int|
                    0 <= j < i ==> (#[trigger] self.rows@[j]).key() == before[j].key()
                        && self.rows@[j].content() == link_of(
                        before[j],
                        user_id@,
                        checksum@,
                        asset_id@,
                        opt_str(created_at),
                    ),
            decreases self.rows.len() - i,
        {
            let row = &self.rows[i];
            if row.asset_id.is_none() && same_text(row.user_id.as_str(), user_id) && same_bytes(
                row.checksum.as_slice(),
                checksum,
            ) {
                let entry = AssetEntry {
                    user_id: row.user_id.clone(),
                    asset_path: row.asset_path.clone(),
                    checksum: copy_bytes(checksum),
                    asset_id: Some(asset_id.to_owned()),
                    created_at: match created_at {
                        Some(text) => Some(text.to_owned()),
                        None => copy_opt(&row.created_at),
                    },
                };
                self.rows.set(i, entry);
            }
            i = i + 1;
        }
        proof {
            let after = self.rows@;
            let table = with_links(
                table_of(before),
                user_id@,
                checksum@,
                asset_id@,
                opt_str(created_at),
            );
            assert(distinct(after)) by {
                assert forall|j: int, k: int|
                    0 <= j < k < after.len() implies #[trigger] after[j].key()
                    != #[trigger] after[k].key() by {
                    assert(before[j].key() != before[k].key());
                }
            }
            assert forall|j: int| 0 <= j < after.len() implies table.contains_key(
                (#[trigger] after[j]).key(),
            ) && table[after[j].key()] == after[j].content() by {
                row_is_in_table(before, j);
            }
            assert forall|key: (Seq<char>, Seq<char>)| #[trigger]
                table.contains_key(key) implies exists|j: int| row_at(after, key, j) by {
                let j = choose|j: int| row_at(before, key, j);
                assert(after[j].key() == before[j].key());
                assert(row_at(after, key, j));
            }
            rows_make_table(after, table);
        }
    }
}

} // verus!
