//! What holds of the table of assets over several operations.
use vstd::prelude::*;

use crate::local_db::{
    is_tracked, is_unlinked, lists, waits_for, with_date, with_links, with_record, Table,
};

verus! {

/// After a file was recorded, its row holds the checksum that was recorded, whatever row there
/// was before and whether or not an asset was named. An asset and a creation time that were
/// named are in it too.
pub proof fn what_is_recorded_is_held(
    table: Table,
    key: (Seq<char>, Seq<char>),
    checksum: Seq<u8>,
    asset_id: Option<Seq<char>>,
    created_at: Option<Seq<char>>,
)
    ensures
        with_record(table, key, checksum, asset_id, created_at).contains_key(key),
        with_record(table, key, checksum, asset_id, created_at)[key].checksum == checksum,
        asset_id is Some ==> with_record(table, key, checksum, asset_id, created_at)[key].asset_id
            == asset_id,
        created_at is Some ==> with_record(
            table,
            key,
            checksum,
            asset_id,
            created_at,
        )[key].created_at == created_at,
        !table.contains_key(key) ==> with_record(
            table,
            key,
            checksum,
            asset_id,
            created_at,
        )[key].asset_id == asset_id,
        !table.contains_key(key) ==> with_record(
            table,
            key,
            checksum,
            asset_id,
            created_at,
        )[key].created_at == created_at,
{
}

/// A file that is recorded again with another content and no asset is listed for upload with
/// the new checksum, and is tracked no more.
pub proof fn changed_content_is_listed_for_upload(
    table: Table,
    key: (Seq<char>, Seq<char>),
    checksum: Seq<u8>,
    created_at: Option<Seq<char>>,
    unlinked: Seq<(Seq<char>, Seq<u8>)>,
    tracked_list: Seq<(Seq<char>, Seq<u8>)>,
)
    requires
        table.contains_key(key),
        table[key].checksum != checksum,
        lists(unlinked, with_record(table, key, checksum, None, created_at), key.0, false),
        lists(tracked_list, with_record(table, key, checksum, None, created_at), key.0, true),
    ensures
        unlinked.contains((key.1, checksum)),
        forall|other: Seq<u8>| other != checksum ==> !(#[trigger] unlinked.contains((key.1, other))),
        forall|other: Seq<u8>| !(#[trigger] tracked_list.contains((key.1, other))),
{
    let after = with_record(table, key, checksum, None, created_at);
    assert(after.contains_key((key.0, key.1)));
    let i = choose|i: int| 0 <= i < unlinked.len() && (#[trigger] unlinked[i]).0 == key.1;
    assert(unlinked[i] == (key.1, checksum));
    assert forall|other: Seq<u8>| other != checksum implies !(#[trigger] unlinked.contains(
        (key.1, other),
    )) by {
        if unlinked.contains((key.1, other)) {
            let k = choose|k: int| 0 <= k < unlinked.len() && unlinked[k] == (key.1, other);
            assert(unlinked[k].0 == key.1);
        }
    }
    assert forall|other: Seq<u8>| !(#[trigger] tracked_list.contains((key.1, other))) by {
        if tracked_list.contains((key.1, other)) {
            let k = choose|k: int| 0 <= k < tracked_list.len() && tracked_list[k] == (key.1, other);
            assert(tracked_list[k].0 == key.1);
        }
    }
}

/// A file is listed with a checksum if and only if the table has it with that checksum and,
/// according to the list, with or without an asset. No path is listed twice.
pub proof fn a_list_holds_the_rows_of_a_user(
    table: Table,
    user_id: Seq<char>,
    list: Seq<(Seq<char>, Seq<u8>)>,
    is_linked: bool,
    path: Seq<char>,
    checksum: Seq<u8>,
)
    requires
        lists(list, table, user_id, is_linked),
    ensures
        list.contains((path, checksum)) <==> {
            &&& table.contains_key((user_id, path))
            &&& table[(user_id, path)].checksum == checksum
            &&& (table[(user_id, path)].asset_id is Some) == is_linked
        },
        forall|i: int, j: int| 0 <= i < list.len() && 0 <= j < list.len() && list[i].0 == list[j].0
            ==> i == j,
{
    if list.contains((path, checksum)) {
        let i = choose|i: int| 0 <= i < list.len() && list[i] == (path, checksum);
        assert(list[i].0 == path);
    }
    if table.contains_key((user_id, path)) && (table[(user_id, path)].asset_id is Some) == is_linked {
        let i = choose|i: int| 0 <= i < list.len() && (#[trigger] list[i]).0 == path;
        assert(list[i] == (path, table[(user_id, path)].checksum));
    }
}

/// A row is unlinked if and only if it is there without an asset, and tracked if and only if
/// it is there with one.
pub proof fn rows_are_unlinked_or_tracked(table: Table, user_id: Seq<char>, path: Seq<char>)
    ensures
        is_unlinked(table, user_id, path) <==> table.contains_key((user_id, path)) && table[(
            user_id,
            path,
        )].asset_id == None::<Seq<char>>,
        table.contains_key((user_id, path)) ==> is_tracked(table, user_id, path) != is_unlinked(
            table,
            user_id,
            path,
        ),
        !table.contains_key((user_id, path)) ==> !is_tracked(table, user_id, path),
{
}

/// A link gives its asset to every row of the user that has the content and no asset, and a
/// creation time if there is one to give. It changes no checksum and no other row, adds none
/// and takes none away.
pub proof fn a_link_reaches_all_that_wait(
    table: Table,
    user_id: Seq<char>,
    checksum: Seq<u8>,
    asset_id: Seq<char>,
    created_at: Option<Seq<char>>,
    key: (Seq<char>, Seq<char>),
)
    ensures
        ({
            let after = with_links(table, user_id, checksum, asset_id, created_at);
            let waits = key.0 == user_id && table[key].checksum == checksum
                && table[key].asset_id is None;
            &&& after.contains_key(key) == table.contains_key(key)
            &&& table.contains_key(key) && waits ==> {
                &&& after[key].asset_id == Some(asset_id)
                &&& after[key].checksum == checksum
                &&& created_at is Some ==> after[key].created_at == created_at
                &&& created_at is None ==> after[key].created_at == table[key].created_at
            }
            &&& table.contains_key(key) && !waits ==> after[key] == table[key]
        }),
{
}

/// A file that is recorded again with the same content keeps its link.
pub proof fn unchanged_content_keeps_its_link(
    table: Table,
    key: (Seq<char>, Seq<char>),
    created_at: Option<Seq<char>>,
)
    requires
        table.contains_key(key),
    ensures
        with_record(table, key, table[key].checksum, None, created_at)[key].asset_id
            == table[key].asset_id,
{
}

/// A file that is recorded again with another content loses its link, so that it is
/// uploaded again.
pub proof fn changed_content_loses_its_link(
    table: Table,
    key: (Seq<char>, Seq<char>),
    checksum: Seq<u8>,
    created_at: Option<Seq<char>>,
)
    requires
        table.contains_key(key),
        table[key].checksum != checksum,
    ensures
        is_unlinked(with_record(table, key, checksum, None, created_at), key.0, key.1),
{
}

/// A file that is new to the table and has no asset yet is among the unlinked ones, with
/// its checksum.
pub proof fn a_new_file_is_listed_for_upload(
    table: Table,
    key: (Seq<char>, Seq<char>),
    checksum: Seq<u8>,
    created_at: Option<Seq<char>>,
    list: Seq<(Seq<char>, Seq<u8>)>,
)
    requires
        !table.contains_key(key),
        lists(list, with_record(table, key, checksum, None, created_at), key.0, false),
    ensures
        list.contains((key.1, checksum)),
{
    let after = with_record(table, key, checksum, None, created_at);
    assert(after.contains_key((key.0, key.1)));
    let i = choose|i: int| 0 <= i < list.len() && (#[trigger] list[i]).0 == key.1;
    assert(list[i] == (key.1, checksum));
}

/// To record a file twice is to record it once.
pub proof fn recording_twice_is_recording_once(
    table: Table,
    key: (Seq<char>, Seq<char>),
    checksum: Seq<u8>,
    asset_id: Option<Seq<char>>,
    created_at: Option<Seq<char>>,
)
    ensures
        with_record(
            with_record(table, key, checksum, asset_id, created_at),
            key,
            checksum,
            asset_id,
            created_at,
        ) == with_record(table, key, checksum, asset_id, created_at),
{
    let once = with_record(table, key, checksum, asset_id, created_at);
    let twice = with_record(once, key, checksum, asset_id, created_at);
    assert(once[key] == twice[key]);
    assert(twice =~= once);
}

/// A creation time that is known stays known, whatever is recorded or linked.
pub proof fn creation_times_are_not_lost(
    table: Table,
    key: (Seq<char>, Seq<char>),
    user_id: Seq<char>,
    checksum: Seq<u8>,
    asset_id: Seq<char>,
    created_at: Option<Seq<char>>,
)
    requires
        table.contains_key(key),
        table[key].created_at is Some,
    ensures
        with_record(table, key, checksum, Some(asset_id), created_at)[key].created_at is Some,
        with_record(table, key, checksum, None, created_at)[key].created_at is Some,
        with_links(table, user_id, checksum, asset_id, created_at)[key].created_at is Some,
        created_at is None ==> with_links(table, user_id, checksum, asset_id, created_at)[key].created_at
            == table[key].created_at,
        created_at is None ==> with_record(table, key, checksum, None, created_at)[key].created_at
            == table[key].created_at,
{
}

/// A file without a creation time gets it, and keeps its checksum and its link.
pub proof fn a_missing_date_is_filled_in(
    table: Table,
    key: (Seq<char>, Seq<char>),
    created_at: Seq<char>,
)
    requires
        table.contains_key(key),
        table[key].created_at is None,
    ensures
        with_date(table, key, created_at)[key].created_at == Some(created_at),
        with_date(table, key, created_at)[key].checksum == table[key].checksum,
        with_date(table, key, created_at)[key].asset_id == table[key].asset_id,
{
}

/// A creation time that is known is not replaced by a later one, and a file that the table
/// does not have is not put into it.
pub proof fn a_date_is_not_replaced(
    table: Table,
    key: (Seq<char>, Seq<char>),
    created_at: Seq<char>,
    later: Seq<char>,
)
    ensures
        table.contains_key(key) && table[key].created_at is Some ==> with_date(
            table,
            key,
            created_at,
        ) == table,
        !table.contains_key(key) ==> with_date(table, key, created_at) == table,
        with_date(with_date(table, key, created_at), key, later) == with_date(
            table,
            key,
            created_at,
        ),
{
}

/// To give a file its creation time leaves every other file as it is, and changes neither
/// what waits for upload nor what is tracked.
pub proof fn a_date_changes_one_row(
    table: Table,
    key: (Seq<char>, Seq<char>),
    created_at: Seq<char>,
    other: (Seq<char>, Seq<char>),
)
    ensures
        other != key ==> with_date(table, key, created_at).get(other) == table.get(other),
        is_unlinked(with_date(table, key, created_at), other.0, other.1) == is_unlinked(
            table,
            other.0,
            other.1,
        ),
        is_tracked(with_date(table, key, created_at), other.0, other.1) == is_tracked(
            table,
            other.0,
            other.1,
        ),
{
}

/// What is recorded, linked or forgotten for one user leaves the rows of the others as
/// they are.
pub proof fn users_are_kept_apart(
    table: Table,
    user_id: Seq<char>,
    path: Seq<char>,
    checksum: Seq<u8>,
    asset_id: Option<Seq<char>>,
    created_at: Option<Seq<char>>,
    other: (Seq<char>, Seq<char>),
)
    requires
        other.0 != user_id,
    ensures
        with_record(table, (user_id, path), checksum, asset_id, created_at).get(other) == table.get(
            other,
        ),
        asset_id is Some ==> with_links(table, user_id, checksum, asset_id->0, created_at).get(
            other,
        ) == table.get(other),
        table.remove((user_id, path)).get(other) == table.get(other),
{
}

/// What is recorded or forgotten for one path leaves the other paths as they are.
pub proof fn paths_are_kept_apart(
    table: Table,
    user_id: Seq<char>,
    path: Seq<char>,
    checksum: Seq<u8>,
    asset_id: Option<Seq<char>>,
    created_at: Option<Seq<char>>,
    other: (Seq<char>, Seq<char>),
)
    requires
        other != (user_id, path),
    ensures
        with_record(table, (user_id, path), checksum, asset_id, created_at).get(other) == table.get(
            other,
        ),
        table.remove((user_id, path)).get(other) == table.get(other),
{
}

/// A forgotten file is neither unlinked nor tracked.
pub proof fn a_forgotten_file_is_gone(table: Table, user_id: Seq<char>, path: Seq<char>)
    ensures
        table.remove((user_id, path)).get((user_id, path)) is None,
        !is_unlinked(table.remove((user_id, path)), user_id, path),
        !is_tracked(table.remove((user_id, path)), user_id, path),
{
}

/// Once a content of a user is linked, none of the user's files with that content is
/// listed for upload any more.
pub proof fn linked_content_is_not_listed_again(
    table: Table,
    user_id: Seq<char>,
    checksum: Seq<u8>,
    asset_id: Seq<char>,
    created_at: Option<Seq<char>>,
    list: Seq<(Seq<char>, Seq<u8>)>,
    i: int,
)
    requires
        lists(list, with_links(table, user_id, checksum, asset_id, created_at), user_id, false),
        0 <= i < list.len(),
    ensures
        list[i].1 != checksum,
{
    let after = with_links(table, user_id, checksum, asset_id, created_at);
    assert(after.contains_key((user_id, list[i].0)));
}

/// A link changes only rows without one: what is linked stays linked to the same asset,
/// and another link of the same content changes nothing.
pub proof fn a_link_is_not_replaced(
    table: Table,
    key: (Seq<char>, Seq<char>),
    user_id: Seq<char>,
    checksum: Seq<u8>,
    asset_id: Seq<char>,
    created_at: Option<Seq<char>>,
    later_id: Seq<char>,
    later_created_at: Option<Seq<char>>,
)
    ensures
        table.contains_key(key) && table[key].asset_id is Some ==> with_links(
            table,
            user_id,
            checksum,
            asset_id,
            created_at,
        )[key] == table[key],
        with_links(
            with_links(table, user_id, checksum, asset_id, created_at),
            user_id,
            checksum,
            later_id,
            later_created_at,
        ) == with_links(table, user_id, checksum, asset_id, created_at),
{
    let once = with_links(table, user_id, checksum, asset_id, created_at);
    let twice = with_links(once, user_id, checksum, later_id, later_created_at);
    assert forall|k: (Seq<char>, Seq<char>)| once.contains_key(k) implies once[k] == twice[k] by {
        assert(!waits_for(once, k, user_id, checksum));
    }
    assert(twice =~= once);
}

/// Every file of a user is either unlinked or tracked: the two lists share no path, and
/// between them they hold every path of the user.
pub proof fn unlinked_and_tracked_divide_the_table(
    table: Table,
    user_id: Seq<char>,
    unlinked: Seq<(Seq<char>, Seq<u8>)>,
    tracked_list: Seq<(Seq<char>, Seq<u8>)>,
    path: Seq<char>,
)
    requires
        lists(unlinked, table, user_id, false),
        lists(tracked_list, table, user_id, true),
    ensures
        table.contains_key((user_id, path)) <==> {
            ||| exists|i: int| 0 <= i < unlinked.len() && (#[trigger] unlinked[i]).0 == path
            ||| exists|i: int| 0 <= i < tracked_list.len() && (#[trigger] tracked_list[i]).0 == path
        },
        forall|i: int, j: int|
            0 <= i < unlinked.len() && 0 <= j < tracked_list.len() ==> (#[trigger] unlinked[i]).0
                != (#[trigger] tracked_list[j]).0,
{
    if table.contains_key((user_id, path)) {
        assert(table[(user_id, path)].asset_id is Some || !(table[(
            user_id,
            path,
        )].asset_id is Some));
    }
}

} // verus!
