//! What holds of the rules by which files are left alone.
use vstd::prelude::*;

use crate::config::{has_user, Config, UserConfig};
use crate::local_db::{is_tracked, is_unlinked, Table};
use crate::sync::{
    can_be_excluded, can_be_kept, can_be_name, excluded, file_name_of, ignored,
    is_separator, last_part, last_part_start, last_separator, last_slash, name_at,
    name_has_extension, names_nothing, nothing_behind, plans_for, portable, purged, purges,
    same_letter, starts_doubly, SyncPlan,
};
use crate::text::{texts, trim_start};

verus! {

/// Whether two texts are the same up to the case of ASCII letters.
pub open spec fn same_letters(a: Seq<char>, b: Seq<char>) -> bool {
    a.len() == b.len() && forall|i: int|
        0 <= i < a.len() ==> same_letter(#[trigger] a[i], #[trigger] b[i])
}

/// The case of ASCII letters matters neither in a file name nor in an extension.
pub proof fn case_does_not_matter(
    name: Seq<char>,
    other_name: Seq<char>,
    ext: Seq<char>,
    other_ext: Seq<char>,
)
    requires
        same_letters(name, other_name),
        same_letters(ext, other_ext),
        name_has_extension(name, ext),
    ensures
        name_has_extension(other_name, other_ext),
{
    let start = name.len() - ext.len();
    assert(same_letter(name[start - 1], other_name[start - 1]));
    assert forall|i: int| 0 <= i < other_ext.len() implies same_letter(
        other_name[start + i],
        #[trigger] other_ext[i],
    ) by {
        assert(same_letter(name[start + i], ext[i]));
        assert(same_letter(name[start + i], other_name[start + i]));
        assert(same_letter(ext[i], other_ext[i]));
    }
}

/// A file name that ends in a compound extension ends in the last part of it too.
pub proof fn compound_extensions_end_in_their_last_part(
    name: Seq<char>,
    first: Seq<char>,
    last: Seq<char>,
)
    requires
        name_has_extension(name, first + seq!['.'] + last),
    ensures
        name_has_extension(name, last),
{
    let ext = first + seq!['.'] + last;
    assert(ext.len() == first.len() + 1 + last.len());
    assert(ext[first.len() as int] == '.');
    assert(same_letter(name[name.len() - ext.len() + first.len()], ext[first.len() as int]));
    assert forall|i: int| 0 <= i < last.len() implies same_letter(
        name[name.len() - last.len() + i],
        #[trigger] last[i],
    ) by {
        assert(ext[first.len() + 1 + i] == last[i]);
    }
}

/// A file that is named like an extension, with or without the dot, does not have it.
pub proof fn a_bare_extension_is_not_excluded(ext: Seq<char>)
    ensures
        !name_has_extension(ext, ext),
        !name_has_extension(seq!['.'] + ext, ext),
{
}

/// Where no extension is excluded, no file name is.
pub proof fn without_excludes_nothing_is_excluded(name: Option<Seq<char>>)
    ensures
        !excluded(Seq::empty(), name),
{
}

/// Two lists of extensions together exclude what either of them excludes, and nothing else.
pub proof fn extensions_add_up(a: Seq<Seq<char>>, b: Seq<Seq<char>>, name: Option<Seq<char>>)
    ensures
        excluded(a + b, name) == (excluded(a, name) || excluded(b, name)),
{
    if excluded(a, name) {
        let i = choose|i: int| 0 <= i < a.len() && name_has_extension(name->0, #[trigger] a[i]);
        assert((a + b)[i] == a[i]);
    }
    if excluded(b, name) {
        let i = choose|i: int| 0 <= i < b.len() && name_has_extension(name->0, #[trigger] b[i]);
        assert((a + b)[a.len() + i] == b[i]);
    }
    if excluded(a + b, name) {
        let i = choose|i: int|
            0 <= i < (a + b).len() && name_has_extension(name->0, #[trigger] (a + b)[i]);
        if i < a.len() {
            assert(a[i] == (a + b)[i]);
        } else {
            assert(b[i - a.len()] == (a + b)[i]);
        }
    }
}

proof fn last_slash_is_found(folder: Seq<char>, name: Seq<char>)
    requires
        !name.contains('/'),
    ensures
        last_slash(folder + seq!['/'] + name) == folder.len(),
    decreases name.len(),
{
    let path = folder + seq!['/'] + name;
    if name.len() == 0 {
        assert(path.last() == '/');
    } else {
        assert(path.last() == name.last());
        assert(name.contains(name.last()));
        assert(path.drop_last() =~= folder + seq!['/'] + name.drop_last());
        assert forall|c: char| name.drop_last().contains(c) implies name.contains(c) by {
            let i = choose|i: int| 0 <= i < name.len() - 1 && name[i] == c;
            assert(name[i] == c);
        }
        last_slash_is_found(folder, name.drop_last());
    }
}

/// The folder that a file lies in plays no part: its name is what stands behind the last
/// slash.
pub proof fn the_folder_plays_no_part(folder: Seq<char>, name: Seq<char>)
    requires
        !name.contains('/'),
        name.len() > 0,
        name != seq!['.'],
        name != seq!['.', '.'],
    ensures
        file_name_of(folder + seq!['/'] + name) == Some(name),
{
    let path = folder + seq!['/'] + name;
    last_slash_is_found(folder, name);
    assert(path.skip(folder.len() as int + 1) =~= name);
}

/// A hidden file is left alone, whatever its extension.
pub proof fn hidden_files_are_ignored(extensions: Seq<Seq<char>>, name: Seq<char>, is_dir: bool)
    requires
        name.len() > 0,
        name[0] == '.',
    ensures
        ignored(extensions, Some(name), is_dir),
{
}

/// A folder is left alone, whatever its name.
pub proof fn folders_are_ignored(extensions: Seq<Seq<char>>, name: Option<Seq<char>>)
    ensures
        ignored(extensions, name, true),
{
}

/// What is linked to the server, and what belongs to a user that is not configured, is
/// not purged.
pub proof fn linked_assets_are_not_purged(
    config: Config,
    table: Table,
    key: (Seq<char>, Seq<char>),
    dry_run: bool,
)
    requires
        is_tracked(table, key.0, key.1) || !has_user(config.users@, key.0),
    ensures
        !purged(config, table, key, dry_run),
{
}

proof fn last_slash_is_a_slash(path: Seq<char>)
    ensures
        -1 <= last_slash(path) < path.len(),
        last_slash(path) >= 0 ==> path[last_slash(path)] == '/',
        forall|k: int| last_slash(path) < k < path.len() ==> #[trigger] path[k] != '/',
        !path.contains('\\') ==> last_separator(path) == last_slash(path),
    decreases path.len(),
{
    if path.len() > 0 {
        let front = path.drop_last();
        last_slash_is_a_slash(front);
        assert forall|k: int| last_slash(path) < k < path.len() implies #[trigger] path[k]
            != '/' by {
            if k < front.len() {
                assert(front[k] == path[k]);
            }
        }
        if !path.contains('\\') {
            assert(path[path.len() - 1] != '\\');
            assert forall|k: int| 0 <= k < front.len() implies front[k] != '\\' by {
                assert(path[k] != '\\');
            }
        }
    }
}

proof fn last_separator_is_a_separator(path: Seq<char>)
    ensures
        -1 <= last_separator(path) < path.len(),
        last_separator(path) >= 0 ==> is_separator(path[last_separator(path)]),
        forall|k: int|
            last_separator(path) < k < path.len() ==> !is_separator(#[trigger] path[k]),
    decreases path.len(),
{
    if path.len() > 0 {
        let front = path.drop_last();
        last_separator_is_a_separator(front);
        assert forall|k: int| last_separator(path) < k < path.len() implies !is_separator(
            #[trigger] path[k],
        ) by {
            if k < front.len() {
                assert(front[k] == path[k]);
            }
        }
    }
}

proof fn file_name_stands_in_path(path: Seq<char>)
    requires
        portable(path),
        file_name_of(path) is Some,
    ensures
        exists|start: int| name_at(path, file_name_of(path)->0, start),
    decreases path.len(),
{
    let at = last_slash(path);
    last_slash_is_a_slash(path);
    let part = path.skip(at + 1);
    if part.len() == 0 || part == seq!['.'] {
        let front = path.take(at);
        assert forall|k: int| 0 <= k < front.len() implies front[k] != '\\' by {
            assert(path[k] != '\\');
        }
        assert(portable(front));
        file_name_stands_in_path(front);
        let inner = file_name_of(front)->0;
        assert(file_name_of(path) == Some(inner));
        let start = choose|start: int| name_at(front, inner, start);
        let end = start + inner.len();
        assert(path.subrange(start, end) =~= front.subrange(start, end));
        assert(nothing_behind(path, end)) by {
            if end < front.len() {
                assert(path[end] == front[end]);
            }
            assert forall|k: int| end <= k < path.len() implies is_separator(#[trigger] path[k])
                || {
                &&& path[k] == '.'
                &&& is_separator(path[k - 1])
                &&& k + 1 == path.len() || is_separator(path[k + 1])
            } by {
                if k < at {
                    assert(path[k] == front[k]);
                    assert(k > end ==> path[k - 1] == front[k - 1]);
                    if k + 1 < at {
                        assert(path[k + 1] == front[k + 1]);
                    }
                } else if k > at {
                    assert(path[k] == part[k - at - 1]);
                }
            }
        }
        assert(name_at(path, file_name_of(path)->0, start));
    } else {
        assert(path.subrange(at + 1, at + 1 + part.len()) =~= part);
        assert(file_name_of(path) == Some(part));
        assert forall|k: int| 0 <= k < part.len() implies part[k] != '/' by {
            assert(path[at + 1 + k] != '/');
        }
        assert(name_at(path, file_name_of(path)->0, at + 1));
    }
}

/// Where a path is read in the same way everywhere, its file name is the one name that a
/// system can take for it.
pub proof fn portable_paths_have_one_name(path: Seq<char>, name: Option<Seq<char>>)
    requires
        portable(path),
    ensures
        can_be_name(path, name) <==> name == file_name_of(path),
{
    let own = file_name_of(path);
    last_slash_is_a_slash(path);
    if own is Some {
        file_name_stands_in_path(path);
    } else {
        assert(last_part(path) =~= path.skip(last_slash(path) + 1));
    }
}

/// Where a path is read in the same way everywhere, every system takes it for one with an
/// excluded extension, or none does.
pub proof fn portable_paths_are_decided(extensions: Seq<Seq<char>>, path: Seq<char>)
    requires
        portable(path),
    ensures
        can_be_excluded(extensions, path) == excluded(extensions, file_name_of(path)),
        can_be_kept(extensions, path) == !excluded(extensions, file_name_of(path)),
{
    portable_paths_have_one_name(path, file_name_of(path));
}

/// Whether the last part of a path is a name on every system.
pub open spec fn ends_in_a_name(path: Seq<char>) -> bool {
    !starts_doubly(path) && !names_nothing(last_part(path))
}

proof fn name_ends_the_path(path: Seq<char>, name: Option<Seq<char>>, start: int)
    requires
        ends_in_a_name(path),
        name is Some,
        name_at(path, name->0, start),
    ensures
        start <= last_part_start(path) <= path.len(),
        name->0 == path.skip(start),
        last_part_start(path) > 0 && path[last_part_start(path) - 1] == '/' ==> start
            == last_part_start(path),
{
    let at = last_part_start(path);
    let end = start + name->0.len();
    last_separator_is_a_separator(path);
    if end < path.len() {
        assert(is_separator(path[end]));
        assert(end < at);
        assert(last_part(path)[0] == path[at]);
        assert(!is_separator(path[at]));
        assert(path[at] == '.');
        if at + 1 < path.len() {
            assert(!is_separator(path[at + 1]));
        }
        assert(last_part(path) =~= seq!['.']);
    }
    assert(name->0 =~= path.skip(start));
    if start > at {
        assert(!is_separator(path[start - 1]));
    }
    if at > 0 && path[at - 1] == '/' && start < at {
        assert(name->0[at - 1 - start] == '/');
    }
}

/// Where the last part of a path is a name on every system and a slash stands before it, or
/// nothing, it is the file name.
pub proof fn the_last_part_is_the_name(path: Seq<char>, name: Option<Seq<char>>)
    requires
        can_be_name(path, name),
        ends_in_a_name(path),
        last_part_start(path) == 0 || path[last_part_start(path) - 1] == '/',
    ensures
        name == Some(last_part(path)),
{
    let start = choose|start: int| name_at(path, name->0, start);
    name_ends_the_path(path, name, start);
}

/// Where the last part of a path is a name on every system, it decides about an extension
/// without backslash and colon, unless it is just a dot and that extension.
pub proof fn the_last_part_decides_about_an_extension(
    path: Seq<char>,
    name: Option<Seq<char>>,
    ext: Seq<char>,
)
    requires
        can_be_name(path, name),
        ends_in_a_name(path),
        !ext.contains('\\'),
        !ext.contains(':'),
        !same_letters(last_part(path), seq!['.'] + ext),
    ensures
        name is Some,
        name_has_extension(name->0, ext) == name_has_extension(last_part(path), ext),
{
    let start = choose|start: int| name_at(path, name->0, start);
    name_ends_the_path(path, name, start);
    last_separator_is_a_separator(path);
    let at = last_part_start(path);
    let last = last_part(path);
    let n = name->0;
    assert(n.len() == last.len() + (at - start));
    assert forall|i: int| 0 <= i < last.len() implies n[n.len() - last.len() + i]
        == #[trigger] last[i] by {
        assert(n[at - start + i] == path[at + i]);
    }
    if start < at {
        let before = path[at - 1];
        assert(n[n.len() - last.len() - 1] == before);
        assert(before == '\\' || before == ':');
        if name_has_extension(n, ext) {
            if last.len() < ext.len() {
                let i = ext.len() - last.len() - 1;
                assert(same_letter(n[n.len() - ext.len() + i], ext[i]));
                assert(ext[i] == before);
            } else if last.len() == ext.len() + 1 {
                let dotted = seq!['.'] + ext;
                assert(last[0] == '.');
                assert forall|i: int| 0 <= i < last.len() implies same_letter(
                    #[trigger] last[i],
                    #[trigger] dotted[i],
                ) by {
                    if i > 0 {
                        assert(same_letter(n[n.len() - ext.len() + (i - 1)], ext[i - 1]));
                    }
                }
            } else if last.len() > ext.len() {
                assert(last[last.len() - ext.len() - 1] == '.');
                assert forall|i: int| 0 <= i < ext.len() implies same_letter(
                    last[last.len() - ext.len() + i],
                    #[trigger] ext[i],
                ) by {
                    assert(n[n.len() - ext.len() + i] == last[last.len() - ext.len() + i]);
                }
            }
        }
        if name_has_extension(last, ext) {
            assert(n[n.len() - ext.len() - 1] == last[last.len() - ext.len() - 1]);
            assert forall|i: int| 0 <= i < ext.len() implies same_letter(
                n[n.len() - ext.len() + i],
                #[trigger] ext[i],
            ) by {
                assert(n[n.len() - ext.len() + i] == last[last.len() - ext.len() + i]);
            }
        }
    } else {
        assert(n =~= last);
    }
}

/// Where the last part of a path is a name on every system, every system takes the path for
/// one with an excluded extension or none does, by that part: provided that no extension has
/// a backslash or a colon, and that the part is not just a dot and an extension.
pub proof fn last_parts_are_decided(extensions: Seq<Seq<char>>, path: Seq<char>)
    requires
        ends_in_a_name(path),
        forall|i: int|
            0 <= i < extensions.len() ==> !(#[trigger] extensions[i]).contains('\\')
                && !extensions[i].contains(':') && !same_letters(
                last_part(path),
                seq!['.'] + extensions[i],
            ),
    ensures
        can_be_excluded(extensions, path) ==> excluded(extensions, Some(last_part(path))),
        can_be_kept(extensions, path) ==> !excluded(extensions, Some(last_part(path))),
        purge_is_decided(extensions, path),
{
    assert forall|name: Option<Seq<char>>| #[trigger] can_be_name(path, name) implies excluded(
        extensions,
        name,
    ) == excluded(extensions, Some(last_part(path))) by {
        assert forall|i: int| 0 <= i < extensions.len() implies name is Some && name_has_extension(
            name->0,
            #[trigger] extensions[i],
        ) == name_has_extension(last_part(path), extensions[i]) by {
            the_last_part_decides_about_an_extension(path, name, extensions[i]);
        }
        let last = Some(last_part(path));
        if excluded(extensions, name) {
            let i = choose|i: int|
                0 <= i < extensions.len() && name_has_extension(name->0, #[trigger] extensions[i]);
            assert(name_has_extension(last->0, extensions[i]));
        }
        if excluded(extensions, last) {
            let i = choose|i: int|
                0 <= i < extensions.len() && name_has_extension(last->0, #[trigger] extensions[i]);
            assert(name_has_extension(name->0, extensions[i]));
        }
    }
}

/// Whether a purge comes to the same on every system for a path: no two systems take it for
/// one with and for one without an excluded extension.
pub open spec fn purge_is_decided(extensions: Seq<Seq<char>>, path: Seq<char>) -> bool {
    !(can_be_excluded(extensions, path) && can_be_kept(extensions, path))
}

/// A row goes in a purge if and only if it is an unlinked one of a configured user with an
/// excluded extension, outside a dry run. Every other row stays as it is, and none is added.
pub proof fn a_purge_takes_what_is_excluded(
    before: Table,
    after: Table,
    config: Config,
    dry_run: bool,
    key: (Seq<char>, Seq<char>),
)
    requires
        purges(before, after, config, dry_run),
        purge_is_decided(texts(config.exclude_extensions@), key.1),
    ensures
        after.contains_key(key) <==> before.contains_key(key) && !(!dry_run && has_user(
            config.users@,
            key.0,
        ) && is_unlinked(before, key.0, key.1) && can_be_excluded(
            texts(config.exclude_extensions@),
            key.1,
        )),
        after.contains_key(key) ==> after[key] == before[key],
{
}

/// A second purge changes nothing: a row that the first one left stays, wherever every system
/// takes its path in the same way.
pub proof fn a_second_purge_changes_nothing(
    before: Table,
    once: Table,
    twice: Table,
    config: Config,
    dry_run: bool,
)
    requires
        purges(before, once, config, dry_run),
        purges(once, twice, config, dry_run),
    ensures
        forall|key: (Seq<char>, Seq<char>)|
            purge_is_decided(texts(config.exclude_extensions@), key.1)
                ==> #[trigger] twice.get(key) == once.get(key),
        (forall|key: (Seq<char>, Seq<char>)| #[trigger]
            once.contains_key(key) ==> purge_is_decided(
                texts(config.exclude_extensions@),
                key.1,
            )) ==> twice == once,
{
    let extensions = texts(config.exclude_extensions@);
    assert forall|key: (Seq<char>, Seq<char>)| purge_is_decided(extensions, key.1) implies twice.get(
        key,
    ) == #[trigger] once.get(key) by {
        a_purge_takes_what_is_excluded(before, once, config, dry_run, key);
        a_purge_takes_what_is_excluded(once, twice, config, dry_run, key);
    }
    if forall|key: (Seq<char>, Seq<char>)| #[trigger]
        once.contains_key(key) ==> purge_is_decided(extensions, key.1) {
        assert forall|key: (Seq<char>, Seq<char>)| #[trigger]
            once.contains_key(key) implies twice.contains_key(key) by {
            assert(twice.get(key) == once.get(key));
        }
        assert(twice =~= once);
    }
}

/// Whether a row is to be forgotten where `names` gives the file names.
pub open spec fn purged_by(
    names: spec_fn((Seq<char>, Seq<char>)) -> Option<Seq<char>>,
    config: Config,
    table: Table,
    key: (Seq<char>, Seq<char>),
    dry_run: bool,
) -> bool {
    &&& !dry_run
    &&& has_user(config.users@, key.0)
    &&& is_unlinked(table, key.0, key.1)
    &&& excluded(texts(config.exclude_extensions@), names(key))
}

/// What is left of a table where `names` gives the file names: every row that is not to be
/// forgotten, as it is.
pub open spec fn left_by(
    names: spec_fn((Seq<char>, Seq<char>)) -> Option<Seq<char>>,
    config: Config,
    table: Table,
    dry_run: bool,
) -> Table {
    Map::new(
        |key: (Seq<char>, Seq<char>)|
            table.contains_key(key) && !purged_by(names, config, table, key, dry_run),
        |key: (Seq<char>, Seq<char>)| table[key],
    )
}

/// The name by which a purge decided about a row.
spec fn name_used(after: Table, extensions: Seq<Seq<char>>, key: (Seq<char>, Seq<char>)) -> Option<
    Seq<char>,
> {
    choose|name: Option<Seq<char>>| #[trigger]
        can_be_name(key.1, name) && (after.contains_key(key) <==> !excluded(extensions, name))
}

/// Of every path, portable or not: a purge leaves exactly the rows that are not to be
/// forgotten by file names which the system gives to the rows that it looks at.
pub proof fn a_purge_goes_by_file_names(
    before: Table,
    after: Table,
    config: Config,
    dry_run: bool,
) -> (names: spec_fn((Seq<char>, Seq<char>)) -> Option<Seq<char>>)
    requires
        purges(before, after, config, dry_run),
    ensures
        after == left_by(names, config, before, dry_run),
        !dry_run && config.exclude_extensions.len() > 0 ==> forall|key: (Seq<char>, Seq<char>)|
            has_user(config.users@, key.0) && is_unlinked(before, key.0, key.1) ==> can_be_name(
                key.1,
                #[trigger] names(key),
            ),
{
    let extensions = texts(config.exclude_extensions@);
    let names = |key: (Seq<char>, Seq<char>)| name_used(after, extensions, key);
    let left = left_by(names, config, before, dry_run);
    assert forall|key: (Seq<char>, Seq<char>)|
        !dry_run && config.exclude_extensions.len() > 0 && has_user(config.users@, key.0)
            && is_unlinked(before, key.0, key.1) implies can_be_name(key.1, #[trigger] names(key))
        && (after.contains_key(key) <==> !excluded(extensions, names(key))) by {
        if after.contains_key(key) {
            assert(can_be_kept(extensions, key.1));
        } else {
            assert(can_be_excluded(extensions, key.1));
        }
    }
    assert forall|key: (Seq<char>, Seq<char>)| after.contains_key(key)
        <==> #[trigger] left.contains_key(key) by {
        if before.contains_key(key) && !after.contains_key(key) {
            assert(can_be_name(key.1, names(key)));
        }
        if before.contains_key(key) && purged_by(names, config, before, key, dry_run) {
            assert(extensions.len() > 0);
            assert(can_be_name(key.1, names(key)));
        }
    }
    assert(after =~= left);
    names
}

/// Of every path, portable or not: a second purge by the same file names changes nothing, and
/// a row goes by them if and only if it is an unlinked one of a configured user with an
/// excluded extension, outside a dry run.
pub proof fn purging_twice_is_purging_once(
    names: spec_fn((Seq<char>, Seq<char>)) -> Option<Seq<char>>,
    config: Config,
    table: Table,
    dry_run: bool,
)
    ensures
        left_by(names, config, left_by(names, config, table, dry_run), dry_run) == left_by(
            names,
            config,
            table,
            dry_run,
        ),
        forall|key: (Seq<char>, Seq<char>)|
            table.contains_key(key) ==> (#[trigger] left_by(
                names,
                config,
                table,
                dry_run,
            ).contains_key(key) <==> !purged_by(names, config, table, key, dry_run)),
{
    let once = left_by(names, config, table, dry_run);
    assert(left_by(names, config, once, dry_run) =~= once);
}

/// No leading dot is left of an extension that was read from a file.
pub proof fn leading_dots_are_dropped(ext: Seq<char>)
    ensures
        trim_start(ext, '.').len() > 0 ==> trim_start(ext, '.')[0] != '.',
        ext.len() > 0 && ext[0] != '.' ==> trim_start(ext, '.') == ext,
    decreases ext.len(),
{
    if ext.len() > 0 && ext[0] == '.' {
        leading_dots_are_dropped(ext.drop_first());
    }
}

/// A path with slashes alone between its names is read in the same way everywhere, unless it
/// starts with two of them or with a letter and a colon.
pub proof fn ordinary_paths_are_portable(path: Seq<char>)
    ensures
        portable(path) <==> {
            &&& forall|k: int| 0 <= k < path.len() ==> #[trigger] path[k] != '\\'
            &&& !(path.len() >= 2 && path[0] == '/' && path[1] == '/')
            &&& !(path.len() >= 2 && path[1] == ':' && ('A' <= path[0] <= 'Z' || 'a' <= path[0]
                <= 'z'))
        },
{
    if exists|k: int| 0 <= k < path.len() && path[k] == '\\' {
        let k = choose|k: int| 0 <= k < path.len() && path[k] == '\\';
        assert(path.contains('\\'));
    }
}

/// Letters are the same in upper and in lower case, from `A` to `Z`; any other character is the
/// same as itself alone.
pub proof fn letters_have_two_cases(a: char, b: char)
    ensures
        same_letter(a, a),
        same_letter(a, b) == same_letter(b, a),
        'A' <= a <= 'Z' ==> (same_letter(a, b) <==> b == a || b as int == a as int + 32),
        'a' <= a <= 'z' ==> (same_letter(a, b) <==> b == a || b as int == a as int - 32),
        !('A' <= a <= 'Z') && !('a' <= a <= 'z') ==> (same_letter(a, b) <==> b == a),
{
}

/// A file name has an extension if and only if it is something, a dot, and the extension in
/// any case.
pub proof fn an_extension_follows_a_dot(
    name: Seq<char>,
    ext: Seq<char>,
    stem: Seq<char>,
    written: Seq<char>,
)
    ensures
        stem.len() > 0 && same_letters(written, ext) ==> name_has_extension(
            stem + seq!['.'] + written,
            ext,
        ),
        name_has_extension(name, ext) ==> {
            let at = name.len() - ext.len() - 1;
            &&& at > 0
            &&& name == name.take(at) + seq!['.'] + name.skip(at + 1)
            &&& same_letters(name.skip(at + 1), ext)
        },
{
    if stem.len() > 0 && same_letters(written, ext) {
        let whole = stem + seq!['.'] + written;
        assert(whole[stem.len() as int] == '.');
        assert forall|i: int| 0 <= i < ext.len() implies same_letter(
            whole[whole.len() - ext.len() + i],
            #[trigger] ext[i],
        ) by {
            assert(whole[stem.len() + 1 + i] == written[i]);
        }
    }
    if name_has_extension(name, ext) {
        let at = name.len() - ext.len() - 1;
        let end = name.skip(at + 1);
        assert(name =~= name.take(at) + seq!['.'] + end);
        assert forall|i: int| 0 <= i < end.len() implies same_letter(
            #[trigger] end[i],
            #[trigger] ext[i],
        ) by {
            assert(end[i] == name[name.len() - ext.len() + i]);
        }
    }
}

/// One extension excludes the file names that have it, and those alone; what has no name is not
/// excluded.
pub proof fn an_extension_excludes_what_has_it(
    extensions: Seq<Seq<char>>,
    ext: Seq<char>,
    name: Seq<char>,
)
    ensures
        excluded(seq![ext], Some(name)) == name_has_extension(name, ext),
        !excluded(extensions, None),
{
    if name_has_extension(name, ext) {
        assert(seq![ext][0] == ext);
    }
}

/// A file is left alone if and only if its name starts with a dot or is excluded, or it is a
/// folder.
pub proof fn other_files_are_not_left_alone(
    extensions: Seq<Seq<char>>,
    name: Seq<char>,
    is_dir: bool,
)
    ensures
        ignored(extensions, Some(name), false) <==> (name.len() > 0 && name[0] == '.') || excluded(
            extensions,
            Some(name),
        ),
        !ignored(extensions, None, false),
        ignored(extensions, Some(name), is_dir) == (is_dir || ignored(
            extensions,
            Some(name),
            false,
        )),
{
}

proof fn no_slash_at_all(name: Seq<char>)
    requires
        !name.contains('/'),
    ensures
        last_slash(name) == -1,
    decreases name.len(),
{
    if name.len() > 0 {
        assert(name[name.len() - 1] != '/');
        assert forall|k: int| 0 <= k < name.drop_last().len() implies name.drop_last()[k]
            != '/' by {
            assert(name[k] != '/');
        }
        no_slash_at_all(name.drop_last());
    }
}

/// A path without a slash is the name itself, unless it names nothing. Slashes behind a path,
/// and `.` behind a slash, change nothing. Behind `..` there is no name.
pub proof fn names_are_what_stands_last(path: Seq<char>, name: Seq<char>)
    requires
        !name.contains('/'),
    ensures
        name.len() > 0 && name != seq!['.'] && name != seq!['.', '.'] ==> file_name_of(name) == Some(
            name,
        ),
        name.len() == 0 || name == seq!['.'] || name == seq!['.', '.'] ==> file_name_of(
            name,
        ) is None,
        file_name_of(path.push('/')) == file_name_of(path),
        file_name_of(path + seq!['/', '.']) == file_name_of(path),
        file_name_of(path + seq!['/', '.', '.']) is None,
{
    no_slash_at_all(name);
    assert(name.skip(0) =~= name);
    let slashed = path.push('/');
    assert(last_slash(slashed) == path.len());
    assert(slashed.skip(path.len() as int + 1).len() == 0);
    assert(slashed.take(path.len() as int) =~= path);
    let dot = seq!['.'];
    assert(!dot.contains('/'));
    last_slash_is_found(path, dot);
    let dotted = path + seq!['/', '.'];
    assert(path + seq!['/'] + dot =~= dotted);
    assert(dotted.skip(path.len() as int + 1) =~= dot);
    assert(dotted.take(path.len() as int) =~= path);
    let up = seq!['.', '.'];
    assert(!up.contains('/'));
    last_slash_is_found(path, up);
    let above = path + seq!['/', '.', '.'];
    assert(path + seq!['/'] + up =~= above);
    assert(above.skip(path.len() as int + 1) =~= up);
    assert(up != dot) by {
        assert(up.len() == 2);
    }
}

/// A row is to be forgotten if and only if it is one of a configured user, has no asset, and
/// its file name is excluded, outside a dry run.
pub proof fn rows_are_forgotten_by_their_name(
    config: Config,
    table: Table,
    key: (Seq<char>, Seq<char>),
    dry_run: bool,
)
    ensures
        purged(config, table, key, dry_run) <==> {
            &&& !dry_run
            &&& exists|i: int|
                0 <= i < config.users@.len() && (#[trigger] config.users@[i]).user_id@ == key.0
            &&& table.contains_key(key)
            &&& table[key].asset_id is None
            &&& excluded(texts(config.exclude_extensions@), file_name_of(key.1))
        },
{
    assert(key == (key.0, key.1));
}

/// What runs for a user is what the configuration says: the server and the intervals of each
/// worker from it, the key and the folder from the user, and a dry run for every worker that
/// could change something.
pub proof fn a_plan_takes_over_the_configuration(
    plan: SyncPlan,
    config: Config,
    user: UserConfig,
    dry_run: bool,
)
    requires
        plans_for(plan, config, user, dry_run),
    ensures
        plan.user_id@ == user.user_id@,
        plan.user_key@ == user.user_key@,
        plan.user_path@ == user.path@,
        plan.server_url@ == config.immich.server_url@,
        plan.discovery.poll_interval == config.immich.import_poll_interval,
        plan.upload.poll_interval == config.immich.upload_poll_interval,
        plan.deletion_watcher.poll_interval == config.immich.delete_poll_interval,
        plan.file_watcher.delete_threshold == config.immich.delete_threshold,
        plan.file_watcher.delete_max_age == config.immich.delete_max_age,
        plan.deletion_watcher.delete_max_age == config.immich.delete_max_age,
        plan.upload.dry_run == dry_run,
        plan.file_watcher.dry_run == dry_run,
        plan.deletion_watcher.dry_run == dry_run,
{
}

} // verus!
