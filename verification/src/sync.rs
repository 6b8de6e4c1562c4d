//! Which files are left alone, and what runs for a user.
use vstd::prelude::*;

use crate::config::{has_user, user_at, Config, UserConfig};
use crate::local_db::{assets_view, is_unlinked, LocalDatabase, Table};
use crate::text::{chars_of, opt_str, opt_text, texts};

verus! {

/// Whether a character can part the names in a path: a slash can on every system, a
/// backslash on some.
pub open spec fn is_separator(c: char) -> bool {
    c == '/' || c == '\\'
}

/// Whether a path starts as one with a drive does: with a letter and a colon.
pub open spec fn has_drive(path: Seq<char>) -> bool {
    path.len() >= 2 && path[1] == ':' && ('A' <= path[0] <= 'Z' || 'a' <= path[0] <= 'z')
}

/// Whether a path starts with two separators, as the name of a share or a device does.
pub open spec fn starts_doubly(path: Seq<char>) -> bool {
    path.len() >= 2 && is_separator(path[0]) && is_separator(path[1])
}

/// Whether a path is read in the same way everywhere: it has no backslash, names no
/// drive, and does not start with two slashes.
pub open spec fn portable(path: Seq<char>) -> bool {
    !path.contains('\\') && !has_drive(path) && !starts_doubly(path)
}

/// The place of the last separator of a path; -1 where there is none.
pub open spec fn last_separator(path: Seq<char>) -> int
    decreases path.len(),
{
    if path.len() == 0 {
        -1
    } else if is_separator(path.last()) {
        path.len() - 1
    } else {
        last_separator(path.drop_last())
    }
}

/// Where the last part of a path starts: behind the last separator, or behind the drive
/// where there is none.
pub open spec fn last_part_start(path: Seq<char>) -> int {
    if last_separator(path) >= 0 {
        last_separator(path) + 1
    } else if has_drive(path) {
        2
    } else {
        0
    }
}

/// The last part of a path, whichever characters part its names.
pub open spec fn last_part(path: Seq<char>) -> Seq<char> {
    path.skip(last_part_start(path))
}

/// Whether a part of a path is no name of a file: it is empty, `.` or `..`.
pub open spec fn names_nothing(part: Seq<char>) -> bool {
    part.len() == 0 || part == seq!['.'] || part == seq!['.', '.']
}

/// The place of the last slash of a path; -1 where there is none.
pub open spec fn last_slash(path: Seq<char>) -> int
    decreases path.len(),
{
    if path.len() == 0 {
        -1
    } else if path.last() == '/' {
        path.len() - 1
    } else {
        last_slash(path.drop_last())
    }
}

proof fn last_slash_is_inside(path: Seq<char>)
    ensures
        -1 <= last_slash(path) < path.len(),
    decreases path.len(),
{
    if path.len() > 0 {
        last_slash_is_inside(path.drop_last());
    }
}

/// The file name of a path: what stands behind the last slash, where slashes and `.` at
/// the end of the path are passed over. There is none behind `..` and in the root.
pub open spec fn file_name_of(path: Seq<char>) -> Option<Seq<char>>
    decreases path.len(),
    via file_name_ends
{
    let at = last_slash(path);
    let name = path.skip(at + 1);
    if name.len() == 0 || name == seq!['.'] {
        if at < 0 {
            None
        } else {
            file_name_of(path.take(at))
        }
    } else if name == seq!['.', '.'] {
        None
    } else {
        Some(name)
    }
}

#[via_fn]
proof fn file_name_ends(path: Seq<char>) {
    last_slash_is_inside(path);
}

/// Whether nothing but separators, and `.` between them, stands in a path from `end` on.
pub open spec fn nothing_behind(path: Seq<char>, end: int) -> bool {
    &&& end < path.len() ==> is_separator(path[end])
    &&& forall|k: int|
        end <= k < path.len() ==> (is_separator(#[trigger] path[k]) || {
            &&& path[k] == '.'
            &&& is_separator(path[k - 1])
            &&& k + 1 == path.len() || is_separator(path[k + 1])
        })
}

/// Whether `name` stands in a path from `start` on, as the last name of it: behind a
/// separator, a drive or nothing, and with nothing behind it but separators and `.`. No
/// slash is in it, but where the path starts with two separators.
pub open spec fn name_at(path: Seq<char>, name: Seq<char>, start: int) -> bool {
    &&& !names_nothing(name)
    &&& 0 <= start <= start + name.len() <= path.len()
    &&& path.subrange(start, start + name.len()) == name
    &&& start == 0 || is_separator(path[start - 1]) || (has_drive(path) && start == 2)
    &&& nothing_behind(path, start + name.len())
    &&& !starts_doubly(path) ==> !name.contains('/')
}

/// Whether a system can take `name` for the file name of a path. Where the path is read in
/// the same way everywhere, it is that file name. Anywhere a name is the last one of the
/// path, and there is none only where the path starts with two separators or its last part
/// names nothing.
pub open spec fn can_be_name(path: Seq<char>, name: Option<Seq<char>>) -> bool {
    &&& portable(path) ==> name == file_name_of(path)
    &&& name is Some ==> exists|start: int| name_at(path, name->0, start)
    &&& name is None ==> starts_doubly(path) || names_nothing(last_part(path))
}

/// `std::path::Path::file_name`, where the name is text.
///
/// The parts of a path are separated by `/` on Unix and by `/` or a backslash on Windows,
/// where a path may also start with a drive, or with two separators for a share or a
/// device. The contract says what holds of the last of them on both: which name it is for
/// paths that are read in the same way, and of the others which names it can be.
#[verifier::external_body]
fn path_file_name(path: &str) -> (r: Option<String>)
    ensures
        can_be_name(path@, opt_text(r)),
{
    std::path::Path::new(path).file_name().and_then(|name| name.to_str()).map(|name| name.to_owned())
}

/// The file name of a path, where it has one.
pub fn file_name(path: &str) -> (r: Option<String>)
    ensures
        portable(path@) ==> opt_text(r) == file_name_of(path@),
        can_be_name(path@, opt_text(r)),
{
    path_file_name(path)
}

/// Whether two characters are the same up to the case of an ASCII letter.
pub open spec fn same_letter(a: char, b: char) -> bool {
    ||| a == b
    ||| 'A' <= a <= 'Z' && b as int == a as int + 32
    ||| 'A' <= b <= 'Z' && a as int == b as int + 32
}

/// Whether a file name ends in a dot and an extension, up to the case of ASCII letters,
/// with something before the dot.
pub open spec fn name_has_extension(name: Seq<char>, ext: Seq<char>) -> bool {
    &&& name.len() > ext.len() + 1
    &&& name[name.len() - ext.len() - 1] == '.'
    &&& forall|i: int|
        0 <= i < ext.len() ==> same_letter(name[name.len() - ext.len() + i], #[trigger] ext[i])
}

/// Whether a file name ends in one of the extensions.
pub open spec fn excluded(extensions: Seq<Seq<char>>, name: Option<Seq<char>>) -> bool {
    name is Some && exists|i: int|
        0 <= i < extensions.len() && name_has_extension(name->0, #[trigger] extensions[i])
}

/// Whether some system can take a path for one with an excluded extension. Where the path
/// is read in the same way everywhere, every system or none does.
pub open spec fn can_be_excluded(extensions: Seq<Seq<char>>, path: Seq<char>) -> bool {
    exists|name: Option<Seq<char>>| #[trigger] can_be_name(path, name) && excluded(extensions, name)
}

/// Whether some system can take a path for one without an excluded extension.
pub open spec fn can_be_kept(extensions: Seq<Seq<char>>, path: Seq<char>) -> bool {
    exists|name: Option<Seq<char>>| #[trigger] can_be_name(path, name) && !excluded(extensions, name)
}

/// Whether a file is left alone: a hidden one, one with an excluded extension, or a
/// folder.
pub open spec fn ignored(
    extensions: Seq<Seq<char>>,
    name: Option<Seq<char>>,
    is_dir: bool,
) -> bool {
    ||| name is Some && name->0.len() > 0 && name->0[0] == '.'
    ||| excluded(extensions, name)
    ||| is_dir
}

fn letters_match(a: char, b: char) -> (r: bool)
    ensures
        r == same_letter(a, b),
{
    let x: u32 = a as u32;
    let y: u32 = b as u32;
    x == y || (65 <= x && x <= 90 && y == x + 32) || (65 <= y && y <= 90 && x == y + 32)
}

/// Whether a file name ends in a dot and an extension, up to the case of ASCII letters,
/// with something before the dot.
pub fn matches_extension(name: &str, ext: &str) -> (r: bool)
    ensures
        r == name_has_extension(name@, ext@),
{
    let n: Vec<char> = chars_of(name);
    let e: Vec<char> = chars_of(ext);
    if n.len() <= e.len() || n.len() - e.len() < 2 {
        return false;
    }
    let start: usize = n.len() - e.len();
    if n[start - 1] != '.' {
        return false;
    }
    let mut i: usize = 0;
    while i < e.len()
        invariant
            i <= e.len(),
            n@ == name@,
            e@ == ext@,
            start == n.len() - e.len(),
            forall|j: int| 0 <= j < i ==> same_letter(name@[start + j], #[trigger] ext@[j]),
        decreases e.len() - i,
    {
        if !letters_match(n[start + i], e[i]) {
            assert(!same_letter(name@[start + i], ext@[i as int]));
            return false;
        }
        i = i + 1;
    }
    true
}

/// The files that are left alone. An extension matches the end of a file name, so `gz`
/// and `tar.gz` both match `backup.tar.gz`.
#[derive(Debug, PartialEq, Eq)]
pub struct PathFilter {
    pub exclude_extensions: Vec<String>,
}

impl PathFilter {
    /// The excluded extensions.
    pub open spec fn extensions(&self) -> Seq<Seq<char>> {
        texts(self.exclude_extensions@)
    }

    /// The filter that a configuration asks for.
    pub fn from_config(config: &Config) -> (r: PathFilter)
        ensures
            r.extensions() == texts(config.exclude_extensions@),
    {
        let mut exclude_extensions: Vec<String> = Vec::new();
        let mut i: usize = 0;
        while i < config.exclude_extensions.len()
            invariant
                i <= config.exclude_extensions.len(),
                exclude_extensions.len() == i,
                forall|j: int|
                    0 <= j < i ==> (#[trigger] exclude_extensions@[j])@
                        == config.exclude_extensions@[j]@,
            decreases config.exclude_extensions.len() - i,
        {
            exclude_extensions.push(config.exclude_extensions[i].clone());
            i = i + 1;
        }
        assert(texts(exclude_extensions@) =~= texts(config.exclude_extensions@));
        PathFilter { exclude_extensions }
    }

    /// Whether a file with this name has an excluded extension. A file without a name
    /// that is text has none.
    pub fn excludes_name(&self, name: Option<&str>) -> (r: bool)
        ensures
            r == excluded(
                self.extensions(),
                opt_str(name),
            ),
    {
        let text: &str = match name {
            Some(text) => text,
            None => {
                return false;
            },
        };
        let mut i: usize = 0;
        while i < self.exclude_extensions.len()
            invariant
                i <= self.exclude_extensions.len(),
                opt_str(name) == Some(text@),
                forall|j: int|
                    0 <= j < i ==> !name_has_extension(text@, #[trigger] self.extensions()[j]),
            decreases self.exclude_extensions.len() - i,
        {
            if matches_extension(text, self.exclude_extensions[i].as_str()) {
                assert(name_has_extension(text@, self.extensions()[i as int]));
                return true;
            }
            i = i + 1;
        }
        false
    }

    /// Whether a file with this name, or a folder, is left alone.
    pub fn ignores_name(&self, name: Option<&str>, is_dir: bool) -> (r: bool)
        ensures
            r == ignored(
                self.extensions(),
                opt_str(name),
                is_dir,
            ),
    {
        if let Some(name) = name {
            if name.unicode_len() > 0 && name.get_char(0) == '.' {
                return true;
            }
        }
        self.excludes_name(name) || is_dir
    }

    /// Whether a path is left alone; `is_dir` says whether there is a folder under it.
    pub fn is_ignored(&self, path: &str, is_dir: bool) -> (r: bool)
        ensures
            portable(path@) ==> r == ignored(self.extensions(), file_name_of(path@), is_dir),
            exists|name: Option<Seq<char>>| #[trigger]
                can_be_name(path@, name) && r == ignored(self.extensions(), name, is_dir),
    {
        let name: Option<String> = file_name(path);
        match &name {
            Some(name) => self.ignores_name(Some(name.as_str()), is_dir),
            None => self.ignores_name(None, is_dir),
        }
    }

    /// The check of the extension alone. It needs no file, so it can be asked of the
    /// paths in the table, which are relative to the folder of their user.
    pub fn has_excluded_extension(&self, path: &str) -> (r: bool)
        ensures
            portable(path@) ==> r == excluded(self.extensions(), file_name_of(path@)),
            exists|name: Option<Seq<char>>| #[trigger]
                can_be_name(path@, name) && r == excluded(self.extensions(), name),
            r ==> can_be_excluded(self.extensions(), path@),
            !r ==> can_be_kept(self.extensions(), path@),
    {
        let name: Option<String> = file_name(path);
        match &name {
            Some(name) => self.excludes_name(Some(name.as_str())),
            None => self.excludes_name(None),
        }
    }
}

/// Which of the unlinked assets of a user are to be forgotten because their extension
/// is excluded; none in a dry run.
pub fn purge_list(
    filter: &PathFilter,
    unlinked: &Vec<(String, Vec<u8>)>,
    dry_run: bool,
) -> (r: Vec<String>)
    ensures
        dry_run || filter.extensions().len() == 0 ==> r.len() == 0,
        forall|path: Seq<char>| #[trigger]
            texts(r@).contains(path) ==> has_path(assets_view(unlinked@), path) && can_be_excluded(
                filter.extensions(),
                path,
            ),
        forall|path: Seq<char>|
            has_path(assets_view(unlinked@), path) && portable(path) ==> (#[trigger] texts(
                r@,
            ).contains(path) <==> !dry_run && excluded(filter.extensions(), file_name_of(path))),
        forall|path: Seq<char>|
            has_path(assets_view(unlinked@), path) && !dry_run && !(#[trigger] texts(r@).contains(
                path,
            )) ==> can_be_kept(filter.extensions(), path),
{
    let mut r: Vec<String> = Vec::new();
    if dry_run {
        return r;
    }
    let mut i: usize = 0;
    while i < unlinked.len()
        invariant
            i <= unlinked.len(),
            !dry_run,
            filter.extensions().len() == 0 ==> r.len() == 0,
            forall|path: Seq<char>| #[trigger]
                texts(r@).contains(path) ==> has_path(assets_view(unlinked@), path)
                    && can_be_excluded(filter.extensions(), path),
            forall|j: int|
                0 <= j < i && !texts(r@).contains((#[trigger] assets_view(unlinked@)[j]).0)
                    ==> can_be_kept(filter.extensions(), assets_view(unlinked@)[j].0),
        decreases unlinked.len() - i,
    {
        let path: &str = unlinked[i].0.as_str();
        let ghost before = texts(r@);
        assert(assets_view(unlinked@)[i as int].0 == path@);
        if filter.has_excluded_extension(path) {
            r.push(path.to_owned());
            proof {
                assert(texts(r@) =~= before.push(path@));
                assert(texts(r@)[before.len() as int] == path@);
                assert forall|p: Seq<char>| #[trigger] texts(r@).contains(p) implies has_path(
                    assets_view(unlinked@),
                    p,
                ) && can_be_excluded(filter.extensions(), p) by {
                    let k = choose|k: int| 0 <= k < texts(r@).len() && texts(r@)[k] == p;
                    if k < before.len() {
                        assert(before[k] == p);
                        assert(before.contains(p));
                    }
                }
                assert forall|p: Seq<char>| before.contains(p) implies #[trigger] texts(
                    r@,
                ).contains(p) by {
                    let k = choose|k: int| 0 <= k < before.len() && before[k] == p;
                    assert(texts(r@)[k] == p);
                }
            }
        }
        i = i + 1;
    }
    r
}

/// Whether a list of assets has a path.
pub open spec fn has_path(list: Seq<(Seq<char>, Seq<u8>)>, path: Seq<char>) -> bool {
    exists|i: int| 0 <= i < list.len() && (#[trigger] list[i]).0 == path
}

/// Whether a row is to be forgotten because its extension is excluded: one of a
/// configured user that is not linked yet, outside a dry run.
pub open spec fn purged(
    config: Config,
    table: Table,
    key: (Seq<char>, Seq<char>),
    dry_run: bool,
) -> bool {
    &&& !dry_run
    &&& has_user(config.users@, key.0)
    &&& is_unlinked(table, key.0, key.1)
    &&& excluded(texts(config.exclude_extensions@), file_name_of(key.1))
}

/// Whether `after` is what a purge leaves of `before`: rows only go, as they are or not at
/// all. Where a path is read in the same way everywhere, its row goes if and only if it is
/// to be forgotten. Of every path, a row goes only if it is an unlinked one of a configured
/// user which the system can take for one with an excluded extension, and such a row stays
/// only if the system can take it for one without. A dry run and an empty list of extensions
/// leave everything.
pub open spec fn purges(before: Table, after: Table, config: Config, dry_run: bool) -> bool {
    &&& dry_run || config.exclude_extensions.len() == 0 ==> after == before
    &&& forall|key: (Seq<char>, Seq<char>)| #[trigger]
        after.contains_key(key) ==> before.contains_key(key) && after[key] == before[key]
    &&& forall|key: (Seq<char>, Seq<char>)|
        before.contains_key(key) && portable(key.1) ==> (#[trigger] after.contains_key(key)
            <==> !purged(config, before, key, dry_run))
    &&& forall|key: (Seq<char>, Seq<char>)|
        before.contains_key(key) && !(#[trigger] after.contains_key(key)) ==> {
            &&& has_user(config.users@, key.0)
            &&& is_unlinked(before, key.0, key.1)
            &&& can_be_excluded(texts(config.exclude_extensions@), key.1)
        }
    &&& config.exclude_extensions.len() > 0 ==> forall|key: (Seq<char>, Seq<char>)|
        {
            &&& !dry_run
            &&& has_user(config.users@, key.0)
            &&& is_unlinked(before, key.0, key.1)
            &&& #[trigger] after.contains_key(key)
        } ==> can_be_kept(texts(config.exclude_extensions@), key.1)
}

/// What a purge for the first users of a configuration leaves of a table.
spec fn purged_so_far(
    before: Table,
    after: Table,
    extensions: Seq<Seq<char>>,
    users: Seq<UserConfig>,
    dry_run: bool,
) -> bool {
    &&& forall|key: (Seq<char>, Seq<char>)| #[trigger]
        after.contains_key(key) ==> before.contains_key(key) && after[key] == before[key]
    &&& forall|key: (Seq<char>, Seq<char>)| #[trigger]
        before.contains_key(key) && !after.contains_key(key) ==> {
            &&& !dry_run
            &&& extensions.len() > 0
            &&& has_user(users, key.0)
            &&& is_unlinked(before, key.0, key.1)
            &&& can_be_excluded(extensions, key.1)
        }
    &&& forall|key: (Seq<char>, Seq<char>)|
        {
            &&& !dry_run
            &&& has_user(users, key.0)
            &&& is_unlinked(before, key.0, key.1)
            &&& #[trigger] after.contains_key(key)
        } ==> can_be_kept(extensions, key.1)
}

/// Forgets the assets of the configured users whose extension is excluded and that are
/// not linked yet, so that files which were recorded before their extension was excluded
/// are not uploaded. A dry run forgets nothing.
pub fn purge_excluded_extensions(db: &mut LocalDatabase, config: &Config, dry_run: bool)
    requires
        old(db).wf(),
    ensures
        final(db).wf(),
        purges(old(db)@, final(db)@, *config, dry_run),
{
    if config.exclude_extensions.len() == 0 {
        return;
    }
    let filter: PathFilter = PathFilter::from_config(config);
    let ghost extensions = texts(config.exclude_extensions@);
    let ghost before = db@;
    let mut u: usize = 0;
    while u < config.users.len()
        invariant
            u <= config.users.len(),
            db.wf(),
            filter.extensions() == extensions,
            extensions.len() > 0,
            purged_so_far(before, db@, extensions, config.users@.take(u as int), dry_run),
        decreases config.users.len() - u,
    {
        let user_id: &str = config.users[u].user_id.as_str();
        let unlinked: Vec<(String, Vec<u8>)> = db.find_unlinked_assets(user_id);
        let paths: Vec<String> = purge_list(&filter, &unlinked, dry_run);
        let ghost start = db@;
        let ghost gone = texts(paths@);
        let mut i: usize = 0;
        while i < paths.len()
            invariant
                i <= paths.len(),
                db.wf(),
                gone == texts(paths@),
                forall|key: (Seq<char>, Seq<char>)| #[trigger]
                    db@.contains_key(key) ==> start.contains_key(key) && db@[key] == start[key],
                forall|key: (Seq<char>, Seq<char>)|
                    start.contains_key(key) && !(#[trigger] db@.contains_key(key)) ==> key.0
                        == user_id@ && gone.contains(key.1),
                forall|j: int|
                    0 <= j < i ==> !db@.contains_key((user_id@, #[trigger] gone[j])),
            decreases paths.len() - i,
        {
            assert(gone[i as int] == paths@[i as int]@);
            db.delete_asset(user_id, paths[i].as_str());
            i = i + 1;
        }
        proof {
            let users = config.users@.take(u as int);
            let more = config.users@.take(u + 1);
            assert forall|id: Seq<char>| #[trigger] has_user(more, id) <==> has_user(users, id)
                || id == user_id@ by {
                if has_user(more, id) {
                    let k = choose|k: int| 0 <= k < more.len() && (#[trigger] more[k]).user_id@ == id;
                    if k < u {
                        assert(users[k].user_id@ == id);
                    }
                }
                if has_user(users, id) {
                    let k = choose|k: int|
                        0 <= k < users.len() && (#[trigger] users[k]).user_id@ == id;
                    assert(more[k].user_id@ == id);
                }
                if id == user_id@ {
                    assert(more[u as int].user_id@ == id);
                }
            }
            let list = assets_view(unlinked@);
            assert forall|key: (Seq<char>, Seq<char>)| #[trigger]
                before.contains_key(key) && !db@.contains_key(key) implies {
                &&& !dry_run
                &&& has_user(more, key.0)
                &&& is_unlinked(before, key.0, key.1)
                &&& can_be_excluded(extensions, key.1)
            } by {
                if start.contains_key(key) {
                    assert(gone.contains(key.1));
                    assert(has_path(list, key.1));
                    let k = choose|k: int| 0 <= k < list.len() && (#[trigger] list[k]).0 == key.1;
                    assert(list[k].0 == key.1);
                }
            }
            assert forall|key: (Seq<char>, Seq<char>)|
                {
                    &&& !dry_run
                    &&& has_user(more, key.0)
                    &&& is_unlinked(before, key.0, key.1)
                    &&& #[trigger] db@.contains_key(key)
                } implies can_be_kept(extensions, key.1) by {
                if key.0 == user_id@ {
                    assert(start.contains_key((user_id@, key.1)));
                    assert(has_path(list, key.1));
                    if gone.contains(key.1) {
                        let k = choose|k: int| 0 <= k < gone.len() && gone[k] == key.1;
                        assert(!db@.contains_key((user_id@, gone[k])));
                    }
                }
            }
        }
        u = u + 1;
    }
    proof {
        assert(config.users@.take(config.users.len() as int) =~= config.users@);
        if dry_run {
            assert(db@ =~= before);
        }
    }
}

/// What the file watcher of a user works with: up to which age a deletion is passed on,
/// and from which age a file is left alone, in days.
#[derive(Debug, Clone, Copy, PartialEq, Eq, Structural)]
pub struct FileWatcherPlan {
    pub delete_threshold: i64,
    pub delete_max_age: i64,
    pub dry_run: bool,
}

/// What the deletion watcher of a user works with.
#[derive(Debug, Clone, Copy, PartialEq, Eq, Structural)]
pub struct DeletionWatcherPlan {
    pub poll_interval: u64,
    pub delete_max_age: i64,
    pub dry_run: bool,
}

/// What the upload worker of a user works with.
#[derive(Debug, Clone, Copy, PartialEq, Eq, Structural)]
pub struct UploadPlan {
    pub poll_interval: u64,
    pub dry_run: bool,
}

/// What the discovery worker of a user works with.
#[derive(Debug, Clone, Copy, PartialEq, Eq, Structural)]
pub struct DiscoveryPlan {
    pub poll_interval: u64,
}

/// What runs for one user, against which server and on which folder.
#[derive(Debug, PartialEq, Eq)]
pub struct SyncPlan {
    pub user_id: String,
    pub user_key: String,
    pub user_path: String,
    pub server_url: String,
    pub discovery: DiscoveryPlan,
    pub upload: UploadPlan,
    pub file_watcher: FileWatcherPlan,
    pub deletion_watcher: DeletionWatcherPlan,
}

/// Why nothing runs for a user.
#[derive(Debug, PartialEq, Eq)]
pub enum SyncError {
    /// The folder of the user does not exist.
    PathMissing { path: String },
}

impl SyncError {
    /// The message of the error.
    pub fn message(&self) -> (r: String)
        ensures
            r@ == (match *self {
                SyncError::PathMissing { path } => "User path does not exist: "@ + path@,
            }),
    {
        match self {
            SyncError::PathMissing { path } => "User path does not exist: ".to_owned().concat(
                path.as_str(),
            ),
        }
    }
}

/// Whether a plan is the one that a configuration asks for a user.
pub open spec fn plans_for(
    plan: SyncPlan,
    config: Config,
    user: UserConfig,
    dry_run: bool,
) -> bool {
    &&& plan.user_id@ == user.user_id@
    &&& plan.user_key@ == user.user_key@
    &&& plan.user_path@ == user.path@
    &&& plan.server_url@ == config.immich.server_url@
    &&& plan.discovery == DiscoveryPlan { poll_interval: config.immich.import_poll_interval }
    &&& plan.upload == UploadPlan { poll_interval: config.immich.upload_poll_interval, dry_run }
    &&& plan.file_watcher == FileWatcherPlan {
        delete_threshold: config.immich.delete_threshold,
        delete_max_age: config.immich.delete_max_age,
        dry_run,
    }
    &&& plan.deletion_watcher == DeletionWatcherPlan {
        poll_interval: config.immich.delete_poll_interval,
        delete_max_age: config.immich.delete_max_age,
        dry_run,
    }
}

/// What is to run for a user of the configuration. Of two users with the same ID the
/// first counts.
pub fn plan_user_sync(config: &Config, user_id: &str, dry_run: bool) -> (r: SyncPlan)
    requires
        has_user(config.users@, user_id@),
    ensures
        exists|i: int| #[trigger]
            user_at(config.users@, user_id@, i) && plans_for(r, *config, config.users@[i], dry_run),
{
    let found: Option<usize> = config.find_user(user_id);
    let at: usize = found.unwrap();
    let user = &config.users[at];
    let r = SyncPlan {
        user_id: user.user_id.clone(),
        user_key: user.user_key.clone(),
        user_path: user.path.clone(),
        server_url: config.immich.server_url.clone(),
        discovery: DiscoveryPlan { poll_interval: config.immich.import_poll_interval },
        upload: UploadPlan { poll_interval: config.immich.upload_poll_interval, dry_run },
        file_watcher: FileWatcherPlan {
            delete_threshold: config.immich.delete_threshold,
            delete_max_age: config.immich.delete_max_age,
            dry_run,
        },
        deletion_watcher: DeletionWatcherPlan {
            poll_interval: config.immich.delete_poll_interval,
            delete_max_age: config.immich.delete_max_age,
            dry_run,
        },
    };
    assert(user_at(config.users@, user_id@, at as int) && plans_for(
        r,
        *config,
        config.users@[at as int],
        dry_run,
    ));
    r
}

impl SyncPlan {
    /// Whether the plan can run: only where the folder of the user exists.
    pub fn start(self, path_exists: bool) -> (r: Result<SyncPlan, SyncError>)
        ensures
            match r {
                Ok(plan) => path_exists && plan == self,
                Err(SyncError::PathMissing { path }) => !path_exists && path@ == self.user_path@,
            },
    {
        if path_exists {
            Ok(self)
        } else {
            Err(SyncError::PathMissing { path: self.user_path })
        }
    }
}

} // verus!
