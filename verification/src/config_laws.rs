//! What holds of every command line, and of the users of every configuration.
use vstd::prelude::*;

use crate::config::{arguments_add_up, cli_default, cli_of, has_user, user_at, CliView, UserConfig};

verus! {

/// Whether the argument `i` is read as an option: it is not the path of a `--config` before
/// it.
pub open spec fn is_option(args: Seq<Seq<char>>, i: int) -> bool
    decreases i,
{
    0 <= i < args.len() && !(i > 0 && args[i - 1] == "--config"@ && is_option(args, i - 1))
}

/// Whether the argument `i` asks for a dry run.
pub open spec fn asks_for_dry_run(args: Seq<Seq<char>>, i: int) -> bool {
    is_option(args, i) && (args[i] == "--dry-run"@ || args[i] == "-n"@)
}

/// Whether the argument `i` is the path of a `--config`.
pub open spec fn is_config_path(args: Seq<Seq<char>>, i: int) -> bool {
    0 < i < args.len() && is_option(args, i - 1) && args[i - 1] == "--config"@
}

proof fn options_shift(args: Seq<Seq<char>>, n: int, i: int)
    requires
        0 <= n <= args.len(),
        n < args.len() ==> is_option(args, n),
        0 <= i < args.len() - n,
    ensures
        is_option(args.skip(n), i) == is_option(args, n + i),
    decreases i,
{
    if i > 0 {
        options_shift(args, n, i - 1);
        assert(args.skip(n)[i - 1] == args[n + i - 1]);
    }
}

proof fn what_a_rest_asks_for(args: Seq<Seq<char>>, n: int)
    requires
        0 < n <= args.len(),
        n < args.len() ==> is_option(args, n),
    ensures
        forall|i: int|
            0 <= i < args.len() - n ==> #[trigger] asks_for_dry_run(args.skip(n), i)
                == asks_for_dry_run(args, n + i),
        forall|i: int|
            0 < i < args.len() - n ==> #[trigger] is_config_path(args.skip(n), i)
                == is_config_path(args, n + i),
        n < args.len() ==> !is_config_path(args, n),
        n < args.len() ==> is_option(args.skip(n), args.skip(n).len() - 1) == is_option(
            args,
            args.len() - 1,
        ),
{
    let rest = args.skip(n);
    assert forall|i: int| 0 <= i < args.len() - n implies #[trigger] asks_for_dry_run(rest, i)
        == asks_for_dry_run(args, n + i) by {
        options_shift(args, n, i);
        assert(rest[i] == args[n + i]);
    }
    assert forall|i: int| 0 < i < args.len() - n implies #[trigger] is_config_path(rest, i)
        == is_config_path(args, n + i) by {
        options_shift(args, n, i - 1);
        assert(rest[i - 1] == args[n + i - 1]);
    }
    if n < args.len() {
        options_shift(args, n, args.len() - n - 1);
    }
}

/// The options, one by one: after whatever was asked for before, `--dry-run` and `-n` ask
/// for a dry run and for nothing else, `--config` names the path behind it and changes
/// nothing else, and every other argument changes nothing.
pub proof fn each_option_does_its_part(before: CliView, arg: Seq<char>, path: Seq<char>)
    ensures
        cli_of(Seq::empty(), before) == Some(before),
        cli_of(seq!["--dry-run"@], before) == Some(
            CliView { config_path: before.config_path, dry_run: true },
        ),
        cli_of(seq!["-n"@], before) == Some(
            CliView { config_path: before.config_path, dry_run: true },
        ),
        cli_of(seq!["--config"@, path], before) == Some(
            CliView { config_path: path, dry_run: before.dry_run },
        ),
        cli_of(seq!["--config"@], before) is None,
        arg != "--config"@ && arg != "--dry-run"@ && arg != "-n"@ ==> cli_of(seq![arg], before)
            == Some(before),
{
    reveal_with_fuel(cli_of, 2);
    reveal_strlit("--config");
    reveal_strlit("--dry-run");
    reveal_strlit("-n");
    assert("--dry-run"@.len() != "--config"@.len());
    assert("-n"@.len() != "--config"@.len());
    assert(seq!["--dry-run"@].skip(1) =~= Seq::<Seq<char>>::empty());
    assert(seq!["-n"@].skip(1) =~= Seq::<Seq<char>>::empty());
    assert(seq![arg].skip(1) =~= Seq::<Seq<char>>::empty());
    assert(seq!["--config"@, path].skip(2) =~= Seq::<Seq<char>>::empty());
}

/// Where nothing is said, the file is `config.toml`, and the run is no dry one.
pub proof fn nothing_said_is_the_default()
    ensures
        cli_default().config_path == "config.toml"@,
        !cli_default().dry_run,
{
}

/// A command line is refused if and only if its last argument is a `--config` without a path.
pub proof fn a_path_is_missing_only_at_the_end(args: Seq<Seq<char>>, before: CliView)
    ensures
        cli_of(args, before) is None <==> args.len() > 0 && args.last() == "--config"@ && is_option(
            args,
            args.len() - 1,
        ),
    decreases args.len(),
{
    if args.len() > 0 {
        let n: int = if args[0] == "--config"@ {
            2
        } else {
            1
        };
        assert(is_option(args, 0));
        if n <= args.len() {
            if n < args.len() {
                assert(is_option(args, 1) == (args[0] != "--config"@));
                assert(is_option(args, n));
            }
            what_a_rest_asks_for(args, n);
            let rest = args.skip(n);
            let next = first_asks(args, before);
            a_path_is_missing_only_at_the_end(rest, next);
            first_argument(args, before);
            if rest.len() > 0 {
                assert(rest.last() == args.last());
            } else if n == 2 {
                assert(!is_option(args, 1));
            }
        } else {
            first_argument(args, before);
        }
    }
}

/// What was asked for after the first option of a command line.
spec fn first_asks(args: Seq<Seq<char>>, before: CliView) -> CliView {
    if args[0] == "--config"@ {
        CliView { config_path: args[1], dry_run: before.dry_run }
    } else if args[0] == "--dry-run"@ || args[0] == "-n"@ {
        CliView { config_path: before.config_path, dry_run: true }
    } else {
        before
    }
}

proof fn first_argument(args: Seq<Seq<char>>, before: CliView)
    requires
        args.len() > 0,
    ensures
        args[0] == "--config"@ && args.len() == 1 ==> cli_of(args, before) is None,
        args[0] == "--config"@ && args.len() > 1 ==> cli_of(args, before) == cli_of(
            args.skip(2),
            first_asks(args, before),
        ),
        args[0] != "--config"@ ==> cli_of(args, before) == cli_of(
            args.skip(1),
            first_asks(args, before),
        ),
{
    reveal_strlit("--config");
    reveal_strlit("--dry-run");
    reveal_strlit("-n");
    if args[0] == "--config"@ {
        if args.len() == 1 {
            each_option_does_its_part(before, args[0], args[0]);
            assert(args =~= seq!["--config"@]);
        } else {
            let first = seq!["--config"@, args[1]];
            each_option_does_its_part(before, args[0], args[1]);
            arguments_add_up(first, args.skip(2), before);
            assert(args =~= first + args.skip(2));
        }
    } else {
        let first = seq![args[0]];
        each_option_does_its_part(before, args[0], args[0]);
        arguments_add_up(first, args.skip(1), before);
        assert(args =~= first + args.skip(1));
    }
}

/// A run is a dry one if and only if it was one before, or some option is `--dry-run` or `-n`:
/// whatever configuration was named, and wherever the option stands.
pub proof fn a_dry_run_is_asked_for_by_its_options(args: Seq<Seq<char>>, before: CliView)
    requires
        cli_of(args, before) is Some,
    ensures
        cli_of(args, before)->0.dry_run <==> before.dry_run || exists|i: int|
            asks_for_dry_run(args, i),
    decreases args.len(),
{
    if args.len() == 0 {
        each_option_does_its_part(before, Seq::empty(), Seq::empty());
        assert(args =~= Seq::empty());
    } else {
        reveal_strlit("--config");
        reveal_strlit("--dry-run");
        reveal_strlit("-n");
        assert("--dry-run"@.len() != "--config"@.len() && "-n"@.len() != "--config"@.len());
        let n: int = if args[0] == "--config"@ {
            2
        } else {
            1
        };
        first_argument(args, before);
        assert(is_option(args, 0));
        if n < args.len() {
            assert(is_option(args, 1) == (args[0] != "--config"@));
            assert(is_option(args, n));
        }
        what_a_rest_asks_for(args, n);
        let rest = args.skip(n);
        let next = first_asks(args, before);
        a_dry_run_is_asked_for_by_its_options(rest, next);
        if exists|i: int| asks_for_dry_run(args, i) {
            let i = choose|i: int| asks_for_dry_run(args, i);
            if i >= n {
                assert(asks_for_dry_run(rest, i - n));
            } else if i == 1 {
                assert(!is_option(args, 1));
            }
        }
        if exists|i: int| asks_for_dry_run(rest, i) {
            let i = choose|i: int| asks_for_dry_run(rest, i);
            assert(asks_for_dry_run(args, n + i));
        }
        if args[0] == "--dry-run"@ || args[0] == "-n"@ {
            assert(asks_for_dry_run(args, 0));
        }
    }
}

/// The configuration is the one that the last `--config` names, or the one before where there
/// is none.
pub proof fn the_configuration_is_the_last_one_named(args: Seq<Seq<char>>, before: CliView)
    requires
        cli_of(args, before) is Some,
    ensures
        (forall|i: int| !is_config_path(args, i)) ==> cli_of(args, before)->0.config_path
            == before.config_path,
        forall|i: int| #[trigger]
            is_config_path(args, i) && (forall|j: int| i < j ==> !is_config_path(args, j))
                ==> cli_of(args, before)->0.config_path == args[i],
    decreases args.len(),
{
    if args.len() == 0 {
        each_option_does_its_part(before, Seq::empty(), Seq::empty());
        assert(args =~= Seq::empty());
    } else {
        let n: int = if args[0] == "--config"@ {
            2
        } else {
            1
        };
        first_argument(args, before);
        assert(is_option(args, 0));
        if n < args.len() {
            assert(is_option(args, 1) == (args[0] != "--config"@));
            assert(is_option(args, n));
        }
        what_a_rest_asks_for(args, n);
        let rest = args.skip(n);
        let next = first_asks(args, before);
        the_configuration_is_the_last_one_named(rest, next);
        if n == 2 {
            assert(is_config_path(args, 1));
        }
        if forall|i: int| !is_config_path(args, i) {
            assert forall|i: int| !is_config_path(rest, i) by {
                if is_config_path(rest, i) {
                    assert(is_config_path(args, n + i));
                }
            }
        }
        assert forall|i: int| #[trigger]
            is_config_path(args, i) && (forall|j: int| i < j ==> !is_config_path(
                args,
                j,
            )) implies cli_of(args, before)->0.config_path == args[i] by {
            if i > n {
                assert(is_config_path(rest, i - n));
                assert forall|j: int| i - n < j implies !is_config_path(rest, j) by {
                    if is_config_path(rest, j) {
                        assert(is_config_path(args, n + j));
                    }
                }
                assert(rest[i - n] == args[i]);
            } else {
                assert(i == 1 && n == 2);
                assert forall|j: int| !is_config_path(rest, j) by {
                    if is_config_path(rest, j) {
                        assert(is_config_path(args, n + j));
                    }
                }
            }
        }
    }
}

/// A configuration has a user if and only if one of its entries has that ID, and the entry
/// that counts is the first of them.
pub proof fn the_first_entry_of_a_user_counts(users: Seq<UserConfig>, user_id: Seq<char>, i: int)
    ensures
        has_user(users, user_id) <==> exists|k: int|
            0 <= k < users.len() && (#[trigger] users[k]).user_id@ == user_id,
        user_at(users, user_id, i) <==> 0 <= i < users.len() && users[i].user_id@ == user_id
            && !has_user(users.take(i), user_id),
{
    if 0 <= i < users.len() {
        if has_user(users.take(i), user_id) {
            let k = choose|k: int|
                0 <= k < i && (#[trigger] users.take(i)[k]).user_id@ == user_id;
            assert(users[k].user_id@ == user_id);
        }
        if users[i].user_id@ == user_id && !user_at(users, user_id, i) {
            let k = choose|k: int| 0 <= k < i && (#[trigger] users[k]).user_id@ == user_id;
            assert(users.take(i)[k].user_id@ == user_id);
        }
    }
}

} // verus!
