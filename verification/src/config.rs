//! The command line and the configuration of the service.
use vstd::prelude::*;

use crate::text::{same_text, texts, trim_start, without_start};

verus! {

/// What the command line asks for.
#[derive(Debug, PartialEq, Eq)]
pub struct CliArgs {
    pub config_path: String,
    pub dry_run: bool,
}

/// What is wrong with a command line.
#[derive(Debug, Clone, Copy, PartialEq, Eq, Structural)]
pub enum CliError {
    /// `--config` is the last argument.
    MissingConfigPath,
}

/// What a command line asks for.
pub struct CliView {
    pub config_path: Seq<char>,
    pub dry_run: bool,
}

impl View for CliArgs {
    type V = CliView;

    open spec fn view(&self) -> CliView {
        CliView { config_path: self.config_path@, dry_run: self.dry_run }
    }
}

/// What is asked for where nothing is said.
pub open spec fn cli_default() -> CliView {
    CliView { config_path: "config.toml"@, dry_run: false }
}

/// What arguments ask for, given what was asked for before them; `None` where
/// `--config` comes without its path. An argument that is not known is passed over.
pub open spec fn cli_of(args: Seq<Seq<char>>, before: CliView) -> Option<CliView>
    decreases args.len(),
{
    if args.len() == 0 {
        Some(before)
    } else if args[0] == "--config"@ {
        if args.len() == 1 {
            None
        } else {
            cli_of(args.skip(2), CliView { config_path: args[1], ..before })
        }
    } else if args[0] == "--dry-run"@ || args[0] == "-n"@ {
        cli_of(args.skip(1), CliView { dry_run: true, ..before })
    } else {
        cli_of(args.skip(1), before)
    }
}

/// Reads a command line, of which the first argument is the program.
pub fn parse_cli_args(args: &Vec<String>) -> (r: Result<CliArgs, CliError>)
    ensures
        ({
            let asked = cli_of(texts(args@).skip(if args.len() == 0 { 0 } else { 1 }), cli_default());
            match r {
                Ok(cli) => asked == Some(cli@),
                Err(CliError::MissingConfigPath) => asked is None,
            }
        }),
{
    let ghost all = texts(args@);
    let mut config_path: String = "config.toml".to_owned();
    let mut dry_run: bool = false;
    let mut i: usize = if args.len() == 0 {
        0
    } else {
        1
    };
    let ghost start = i as int;
    while i < args.len()
        invariant
            i <= args.len(),
            start <= i,
            start == (if args.len() == 0 { 0int } else { 1int }),
            all == texts(args@),
            all.len() == args.len(),
            cli_of(all.skip(start), cli_default()) == cli_of(
                all.skip(i as int),
                (CliView { config_path: config_path@, dry_run }),
            ),
        decreases args.len() - i,
    {
        let arg: &str = args[i].as_str();
        let ghost rest = all.skip(i as int);
        assert(rest[0] == arg@);
        if same_text(arg, "--config") {
            if i + 1 >= args.len() {
                assert(rest.len() == 1);
                return Err(CliError::MissingConfigPath);
            }
            assert(rest[1] == all[i + 1]);
            assert(rest.skip(2) =~= all.skip(i + 2));
            config_path = args[i + 1].clone();
            i = i + 2;
        } else {
            assert(rest.skip(1) =~= all.skip(i + 1));
            if same_text(arg, "--dry-run") || same_text(arg, "-n") {
                dry_run = true;
            }
            i = i + 1;
        }
    }
    assert(all.skip(i as int).len() == 0);
    Ok(CliArgs { config_path, dry_run })
}

/// Arguments that follow others add to what those asked for.
pub proof fn arguments_add_up(first: Seq<Seq<char>>, second: Seq<Seq<char>>, before: CliView)
    requires
        cli_of(first, before) is Some,
    ensures
        cli_of(first + second, before) == cli_of(second, cli_of(first, before)->0),
    decreases first.len(),
{
    let all = first + second;
    if first.len() == 0 {
        assert(all =~= second);
    } else {
        assert(all[0] == first[0]);
        if first[0] == "--config"@ {
            assert(all.skip(2) =~= first.skip(2) + second);
            assert(all[1] == first[1]);
            arguments_add_up(
                first.skip(2),
                second,
                CliView { config_path: first[1], ..before },
            );
        } else {
            assert(all.skip(1) =~= first.skip(1) + second);
            if first[0] == "--dry-run"@ || first[0] == "-n"@ {
                arguments_add_up(first.skip(1), second, CliView { dry_run: true, ..before });
            } else {
                arguments_add_up(first.skip(1), second, before);
            }
        }
    }
}

/// The last `--config` decides, whatever came before it.
pub proof fn the_last_config_decides(first: Seq<Seq<char>>, path: Seq<char>, before: CliView)
    requires
        cli_of(first, before) is Some,
    ensures
        cli_of(first + seq!["--config"@, path], before) == Some(
            CliView { config_path: path, dry_run: cli_of(first, before)->0.dry_run },
        ),
{
    let second = seq!["--config"@, path];
    arguments_add_up(first, second, before);
    assert(second.skip(2).len() == 0);
    reveal_with_fuel(cli_of, 2);
}

/// A dry run that was asked for is not taken back by later arguments.
pub proof fn a_dry_run_is_not_taken_back(args: Seq<Seq<char>>, before: CliView)
    requires
        before.dry_run,
        cli_of(args, before) is Some,
    ensures
        cli_of(args, before)->0.dry_run,
    decreases args.len(),
{
    if args.len() > 0 {
        if args[0] == "--config"@ {
            a_dry_run_is_not_taken_back(
                args.skip(2),
                CliView { config_path: args[1], ..before },
            );
        } else {
            assert(CliView { dry_run: true, ..before } == before);
            a_dry_run_is_not_taken_back(args.skip(1), before);
        }
    }
}

/// The configuration of the service.
#[derive(Debug, PartialEq, Eq)]
pub struct Config {
    pub database_path: String,
    pub event_log: Option<String>,
    pub immich: ImmichConfig,
    pub users: Vec<UserConfig>,
    pub exclude_extensions: Vec<String>,
}

/// The server, the limits of delete propagation in days, and the intervals of the
/// workers in seconds.
#[derive(Debug, Clone, PartialEq, Eq)]
pub struct ImmichConfig {
    pub server_url: String,
    pub delete_threshold: i64,
    pub delete_max_age: i64,
    pub delete_poll_interval: u64,
    pub import_poll_interval: u64,
    pub upload_poll_interval: u64,
}

/// A user, the key to the API, and the folder to be kept in sync.
#[derive(Debug, Clone, PartialEq, Eq)]
pub struct UserConfig {
    pub user_id: String,
    pub user_key: String,
    pub path: String,
}

/// The place of the first user with an ID.
pub open spec fn user_at(users: Seq<UserConfig>, user_id: Seq<char>, i: int) -> bool {
    &&& 0 <= i < users.len()
    &&& users[i].user_id@ == user_id
    &&& forall|j: int| 0 <= j < i ==> (#[trigger] users[j]).user_id@ != user_id
}

/// Whether a user with an ID is configured.
pub open spec fn has_user(users: Seq<UserConfig>, user_id: Seq<char>) -> bool {
    exists|i: int| 0 <= i < users.len() && (#[trigger] users[i]).user_id@ == user_id
}

impl Config {
    /// The configuration that a parsed file stands for: its own values, with the excluded
    /// extensions without leading dots.
    pub fn from_file(parsed: Config) -> (r: Config)
        ensures
            r.database_path == parsed.database_path,
            r.event_log == parsed.event_log,
            r.immich == parsed.immich,
            r.users == parsed.users,
            r.exclude_extensions.len() == parsed.exclude_extensions.len(),
            forall|i: int|
                0 <= i < r.exclude_extensions.len() ==> (#[trigger] r.exclude_extensions@[i])@
                    == trim_start(parsed.exclude_extensions@[i]@, '.'),
    {
        let mut exclude_extensions: Vec<String> = Vec::new();
        let mut i: usize = 0;
        while i < parsed.exclude_extensions.len()
            invariant
                i <= parsed.exclude_extensions.len(),
                exclude_extensions.len() == i,
                forall|j: int|
                    0 <= j < i ==> (#[trigger] exclude_extensions@[j])@ == trim_start(
                        parsed.exclude_extensions@[j]@,
                        '.',
                    ),
            decreases parsed.exclude_extensions.len() - i,
        {
            exclude_extensions.push(without_start(parsed.exclude_extensions[i].as_str(), '.'));
            i = i + 1;
        }
        Config {
            database_path: parsed.database_path,
            event_log: parsed.event_log,
            immich: parsed.immich,
            users: parsed.users,
            exclude_extensions,
        }
    }

    /// Where the table of assets is kept.
    pub fn database_path(&self) -> (r: String)
        ensures
            r@ == self.database_path@,
    {
        self.database_path.clone()
    }

    /// The place of the first user with an ID.
    pub fn find_user(&self, user_id: &str) -> (r: Option<usize>)
        ensures
            r is Some <==> has_user(self.users@, user_id@),
            r is Some ==> user_at(self.users@, user_id@, r->0 as int),
    {
        let mut i: usize = 0;
        while i < self.users.len()
            invariant
                i <= self.users.len(),
                forall|j: int| 0 <= j < i ==> (#[trigger] self.users@[j]).user_id@ != user_id@,
            decreases self.users.len() - i,
        {
            if same_text(self.users[i].user_id.as_str(), user_id) {
                return Some(i);
            }
            i = i + 1;
        }
        None
    }
}

} // verus!
