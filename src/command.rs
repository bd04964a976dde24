//! The two-level command line: `<domain> <action> [argument]`.
use vstd::prelude::*;

verus! {

/// Actions of the `podcasts` domain.
#[derive(Clone, Copy, Debug, PartialEq, Eq, Structural)]
pub enum PodcastCommand {
    /// Refresh the podcast whose feed URL is the next argument.
    Refresh,
    /// `refresh` without a feed URL.
    RefreshMissingFeed,
    RefreshAll,
    List,
    Help,
    Unknown,
}

/// Actions of the `users` domain.
#[derive(Clone, Copy, Debug, PartialEq, Eq, Structural)]
pub enum UserCommand {
    Add,
    GenerateApiKey,
    Remove,
    Update,
    List,
    Help,
    Unknown,
}

/// What an argument vector asks for. The first argument, the program's name,
/// is skipped.
#[derive(Clone, Copy, Debug, PartialEq, Eq, Structural)]
pub enum Command {
    Help,
    Podcasts(PodcastCommand),
    Users(UserCommand),
    Debug,
    Unknown,
}

/// The argument at `i`, when there is one.
pub open spec fn arg(args: Seq<String>, i: int) -> Option<Seq<char>> {
    if 0 <= i < args.len() {
        Some(args[i]@)
    } else {
        None
    }
}

pub open spec fn is_help(t: Seq<char>) -> bool {
    t == "help"@ || t == "--help"@
}

pub open spec fn podcast_command_of(args: Seq<String>) -> PodcastCommand {
    match arg(args, 2) {
        None => PodcastCommand::Unknown,
        Some(t) => if t == "refresh"@ {
            if args.len() > 3 {
                PodcastCommand::Refresh
            } else {
                PodcastCommand::RefreshMissingFeed
            }
        } else if t == "refresh-all"@ {
            PodcastCommand::RefreshAll
        } else if t == "list"@ {
            PodcastCommand::List
        } else if is_help(t) {
            PodcastCommand::Help
        } else {
            PodcastCommand::Unknown
        },
    }
}

pub open spec fn user_command_of(args: Seq<String>) -> UserCommand {
    match arg(args, 2) {
        None => UserCommand::Unknown,
        Some(t) => if t == "add"@ {
            UserCommand::Add
        } else if t == "generate"@ {
            if arg(args, 3) == Some("apiKey"@) {
                UserCommand::GenerateApiKey
            } else {
                UserCommand::Unknown
            }
        } else if t == "remove"@ {
            UserCommand::Remove
        } else if t == "update"@ {
            UserCommand::Update
        } else if t == "list"@ {
            UserCommand::List
        } else if is_help(t) {
            UserCommand::Help
        } else {
            UserCommand::Unknown
        },
    }
}

pub open spec fn command_of(args: Seq<String>) -> Command {
    match arg(args, 1) {
        None => Command::Unknown,
        Some(t) => if is_help(t) {
            Command::Help
        } else if t == "podcasts"@ {
            Command::Podcasts(podcast_command_of(args))
        } else if t == "users"@ {
            Command::Users(user_command_of(args))
        } else if t == "debug"@ {
            Command::Debug
        } else {
            Command::Unknown
        },
    }
}

fn arg_is(args: &Vec<String>, i: usize, lit: &str) -> (r: bool)
    ensures
        r == (arg(args@, i as int) == Some(lit@)),
{
    if i < args.len() {
        crate::text::text_is(args[i].as_str(), lit)
    } else {
        false
    }
}

fn arg_is_help(args: &Vec<String>, i: usize) -> (r: bool)
    ensures
        r == (arg(args@, i as int) is Some && is_help(arg(args@, i as int)->0)),
{
    arg_is(args, i, "help") || arg_is(args, i, "--help")
}

/// Routes an argument vector to a domain and an action.
pub fn parse_command(args: &Vec<String>) -> (r: Command)
    ensures
        r == command_of(args@),
{
    if args.len() < 2 {
        Command::Unknown
    } else if arg_is_help(args, 1) {
        Command::Help
    } else if arg_is(args, 1, "podcasts") {
        let c = if args.len() < 3 {
            PodcastCommand::Unknown
        } else if arg_is(args, 2, "refresh") {
            if args.len() > 3 {
                PodcastCommand::Refresh
            } else {
                PodcastCommand::RefreshMissingFeed
            }
        } else if arg_is(args, 2, "refresh-all") {
            PodcastCommand::RefreshAll
        } else if arg_is(args, 2, "list") {
            PodcastCommand::List
        } else if arg_is_help(args, 2) {
            PodcastCommand::Help
        } else {
            PodcastCommand::Unknown
        };
        Command::Podcasts(c)
    } else if arg_is(args, 1, "users") {
        let c = if args.len() < 3 {
            UserCommand::Unknown
        } else if arg_is(args, 2, "add") {
            UserCommand::Add
        } else if arg_is(args, 2, "generate") {
            if arg_is(args, 3, "apiKey") {
                UserCommand::GenerateApiKey
            } else {
                UserCommand::Unknown
            }
        } else if arg_is(args, 2, "remove") {
            UserCommand::Remove
        } else if arg_is(args, 2, "update") {
            UserCommand::Update
        } else if arg_is(args, 2, "list") {
            UserCommand::List
        } else if arg_is_help(args, 2) {
            UserCommand::Help
        } else {
            UserCommand::Unknown
        };
        Command::Users(c)
    } else if arg_is(args, 1, "debug") {
        Command::Debug
    } else {
        Command::Unknown
    }
}

} // verus!
