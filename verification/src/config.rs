//! Merging command-line flags and environment defaults into one configuration.

use crate::failure::Failure;
use crate::input::{choose_system_source, preferred, texts_view};
use crate::message::text_view;
use vstd::prelude::*;
use vstd::string::StringExecFns;

verus! {

/// What the command line gave.
#[derive(Clone, Debug, PartialEq, Eq)]
pub struct Args {
    /// The system prompt: text, a path, or the standard-input marker.
    pub system: Option<String>,
    /// The id of the conversation to continue.
    pub conversation: Option<i64>,
    /// Whether to open a new conversation.
    pub new: bool,
    /// The path of the history file.
    pub history_file_path: Option<String>,
    /// The fragments of the message, each text, a path, or the marker.
    pub message: Vec<String>,
}

/// What the environment gave.
#[derive(Clone, Debug, PartialEq, Eq)]
pub struct Environment {
    /// The default path of the history file.
    pub history_file: Option<String>,
    /// The user's home directory.
    pub home: String,
    /// The default system prompt.
    pub system_message: Option<String>,
}

/// The effective configuration of a run.
#[derive(Clone, Debug, PartialEq, Eq)]
pub struct Config {
    pub history_path: String,
    pub system: Option<String>,
    pub conversation: Option<i64>,
    pub new: bool,
    pub messages: Vec<String>,
}

/// What a `Config` holds.
pub struct ConfigView {
    pub history_path: Seq<char>,
    pub system: Option<Seq<char>>,
    pub conversation: Option<i64>,
    pub new: bool,
    pub messages: Seq<Seq<char>>,
}

impl View for Config {
    type V = ConfigView;

    open spec fn view(&self) -> ConfigView {
        ConfigView {
            history_path: self.history_path@,
            system: text_view(self.system),
            conversation: self.conversation,
            new: self.new,
            messages: texts_view(self.messages@),
        }
    }
}

/// The history file's place below the home directory.
pub open spec fn home_history_path(home: Seq<char>) -> Seq<char> {
    home + "/.hlpr/history.json"@
}

/// The history path in effect: the flag, else the environment's, else the
/// one below the home directory.
pub open spec fn effective_history_path(
    flag: Option<Seq<char>>,
    default: Option<Seq<char>>,
    home: Seq<char>,
) -> Seq<char> {
    match flag {
        Some(path) => path,
        None => match default {
            Some(path) => path,
            None => home_history_path(home),
        },
    }
}

/// Whether the flags ask both for a new conversation and for an existing one.
pub open spec fn conflicting(args: Args) -> bool {
    args.new && args.conversation is Some
}

/// The configuration that flags and environment come to: each flag wins
/// over the environment's default.
pub open spec fn effective(args: Args, env: Environment) -> ConfigView {
    ConfigView {
        history_path: effective_history_path(
            text_view(args.history_file_path),
            text_view(env.history_file),
            env.home@,
        ),
        system: preferred(text_view(args.system), text_view(env.system_message)),
        conversation: args.conversation,
        new: args.new,
        messages: texts_view(args.message@),
    }
}

/// Computes the history path in effect.
pub fn history_path(flag: Option<String>, default: Option<String>, home: String) -> (path: String)
    ensures
        path@ == effective_history_path(text_view(flag), text_view(default), home@),
{
    match flag {
        Some(path) => path,
        None => match default {
            Some(path) => path,
            None => home.concat("/.hlpr/history.json"),
        },
    }
}

/// Merges flags and environment. Flags win over the environment. Asking for
/// a new conversation and for an existing one at once is refused.
pub fn resolve(args: Args, env: Environment) -> (result: Result<Config, Failure>)
    ensures
        match result {
            Ok(config) => !conflicting(args) && config@ == effective(args, env),
            Err(e) => conflicting(args) && e == Failure::ConflictingSelection,
        },
{
    if args.new && args.conversation.is_some() {
        return Err(Failure::ConflictingSelection);
    }
    Ok(
        Config {
            history_path: history_path(args.history_file_path, env.history_file, env.home),
            system: choose_system_source(args.system, env.system_message),
            conversation: args.conversation,
            new: args.new,
            messages: args.message,
        },
    )
}

} // verus!
