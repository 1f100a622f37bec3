//! The command line, once parsed: which action a subcommand asks for.

use vstd::prelude::*;
use crate::repo::{EnvSpecifier, EnvStore, Runtime, SharedResources};
use crate::usecase::{action_rule, Action, Handled};

verus! {

/// The ways to name an environment on the command line. At most one is
/// meant to be given; of several, the name counts before the path, and the
/// path before the identifier.
#[derive(Debug, PartialEq, Eq)]
pub struct Args {
    pub name: Option<String>,
    pub path: Option<String>,
    pub uuid: Option<u128>,
}

#[derive(Debug, PartialEq, Eq)]
pub enum SubCommand {
    Init,
    Enter(Args),
    List,
    Kill(Args),
}

/// The specifier that the arguments give, if any.
pub open spec fn specifier_of(args: Args) -> Option<EnvSpecifier> {
    match args.name {
        Some(name) => Some(EnvSpecifier::Name(name)),
        None => match args.path {
            Some(path) => Some(EnvSpecifier::Path(path)),
            None => match args.uuid {
                Some(uuid) => Some(EnvSpecifier::Uuid(uuid)),
                None => None,
            },
        },
    }
}

/// The action that a subcommand asks for.
pub open spec fn action_of(sub_command: SubCommand) -> Action {
    match sub_command {
        SubCommand::Init => Action::Init,
        SubCommand::Enter(args) => Action::Enter(specifier_of(args)),
        SubCommand::List => Action::List,
        SubCommand::Kill(args) => Action::Kill(specifier_of(args)),
    }
}

fn specifier_from(args: Args) -> (r: Option<EnvSpecifier>)
    ensures
        r == specifier_of(args),
{
    if let Some(name) = args.name {
        Some(EnvSpecifier::Name(name))
    } else if let Some(path) = args.path {
        Some(EnvSpecifier::Path(path))
    } else if let Some(uuid) = args.uuid {
        Some(EnvSpecifier::Uuid(uuid))
    } else {
        None
    }
}

pub fn cli_subcommand_to_usecase_action(sub_command: SubCommand) -> (r: Action)
    ensures
        r == action_of(sub_command),
{
    match sub_command {
        SubCommand::Init => Action::Init,
        SubCommand::Enter(args) => Action::Enter(specifier_from(args)),
        SubCommand::List => Action::List,
        SubCommand::Kill(args) => Action::Kill(specifier_from(args)),
    }
}

/// Carries out what the subcommand asks for, from the directory
/// `current_path`, and hands runtime and registry back with the outcome.
pub fn handle<R: Runtime, S: EnvStore>(
    sub_command: SubCommand,
    runtime: R,
    env_store: S,
    current_path: &str,
    shared_resources: &SharedResources,
) -> (r: Handled<R, S>)
    ensures
        action_rule(
            action_of(sub_command),
            env_store.reliable(),
            env_store.records(),
            r.env_store.records(),
            runtime.calls(),
            r.runtime.calls(),
            current_path@,
            r.outcome,
        ),
{
    let action = cli_subcommand_to_usecase_action(sub_command);
    crate::usecase::handle(action, runtime, env_store, current_path, shared_resources)
}

} // verus!
