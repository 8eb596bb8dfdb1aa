//! Queries that the library answers itself: opening the workflow's
//! directories and log, and suggesting those commands.
use vstd::prelude::*;

use crate::chars::{chars_of, is_prefix, opt_view, push_str, starts_with, trim, trimmed};
use crate::{Item, Workflow};

verus! {

/// A command that a query can name.
#[derive(Debug, Clone, Copy, PartialEq, Eq, Structural)]
pub enum WorkflowCommand {
    OpenCache,
    OpenData,
    OpenLog,
    ShowSuggestions,
    NoCommand,
}

/// What a place to open is.
#[derive(Debug, Clone, Copy, PartialEq, Eq, Structural)]
pub enum OpenTarget {
    Cache,
    Data,
    Log,
}

/// What the handling of a query leaves to do.
#[derive(Debug, Clone, Copy, PartialEq, Eq, Structural)]
pub enum CommandOutcome {
    /// Open a place; the invocation ends.
    Open(OpenTarget),
    /// The suggestions were added; the invocation goes on.
    Suggested,
    /// The query names no command.
    Unhandled,
}

/// The command that the trimmed query `t` names: one of the three exact
/// commands, else suggestions for anything starting with `work`.
pub open spec fn command_of(t: Seq<char>) -> WorkflowCommand {
    if t == "workflow:cache"@ {
        WorkflowCommand::OpenCache
    } else if t == "workflow:data"@ {
        WorkflowCommand::OpenData
    } else if t == "workflow:openlog"@ {
        WorkflowCommand::OpenLog
    } else if is_prefix("work"@, t) {
        WorkflowCommand::ShowSuggestions
    } else {
        WorkflowCommand::NoCommand
    }
}

/// The command that the trimmed query `t` names.
pub fn command_of_trimmed(t: &str) -> (r: WorkflowCommand)
    ensures
        r == command_of(t@),
{
    let s = t.to_owned();
    if s == "workflow:cache".to_owned() {
        WorkflowCommand::OpenCache
    } else if s == "workflow:data".to_owned() {
        WorkflowCommand::OpenData
    } else if s == "workflow:openlog".to_owned() {
        WorkflowCommand::OpenLog
    } else if starts_with(&chars_of(t), &chars_of("work")) {
        WorkflowCommand::ShowSuggestions
    } else {
        WorkflowCommand::NoCommand
    }
}

/// The command that `query` names, once trimmed.
pub fn parse_workflow_command(query: &str) -> (r: WorkflowCommand)
    ensures
        r == command_of(trimmed(query@)),
{
    command_of_trimmed(trim(query))
}

/// `item` suggests the command `cmd` with title `title`: it completes to
/// the command, cannot be run, and stays in front.
pub open spec fn is_suggestion(item: Item, title: Seq<char>, cmd: Seq<char>) -> bool {
    &&& item.title@ == title
    &&& opt_view(item.subtitle) == Some(cmd)
    &&& opt_view(item.autocomplete) == Some(cmd)
    &&& item.valid == Some(false)
    &&& item.sticky
}

fn suggestion(title: &str, cmd: &str) -> (r: Item)
    ensures
        is_suggestion(r, title@, cmd@),
{
    Item::new(title).subtitle(cmd).autocomplete(cmd).valid(false).sticky(true)
}

/// The items that suggest the data, cache and log commands.
pub fn create_workflow_command_suggestions() -> (r: Vec<Item>)
    ensures
        r@.len() == 3,
        is_suggestion(r@[0], "Open the workflow data directory"@, "workflow:data"@),
        is_suggestion(r@[1], "Open the workflow cache directory"@, "workflow:cache"@),
        is_suggestion(r@[2], "Open the workflow log file"@, "workflow:openlog"@),
{
    let mut r: Vec<Item> = Vec::new();
    r.push(suggestion("Open the workflow data directory", "workflow:data"));
    r.push(suggestion("Open the workflow cache directory", "workflow:cache"));
    r.push(suggestion("Open the workflow log file", "workflow:openlog"));
    r
}

/// What is left to do once `command` is carried out.
pub open spec fn outcome_of(command: WorkflowCommand) -> CommandOutcome {
    match command {
        WorkflowCommand::OpenCache => CommandOutcome::Open(OpenTarget::Cache),
        WorkflowCommand::OpenData => CommandOutcome::Open(OpenTarget::Data),
        WorkflowCommand::OpenLog => CommandOutcome::Open(OpenTarget::Log),
        WorkflowCommand::ShowSuggestions => CommandOutcome::Suggested,
        WorkflowCommand::NoCommand => CommandOutcome::Unhandled,
    }
}

/// Carries out `command`: the suggestions are added after the items.
pub fn execute_workflow_command(command: WorkflowCommand, workflow: &mut Workflow) -> (r: CommandOutcome)
    ensures
        r == outcome_of(command),
        command == WorkflowCommand::ShowSuggestions ==> {
            &&& final(workflow).response.items@.len() == old(workflow).response.items@.len() + 3
            &&& final(workflow).response.items@.take(old(workflow).response.items@.len() as int) == old(workflow).response.items@
            &&& is_suggestion(
                final(workflow).response.items@[old(workflow).response.items@.len() as int],
                "Open the workflow data directory"@,
                "workflow:data"@,
            )
            &&& is_suggestion(
                final(workflow).response.items@[old(workflow).response.items@.len() as int + 1],
                "Open the workflow cache directory"@,
                "workflow:cache"@,
            )
            &&& is_suggestion(
                final(workflow).response.items@[old(workflow).response.items@.len() as int + 2],
                "Open the workflow log file"@,
                "workflow:openlog"@,
            )
            &&& *final(workflow) == (Workflow { response: final(workflow).response, ..*old(workflow) })
        },
        command != WorkflowCommand::ShowSuggestions ==> *final(workflow) == *old(workflow),
{
    match command {
        WorkflowCommand::OpenCache => CommandOutcome::Open(OpenTarget::Cache),
        WorkflowCommand::OpenData => CommandOutcome::Open(OpenTarget::Data),
        WorkflowCommand::OpenLog => CommandOutcome::Open(OpenTarget::Log),
        WorkflowCommand::ShowSuggestions => {
            workflow.append_items(create_workflow_command_suggestions());
            assert(workflow.response.items@.take(old(workflow).response.items@.len() as int) =~= old(workflow).response.items@);
            CommandOutcome::Suggested
        },
        WorkflowCommand::NoCommand => CommandOutcome::Unhandled,
    }
}

/// Handles `query`, the last command-line argument where there is one.
pub fn handle_workflow_dir_open(query: Option<&str>, workflow: &mut Workflow) -> (r: CommandOutcome)
    ensures
        query is None ==> r == CommandOutcome::Unhandled && *final(workflow) == *old(workflow),
        query matches Some(q) ==> r == outcome_of(command_of(trimmed(q@))),
{
    match query {
        Some(q) => execute_workflow_command(parse_workflow_command(q), workflow),
        None => CommandOutcome::Unhandled,
    }
}

/// The query in the command-line arguments `args`: the last one, where
/// there is one besides the program.
pub fn query_from_args(args: &Vec<String>) -> (r: Option<&String>)
    ensures
        args@.len() > 1 ==> r == Some(&args@.last()),
        args@.len() <= 1 ==> r is None,
{
    if args.len() > 1 {
        Some(&args[args.len() - 1])
    } else {
        None
    }
}

/// The log file to open: `log_var`, the value of `alfred_workflow_log`,
/// where set, else `workflow.log` in the cache directory `cache_var`.
pub fn log_path(log_var: Option<&str>, cache_var: Option<&str>) -> (r: Option<String>)
    ensures
        opt_view(r) == match log_var {
            Some(l) => Some(l@),
            None => match cache_var {
                Some(c) => Some(c@ + "/workflow.log"@),
                None => None,
            },
        },
{
    match log_var {
        Some(l) => Some(l.to_owned()),
        None => match cache_var {
            Some(c) => {
                let mut p = c.to_owned();
                push_str(&mut p, "/workflow.log");
                Some(p)
            },
            None => None,
        },
    }
}

} // verus!
