use alfrusco::config::TestingProvider;
use alfrusco::internal_handlers::{
    create_workflow_command_suggestions, execute_workflow_command, log_path,
    parse_workflow_command, query_from_args, CommandOutcome, OpenTarget, WorkflowCommand,
};
use alfrusco::{handle_workflow_dir_open, Item, Workflow};

fn test_workflow() -> Workflow {
    Workflow::new(TestingProvider("/tmp/wf".to_string()).testing_config())
}

#[test]
fn test_parse_workflow_command() {
    assert_eq!(
        parse_workflow_command("workflow:cache"),
        WorkflowCommand::OpenCache
    );
    assert_eq!(
        parse_workflow_command("workflow:data"),
        WorkflowCommand::OpenData
    );
    assert_eq!(
        parse_workflow_command("workflow:openlog"),
        WorkflowCommand::OpenLog
    );
    assert_eq!(
        parse_workflow_command("work"),
        WorkflowCommand::ShowSuggestions
    );
    assert_eq!(
        parse_workflow_command("workflow"),
        WorkflowCommand::ShowSuggestions
    );
    assert_eq!(
        parse_workflow_command("something else"),
        WorkflowCommand::NoCommand
    );
    assert_eq!(
        parse_workflow_command("  workflow:cache  "),
        WorkflowCommand::OpenCache
    );
}

#[test]
fn test_create_workflow_command_suggestions() {
    let items = create_workflow_command_suggestions();
    assert_eq!(items.len(), 3);
    assert_eq!(items[0].title, "Open the workflow data directory");
    assert_eq!(items[1].title, "Open the workflow cache directory");
    assert_eq!(items[2].title, "Open the workflow log file");
    assert_eq!(items[0].subtitle.as_deref().unwrap(), "workflow:data");
    assert_eq!(items[1].subtitle.as_deref().unwrap(), "workflow:cache");
    assert_eq!(items[2].subtitle.as_deref().unwrap(), "workflow:openlog");
    assert_eq!(items[0].valid, Some(false));
    assert_eq!(items[1].valid, Some(false));
    assert_eq!(items[2].valid, Some(false));
    assert!(items[0].sticky);
    assert!(items[1].sticky);
    assert!(items[2].sticky);
}

#[test]
fn test_execute_workflow_command_show_suggestions() {
    let mut workflow = test_workflow();
    workflow.items(vec![Item::new("Existing")]);
    let outcome = execute_workflow_command(WorkflowCommand::ShowSuggestions, &mut workflow);
    assert_eq!(outcome, CommandOutcome::Suggested);
    assert_eq!(workflow.response.items.len(), 4);
    assert_eq!(workflow.response.items[0].title, "Existing");
}

#[test]
fn test_execute_workflow_command_none() {
    let mut workflow = test_workflow();
    let outcome = execute_workflow_command(WorkflowCommand::NoCommand, &mut workflow);
    assert_eq!(outcome, CommandOutcome::Unhandled);
    assert_eq!(workflow.response.items.len(), 0);
}

#[test]
fn test_handle_workflow_dir_open_no_args() {
    let mut workflow = test_workflow();
    assert_eq!(handle_workflow_dir_open(None, &mut workflow), CommandOutcome::Unhandled);
    assert_eq!(
        handle_workflow_dir_open(Some(" workflow:data"), &mut workflow),
        CommandOutcome::Open(OpenTarget::Data)
    );
}

#[test]
fn test_extract_query_from_args_no_args() {
    let args = vec!["prog".to_string()];
    assert_eq!(query_from_args(&args), None);
    let args = vec!["prog".to_string(), "a".to_string(), "last".to_string()];
    assert_eq!(query_from_args(&args), Some(&"last".to_string()));
}

#[test]
fn log_path_prefers_log_variable() {
    assert_eq!(log_path(Some("/l.log"), Some("/c")), Some("/l.log".to_string()));
    assert_eq!(log_path(None, Some("/c")), Some("/c/workflow.log".to_string()));
    assert_eq!(log_path(None, None), None);
}
