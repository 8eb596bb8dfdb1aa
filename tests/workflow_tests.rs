use alfrusco::config::TestingProvider;
use alfrusco::runnable::finish_run;
use alfrusco::sort_and_filter::apply_filter;
use alfrusco::{Error, Item, Workflow};

fn test_workflow() -> Workflow {
    Workflow::new(TestingProvider("/tmp/wf".to_string()).testing_config())
}

#[test]
fn test_new_workflow() {
    let workflow = test_workflow();
    assert_eq!(workflow.response.items.len(), 0);
    assert_eq!(workflow.keyword, None);
    assert!(!workflow.sort_and_filter_results);
}

#[test]
fn test_prepend_item() {
    let mut workflow = test_workflow();
    workflow.items(vec![Item::new("Initial Item")]);
    workflow.prepend_item(Item::new("Prepended Item"));
    assert_eq!(workflow.response.items.len(), 2);
    assert_eq!(workflow.response.items[0].title, "Prepended Item");
    assert_eq!(workflow.response.items[1].title, "Initial Item");
}

#[test]
fn workflow_test_prepend_items() {
    let mut workflow = test_workflow();
    workflow.items(vec![
        Item::new("First Item"),
        Item::new("Second Item"),
        Item::new("Third Item"),
    ]);
    workflow.prepend_items(vec![
        Item::new("Prepended Item 1"),
        Item::new("Prepended Item 2"),
        Item::new("Prepended Item 3"),
    ]);
    assert_eq!(workflow.response.items.len(), 6);
    assert_eq!(workflow.response.items[0].title, "Prepended Item 1");
    assert_eq!(workflow.response.items[1].title, "Prepended Item 2");
    assert_eq!(workflow.response.items[3].title, "First Item");
    assert_eq!(workflow.response.items[5].title, "Third Item");
}

#[test]
fn test_append_item() {
    let mut workflow = test_workflow();
    workflow.items(vec![Item::new("Initial Item")]);
    workflow.append_item(Item::new("Appended Item"));
    assert_eq!(workflow.response.items.len(), 2);
    assert_eq!(workflow.response.items[0].title, "Initial Item");
    assert_eq!(workflow.response.items[1].title, "Appended Item");
}

#[test]
fn workflow_test_append_items() {
    let mut workflow = test_workflow();
    workflow.items(vec![
        Item::new("First Item"),
        Item::new("Second Item"),
        Item::new("Third Item"),
    ]);
    workflow.append_items(vec![
        Item::new("Appended Item 1"),
        Item::new("Appended Item 2"),
        Item::new("Appended Item 3"),
    ]);
    assert_eq!(workflow.response.items.len(), 6);
    assert_eq!(workflow.response.items[0].title, "First Item");
    assert_eq!(workflow.response.items[3].title, "Appended Item 1");
    assert_eq!(workflow.response.items[5].title, "Appended Item 3");
}

#[test]
fn workflow_dirs() {
    let workflow = test_workflow();
    assert_eq!(workflow.cache_dir(), "/tmp/wf/workflow_cache");
    assert_eq!(workflow.data_dir(), "/tmp/wf/workflow_data");
    assert_eq!(workflow.jobs_dir(), "/tmp/wf/workflow_cache/jobs");
}

#[test]
fn workflow_skip_knowledge_and_keyword() {
    let mut workflow = test_workflow();
    workflow.skip_knowledge(true);
    workflow.set_filter_keyword("app".to_string());
    assert_eq!(workflow.response.skip_knowledge, Some(true));
    assert_eq!(workflow.keyword, Some("app".to_string()));
    assert!(workflow.sort_and_filter_results);
}

#[test]
fn test_finalize_workflow_without_filtering() {
    let mut workflow = test_workflow();
    workflow.items(vec![Item::new("Banana"), Item::new("Apple")]);
    apply_filter(&mut workflow);
    assert_eq!(workflow.response.items.len(), 2);
    assert_eq!(workflow.response.items[0].title, "Banana");
}

#[test]
fn test_finalize_workflow_with_filtering() {
    let mut workflow = test_workflow();
    workflow.items(vec![
        Item::new("Apple").subtitle("Fruit"),
        Item::new("Carrot").subtitle("Vegetable"),
    ]);
    workflow.set_filter_keyword("carrot".to_string());
    apply_filter(&mut workflow);
    assert_eq!(workflow.response.items.len(), 1);
    assert_eq!(workflow.response.items[0].title, "Carrot");
}

#[test]
fn finish_run_prepends_error_item() {
    let mut workflow = test_workflow();
    workflow.items(vec![Item::new("Result")]);
    finish_run(&mut workflow, Err(Error::Workflow("boom".to_string())));
    assert_eq!(workflow.response.items.len(), 2);
    assert_eq!(workflow.response.items[0].title, "An error occurred: Workflow Error: boom");
    assert_eq!(workflow.response.items[1].title, "Result");
    let mut workflow = test_workflow();
    finish_run::<Error>(&mut workflow, Ok(()));
    assert_eq!(workflow.response.items.len(), 0);
}
