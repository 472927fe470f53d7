use blockless_rust_sdk::http::BlocklessAPI;
use blockless_rust_sdk::registry::Task;
use blockless_rust_sdk::safety::SafeData;

#[test]
fn test_memory_safety() {
    let mut safe_data = SafeData::new();
    safe_data.update_data(42);
    let value = safe_data.read_data();
    assert_eq!(value, 42);
}

#[test]
fn fresh_value_is_zero() {
    assert_eq!(SafeData::new().read_data(), 0);
}

#[test]
fn last_update_wins() {
    let mut safe_data = SafeData::new();
    safe_data.update_data(1);
    safe_data.update_data(-7);
    assert_eq!(safe_data.read_data(), -7);
}

#[test]
fn endpoint_address_joins_base_and_endpoint() {
    let api = BlocklessAPI::new("https://example.com");
    assert_eq!(api.url("endpoint"), "https://example.com/endpoint");
    assert_eq!(api.url("task/completed"), "https://example.com/task/completed");
    assert_eq!(api.url(""), "https://example.com/");
    assert_eq!(BlocklessAPI::new("").url("x"), "/x");
}

#[test]
fn new_task_is_not_completed() {
    let task = Task::new("Implement TaskManager", 5);
    assert_eq!(task.description, "Implement TaskManager");
    assert_eq!(task.priority, 5);
    assert!(!task.completed);
}

#[test]
fn completing_a_task_keeps_the_rest() {
    let mut task = Task::new("Submit project", 4);
    task.complete();
    assert!(task.completed);
    assert_eq!(task.description, "Submit project");
    assert_eq!(task.priority, 4);
    task.complete();
    assert!(task.completed);
}

#[test]
fn update_replaces_what_is_given() {
    let mut task = Task::new("Write documentation", 3);
    task.update(Some("Write detailed documentation"), Some(4));
    assert_eq!(task.description, "Write detailed documentation");
    assert_eq!(task.priority, 4);
    task.update(None, Some(9));
    assert_eq!(task.description, "Write detailed documentation");
    assert_eq!(task.priority, 9);
    task.update(Some("Done"), None);
    assert_eq!(task.description, "Done");
    assert_eq!(task.priority, 9);
    task.complete();
    task.update(None, None);
    assert_eq!(task.description, "Done");
    assert_eq!(task.priority, 9);
    assert!(task.completed);
}
