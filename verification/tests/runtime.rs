use std::collections::HashMap;

use guardian_agent_linux::runtime::{new_runtime, LinuxAgent};
use guardian_agent_linux::text::{decimal_string, is_blank};

#[test]
fn runtime_lists_every_account_once() {
    let agent = new_runtime();
    let mut users = HashMap::new();
    users.insert(1000u32, "alice".to_string());
    users.insert(1001u32, "bob".to_string());
    let mut list: Vec<(u32, String)> =
        agent.list_users(&users).into_iter().map(|u| (u.uid, u.username)).collect();
    list.sort();
    assert_eq!(list, vec![(1000, "alice".to_string()), (1001, "bob".to_string())]);
    assert!(LinuxAgent.list_users(&HashMap::new()).is_empty());
}

#[test]
fn startup_details_name_the_source() {
    let details = LinuxAgent::default().startup_details(Some("laptop"));
    assert_eq!(details.source, "agent_service");
    assert_eq!(details.hostname.as_deref(), Some("laptop"));
    assert!(LinuxAgent.startup_details(None).hostname.is_none());
}

#[test]
fn text_helpers() {
    assert_eq!(decimal_string(0), "0");
    assert_eq!(decimal_string(7), "7");
    assert_eq!(decimal_string(86400), "86400");
    assert_eq!(decimal_string(u64::MAX), u64::MAX.to_string());
    assert!(is_blank(""));
    assert!(is_blank(" \t\r\n\u{a0}\u{3000}"));
    assert!(!is_blank(" x "));
}
