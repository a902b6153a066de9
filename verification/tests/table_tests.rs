use reaper_core::platform::ProcessStatus;
use reaper_core::process_table::{
    get_child_processes, get_unkillable_processes, is_process_responsive,
    parse_environment_entry, ProcessEntry,
};

fn entry(pid: u32, parent_pid: Option<u32>, status: ProcessStatus) -> ProcessEntry {
    ProcessEntry { pid, parent_pid, status }
}

#[test]
fn test_responsive_status() {
    assert!(is_process_responsive(ProcessStatus::Running));
    assert!(is_process_responsive(ProcessStatus::Zombie));
    assert!(is_process_responsive(ProcessStatus::Unkillable));
    assert!(!is_process_responsive(ProcessStatus::UninterruptibleSleep));
}

#[test]
fn test_children_and_unkillable_processes() {
    let table = vec![
        entry(1, None, ProcessStatus::Running),
        entry(10, Some(1), ProcessStatus::Sleeping),
        entry(11, Some(10), ProcessStatus::UninterruptibleSleep),
        entry(12, Some(1), ProcessStatus::Unkillable),
        entry(13, Some(1), ProcessStatus::Zombie),
    ];
    assert_eq!(get_child_processes(&table, 1), vec![10, 12, 13]);
    assert_eq!(get_child_processes(&table, 10), vec![11]);
    assert!(get_child_processes(&table, 11).is_empty());
    assert!(get_child_processes(&vec![], 1).is_empty());
    assert_eq!(get_unkillable_processes(&table), vec![11, 12]);
}

#[test]
fn test_environment_entry() {
    assert_eq!(parse_environment_entry("PATH=/bin"), ("PATH".to_string(), "/bin".to_string()));
    assert_eq!(parse_environment_entry("A=b=c"), ("A".to_string(), "b=c".to_string()));
    assert_eq!(parse_environment_entry("EMPTY="), ("EMPTY".to_string(), "".to_string()));
    assert_eq!(parse_environment_entry("=x"), ("".to_string(), "x".to_string()));
    assert_eq!(parse_environment_entry("novalue"), ("novalue".to_string(), "".to_string()));
    assert_eq!(parse_environment_entry(""), ("".to_string(), "".to_string()));
}
