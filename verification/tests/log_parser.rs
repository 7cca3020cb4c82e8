use eterpix_vrc_uploader::log_parser::{
    is_log_file_name, select_latest_log, LogEvent, LogFileEntry, VRChatLogParser};

fn joined(w: &str, i: &str) -> (String, String) {
    (w.to_string(), i.to_string())
}

fn describe(events: &[LogEvent]) -> Vec<(bool, String, String)> {
    events
        .iter()
        .map(|e| match e {
            LogEvent::WorldJoined { world_id, instance_id } => (true, world_id.clone(), instance_id.clone()),
            LogEvent::WorldLeft { world_id, instance_id } => (false, world_id.clone(), instance_id.clone()),
        })
        .collect()
}

#[test]
fn join_and_leave_are_reported() {
    let mut p = VRChatLogParser::new("/logs".to_string());
    p.switch_log_file("/logs/output_log_1.txt".to_string());
    let content = "2024.01.01 00:00:00 Log - [Behaviour] Joining wrld_abc-123:456~private\r\n\
                   other line\n\
                   2024.01.01 00:10:00 Log - [Behaviour] Leaving wrld_abc-123\n";
    let events = describe(&p.parse_content(content));
    assert_eq!(
        events,
        vec![
            (true, "wrld_abc-123".to_string(), "456".to_string()),
            (false, "wrld_abc-123".to_string(), "456".to_string()),
        ]
    );
    assert_eq!(p.current_world, None);
    assert_eq!(p.last_position, content.len() as u64);
}

#[test]
fn leave_without_world_reports_nothing() {
    let mut p = VRChatLogParser::new("/logs".to_string());
    let events = p.parse_content("Leaving wrld_x\n");
    assert!(events.is_empty());
    assert_eq!(p.current_world, None);
}

#[test]
fn second_join_replaces_world() {
    let mut p = VRChatLogParser::new("/logs".to_string());
    let events = describe(&p.parse_content("Joining wrld_a:1\nJoining wrld_b:22\nLeaving wrld_b\n"));
    assert_eq!(
        events,
        vec![
            (true, "wrld_a".to_string(), "1".to_string()),
            (true, "wrld_b".to_string(), "22".to_string()),
            (false, "wrld_b".to_string(), "22".to_string()),
        ]
    );
}

#[test]
fn only_new_lines_are_read() {
    let mut p = VRChatLogParser::new("/logs".to_string());
    let first = "Joining wrld_a:1\n";
    let e1 = p.parse_content(first);
    assert_eq!(e1.len(), 1);
    assert_eq!(p.current_world, Some(joined("wrld_a", "1")));
    // nothing new
    assert!(p.parse_content(first).is_empty());
    let both = format!("{}{}", first, "Leaving wrld_a\n");
    let e2 = describe(&p.parse_content(&both));
    assert_eq!(e2, vec![(false, "wrld_a".to_string(), "1".to_string())]);
    assert_eq!(p.last_position, both.len() as u64);
}

#[test]
fn incremental_reading_matches_whole_reading() {
    let whole = "Joining wrld_a:1\nx\nLeaving wrld_a\nJoining wrld_b:2\n";
    let mut all_at_once = VRChatLogParser::new(String::new());
    let reference = describe(&all_at_once.parse_content(whole));
    let mut polled = VRChatLogParser::new(String::new());
    let mut events = describe(&polled.parse_content(&whole[..17]));
    events.extend(describe(&polled.parse_content(whole)));
    assert_eq!(events, reference);
    assert_eq!(polled.current_world, all_at_once.current_world);
}

#[test]
fn switching_file_restarts_position() {
    let mut p = VRChatLogParser::new("/logs".to_string());
    p.switch_log_file("a.txt".to_string());
    p.parse_content("Joining wrld_a:1\n");
    assert!(p.last_position > 0);
    p.switch_log_file("a.txt".to_string());
    assert!(p.last_position > 0);
    p.switch_log_file("b.txt".to_string());
    assert_eq!(p.last_position, 0);
    assert_eq!(p.current_log_file, Some("b.txt".to_string()));
    // the world is kept across files
    assert_eq!(p.current_world, Some(joined("wrld_a", "1")));
}

#[test]
fn shrunk_file_yields_nothing() {
    let mut p = VRChatLogParser::new(String::new());
    p.parse_content("Joining wrld_a:1\nmore text here\n");
    let pos = p.last_position;
    assert!(p.parse_content("short\n").is_empty());
    assert_eq!(p.last_position, pos);
}

#[test]
fn join_needs_digits_and_id() {
    let mut p = VRChatLogParser::new(String::new());
    assert!(p.parse_content("Joining wrld_:1\nJoining wrld_a:\nJoining world_a:1\n").is_empty());
    let mut q = VRChatLogParser::new(String::new());
    let e = describe(&q.parse_content("Joining wrld_a:1\nxx Joining wrld_Q9-z:0042 tail\n"));
    assert_eq!(e[1], (true, "wrld_Q9-z".to_string(), "0042".to_string()));
}

#[test]
fn log_file_names() {
    assert!(is_log_file_name("output_log_2024-01-01_00-00-00.txt"));
    assert!(is_log_file_name("output_log_.txt"));
    assert!(!is_log_file_name("output_log.txt"));
    assert!(!is_log_file_name("output_log_1.log"));
    assert!(!is_log_file_name("x_output_log_1.txt"));
    assert!(!is_log_file_name(""));
}

#[test]
fn latest_log_is_newest_then_last_listed() {
    let e = |n: &str, m: i128| LogFileEntry { name: n.to_string(), modified: m };
    let entries = vec![
        e("output_log_a.txt", 10),
        e("other.txt", 99),
        e("output_log_b.txt", 30),
        e("output_log_c.txt", 30),
        e("output_log_d.txt", 20),
    ];
    assert_eq!(select_latest_log(&entries), Some(3));
    let none = vec![e("readme.txt", 1)];
    assert_eq!(select_latest_log(&none), None);
    assert_eq!(select_latest_log(&vec![]), None);
    let before_epoch = vec![e("output_log_a.txt", -5), e("output_log_b.txt", -7)];
    assert_eq!(select_latest_log(&before_epoch), Some(0));
}

#[test]
fn line_matches_drive_the_world() {
    let mut p = VRChatLogParser::new("logs".to_string());
    let joins = vec![
        None,
        Some(joined("wrld_a", "1")),
        None,
        None,
        Some(joined("wrld_b", "2")),
        None,
    ];
    // a join line wins over a leave match on the same line; a leave with no
    // current world reports nothing
    let leaves = vec![true, true, false, true, false, true];
    let events = p.handle_line_matches(&joins, &leaves);
    assert_eq!(
        describe(&events),
        vec![
            (true, "wrld_a".to_string(), "1".to_string()),
            (false, "wrld_a".to_string(), "1".to_string()),
            (true, "wrld_b".to_string(), "2".to_string()),
            (false, "wrld_b".to_string(), "2".to_string()),
        ]
    );
    assert_eq!(p.current_world, None);
    assert_eq!(p.last_position, 0);
    let events = p.handle_line_matches(&vec![Some(joined("wrld_c", "3"))], &vec![false]);
    assert_eq!(events.len(), 1);
    assert_eq!(p.current_world, Some(joined("wrld_c", "3")));
}
