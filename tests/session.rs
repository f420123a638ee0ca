use command_center::session::{tag_stderr, CommandCenter, SYNC_DELAY_MS};

#[test]
fn new_session_is_ready() {
    let c = CommandCenter::new();
    assert_eq!(c.label, "Ready");
    assert!(c.logs.is_empty());
    assert!(c.graph.nodes.is_empty());
    assert_eq!(c.sync_armed_at, None);
}

#[test]
fn launch_success_arms_sync_once() {
    let mut c = CommandCenter::new();
    c.launched(Ok(()), 5_000);
    assert_eq!(c.label, "ONLINE");
    assert_eq!(c.poll_sync(5_000), None);
    assert_eq!(c.poll_sync(5_999), None);
    assert_eq!(c.poll_sync(5_000 + SYNC_DELAY_MS), Some("/sync".to_string()));
    assert_eq!(c.poll_sync(9_000), None);
}

#[test]
fn launch_failure_reports_error() {
    let mut c = CommandCenter::new();
    c.launched(Err("program not found".to_string()), 10);
    assert_eq!(c.label, "ERROR: program not found");
    assert_eq!(c.sync_armed_at, None);
    assert_eq!(c.poll_sync(100_000), None);
}

#[test]
fn sync_not_due_before_arming_time() {
    let mut c = CommandCenter::new();
    c.launched(Ok(()), 5_000);
    assert_eq!(c.poll_sync(1_000), None);
    assert_eq!(c.sync_armed_at, Some(5_000));
}

#[test]
fn received_lines_keep_their_order_and_build_the_graph() {
    let mut c = CommandCenter::new();
    let lines = vec![
        "[Perception] Node: Fire | Type: ACTION".to_string(),
        tag_stderr("warning"),
        "[Teaching] Learned: \"spark\" -> [Fire]".to_string(),
        "[Curiosity] Suggests: explore on Forest (confidence 0.8)".to_string(),
        "[Perception] Active Concept: Water".to_string(),
    ];
    c.receive_lines(lines.clone());
    assert_eq!(c.logs, lines);
    let ids: Vec<&str> = c.graph.nodes.iter().map(|n| n.id.as_str()).collect();
    assert_eq!(ids, vec!["Fire", "spark", "Water"]);
    assert_eq!(c.graph.nodes[0].node_type, "ACTION");
    assert_eq!(c.graph.edges.len(), 1);
    assert_eq!(c.graph.edges[0].source, "spark");
    assert_eq!(c.graph.edges[0].target, "Fire");
}

#[test]
fn interleaved_streams_keep_each_stream_in_order() {
    let mut c = CommandCenter::new();
    c.receive_lines(vec!["out 1".to_string(), tag_stderr("err 1")]);
    c.receive_line("out 2".to_string());
    c.receive_lines(vec![tag_stderr("err 2"), "out 3".to_string()]);
    let out: Vec<&String> = c.logs.iter().filter(|l| !l.starts_with("[STDERR] ")).collect();
    let err: Vec<&String> = c.logs.iter().filter(|l| l.starts_with("[STDERR] ")).collect();
    assert_eq!(out, vec!["out 1", "out 2", "out 3"]);
    assert_eq!(err, vec!["[STDERR] err 1", "[STDERR] err 2"]);
}

#[test]
fn submit_logs_non_empty_commands() {
    let mut c = CommandCenter::new();
    assert!(!c.submit(""));
    assert!(c.logs.is_empty());
    assert!(c.submit("hello"));
    assert_eq!(c.logs, vec!["USER > hello".to_string()]);
}

#[test]
fn stderr_tag() {
    assert_eq!(tag_stderr("boom"), "[STDERR] boom");
    assert_eq!(tag_stderr(""), "[STDERR] ");
}
