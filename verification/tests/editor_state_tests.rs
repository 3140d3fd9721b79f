use freshview::editor::{can_close, tab_title, EditorState, Tab};
use freshview::rpc::{handle_request, invalid_json_reply, memory_mb, parse_gpu_query, GpuMonitor, RpcResult};
use freshview::text::{decimal, is_blank, parse_unsigned, trim};

#[test]
fn test_new_state_needs_drawing() {
    let mut s = EditorState::new(120, 40);
    assert_eq!((s.cols(), s.rows()), (120, 40));
    assert!(s.take_dirty());
    assert!(!s.take_dirty());
}

#[test]
fn test_resize() {
    let mut s = EditorState::new(120, 40);
    s.take_dirty();
    assert!(!s.resize(120, 40));
    assert!(!s.take_dirty());
    assert!(s.resize(100, 40));
    assert_eq!(s.cols(), 100);
    assert!(s.take_dirty());
}

#[test]
fn test_viewer_files_are_intercepted_once() {
    let mut s = EditorState::new(80, 24);
    s.take_dirty();
    assert!(!s.observe_active_buffer("/src/lib.rs"));
    assert!(!s.take_dirty());
    assert!(s.observe_active_buffer("/docs/paper.pdf"));
    assert!(s.take_dirty());
    assert!(!s.observe_active_buffer("/docs/paper.pdf"));
    assert!(!s.observe_active_buffer("/docs//paper.pdf"));
    assert!(s.observe_active_buffer("relative.png"));
    assert!(s.observe_active_buffer("/img/a.PNG"));
    assert!(!s.observe_active_buffer("/src/lib.rs"));
    assert!(s.observe_active_buffer("/docs/paper.pdf"));
    assert!(s.observe_active_buffer("C:\\Users\\me\\scan.JPG"));
    assert!(!s.observe_active_buffer("[No Name]"));
    assert_eq!(
        s.drain_opened_image_paths(),
        vec![
            "/docs/paper.pdf".to_string(),
            "relative.png".to_string(),
            "/img/a.PNG".to_string(),
            "/docs/paper.pdf".to_string(),
            "C:\\Users\\me\\scan.JPG".to_string(),
        ]
    );
    assert!(s.drain_opened_image_paths().is_empty());
}

#[test]
fn test_gpu_monitor_cadence() {
    let mut m = GpuMonitor::new();
    assert!(m.polls_now());
    assert_eq!(m.record(Some("35, 1024\n")), (35, 1024));
    for _ in 0..4 {
        assert!(!m.polls_now());
        assert_eq!(m.record(Some("99, 99")), (35, 1024));
    }
    assert!(m.polls_now());
    assert_eq!(m.record(None), (0, 0));
    assert_eq!(m.samples(), 6);
    assert_eq!(m.record(None), (0, 0));
}

#[test]
fn test_tabs() {
    assert_eq!(tab_title(&Tab::Editor), "Fresh");
    assert_eq!(tab_title(&Tab::Viewer { title: "a.pdf".to_string() }), "a.pdf");
    assert!(!can_close(&Tab::Editor));
    assert!(can_close(&Tab::Viewer { title: String::new() }));
}

#[test]
fn test_rpc_methods() {
    let out = handle_request::<f64>("get_stats", None, Some(7));
    assert_eq!(out.reply.result, Some(RpcResult::Stats));
    assert_eq!(out.reply.error, None);
    assert_eq!(out.reply.id, Some(7));
    assert_eq!(out.set_zoom, None);

    let out = handle_request("set_zoom", Some(1.5f64), Some(1));
    assert_eq!(out.reply.result, Some(RpcResult::Acknowledged));
    assert_eq!(out.set_zoom, Some(1.5));
    assert_eq!(out.reply.id, Some(1));

    let out = handle_request::<f64>("set_zoom", None, None);
    assert_eq!(out.reply.result, None);
    assert_eq!(out.reply.error.as_deref(), Some("Missing numeric param"));
    assert_eq!(out.set_zoom, None);

    let out = handle_request("reboot", Some(2.0f64), Some(3));
    assert_eq!(out.reply.error.as_deref(), Some("Unknown method"));
    assert_eq!(out.reply.id, Some(3));
    assert_eq!(out.set_zoom, None);
}

#[test]
fn test_invalid_json_reply() {
    let r = invalid_json_reply("expected value at line 1 column 1");
    assert_eq!(r.error.as_deref(), Some("Invalid JSON: expected value at line 1 column 1"));
    assert_eq!(r.id, None);
    assert_eq!(r.result, None);
}

#[test]
fn test_parse_gpu_query() {
    assert_eq!(parse_gpu_query("35, 1024\n"), (35, 1024));
    assert_eq!(parse_gpu_query(" 7 ,  12 "), (7, 12));
    assert_eq!(parse_gpu_query("12, 345\n7, 89\n"), (12, 0));
    assert_eq!(parse_gpu_query("[N/A], 5"), (0, 5));
    assert_eq!(parse_gpu_query("nvidia-smi failed"), (0, 0));
    assert_eq!(parse_gpu_query(""), (0, 0));
    assert_eq!(parse_gpu_query("4294967296, 18446744073709551615"), (0, u64::MAX));
    assert_eq!(parse_gpu_query("+5,+6"), (5, 6));
}

#[test]
fn test_memory_mb() {
    assert_eq!(memory_mb(0), 0);
    assert_eq!(memory_mb(1048575), 0);
    assert_eq!(memory_mb(3 * 1048576 + 5), 3);
}

#[test]
fn test_text_helpers() {
    assert_eq!(decimal(0), "0");
    assert_eq!(decimal(1234), "1234");
    assert_eq!(decimal(-56), "-56");
    assert_eq!(decimal(i64::MIN), i64::MIN.to_string());
    assert_eq!(decimal(i64::MAX), i64::MAX.to_string());
    assert_eq!(trim("  a b \n"), "a b");
    assert_eq!(trim("\u{3000}x\u{a0}"), "x");
    assert!(is_blank(" \t\n"));
    assert!(!is_blank(" . "));
    assert!(is_blank("\u{85}\u{1680}\u{2000}\u{200a}\u{2028}\u{2029}\u{202f}\u{205f}\u{0b}\u{0c}\r"));
    assert!(!is_blank("\u{200b}"));
    assert!(!is_blank("\u{180e}"));
    assert_eq!(parse_unsigned("42", u32::MAX as u64), Some(42));
    assert_eq!(parse_unsigned("+42", u32::MAX as u64), Some(42));
    assert_eq!(parse_unsigned("+", u32::MAX as u64), None);
    assert_eq!(parse_unsigned("-1", u32::MAX as u64), None);
    assert_eq!(parse_unsigned("4294967295", u32::MAX as u64), Some(4294967295));
    assert_eq!(parse_unsigned("4294967296", u32::MAX as u64), None);
    assert_eq!(parse_unsigned("1 2", u64::MAX), None);
    assert_eq!(parse_unsigned("", u64::MAX), None);
}
