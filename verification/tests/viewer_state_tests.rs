use freshview::paths::{is_same_path, is_viewer_extension, should_use_viewer, texture_name, viewer_title};
use freshview::viewer::{open_failure, render_failure, RenderRequest, ViewerEvent, ViewerState};

fn opened(pages: i32) -> ViewerState {
    let mut v = ViewerState::new();
    let req = v.apply(ViewerEvent::DocumentOpened { total_pages: pages });
    assert_eq!(req, Some(RenderRequest { page_idx: 0, zoom_quarters: 4 }));
    v
}

#[test]
fn test_new_viewer() {
    let v = ViewerState::new();
    assert_eq!(v.current_page(), 0);
    assert_eq!(v.total_pages(), 0);
    assert_eq!(v.zoom_quarters(), 4);
    assert!(v.is_loading());
    assert!(v.error().is_none());
    assert_eq!(v.last_rendered(), None);
    assert_eq!(v.zoom_label(), "100%");
}

#[test]
fn test_page_navigation() {
    let mut v = opened(3);
    assert!(v.shows_page_controls());
    assert!(!v.can_go_prev());
    assert_eq!(v.apply(ViewerEvent::PrevPage), None);
    assert_eq!(v.apply(ViewerEvent::NextPage), Some(RenderRequest { page_idx: 1, zoom_quarters: 4 }));
    assert_eq!(v.apply(ViewerEvent::NextPage), Some(RenderRequest { page_idx: 2, zoom_quarters: 4 }));
    assert!(!v.can_go_next());
    assert_eq!(v.apply(ViewerEvent::NextPage), None);
    assert_eq!(v.current_page(), 2);
    assert_eq!(v.page_label(), "3 / 3");
    assert_eq!(v.apply(ViewerEvent::PrevPage), Some(RenderRequest { page_idx: 1, zoom_quarters: 4 }));
    assert_eq!(v.page_label(), "2 / 3");
}

#[test]
fn test_single_page_has_no_navigation() {
    let mut v = opened(1);
    assert!(!v.shows_page_controls());
    assert_eq!(v.apply(ViewerEvent::NextPage), None);
    assert_eq!(v.current_page(), 0);
}

#[test]
fn test_zoom_limits() {
    let mut v = opened(1);
    for expected in [3u8, 2, 1] {
        assert_eq!(v.apply(ViewerEvent::ZoomOut), Some(RenderRequest { page_idx: 0, zoom_quarters: expected }));
    }
    assert_eq!(v.zoom_label(), "25%");
    assert!(!v.can_zoom_out_now());
    assert_eq!(v.apply(ViewerEvent::ZoomOut), None);
    for _ in 0..20 {
        v.apply(ViewerEvent::ZoomIn);
    }
    assert_eq!(v.zoom_quarters(), 16);
    assert_eq!(v.zoom_label(), "400%");
    assert!(!v.can_zoom_in_now());
}

#[test]
fn test_zoom_round_trip() {
    let mut v = opened(5);
    v.apply(ViewerEvent::NextPage);
    v.apply(ViewerEvent::ZoomIn);
    v.apply(ViewerEvent::ZoomOut);
    assert_eq!(v.zoom_quarters(), 4);
    assert_eq!(v.current_page(), 1);
}

#[test]
fn test_render_replies() {
    let mut v = opened(2);
    assert!(v.is_loading());
    assert_eq!(v.apply(ViewerEvent::Rendered { page_idx: 0, zoom_quarters: 4 }), None);
    assert!(!v.is_loading());
    assert_eq!(v.last_rendered(), Some(RenderRequest { page_idx: 0, zoom_quarters: 4 }));
}

#[test]
fn test_failure_hides_toolbar() {
    let mut v = opened(4);
    assert_eq!(v.apply(render_failure("boom")), None);
    assert_eq!(v.error().map(|s| s.as_str()), Some("Failed to render page: boom"));
    assert!(!v.is_loading());
    assert_eq!(v.apply(ViewerEvent::NextPage), None);
    assert_eq!(v.apply(ViewerEvent::ZoomIn), None);
    assert_eq!(v.current_page(), 0);
}

#[test]
fn test_open_failure_message() {
    match open_failure("no such file") {
        ViewerEvent::Failed(m) => assert_eq!(m, "Failed to open document: no such file"),
        _ => panic!("expected a failure"),
    }
}

#[test]
fn test_should_use_viewer() {
    assert!(should_use_viewer("/home/u/paper.pdf"));
    assert!(should_use_viewer("/tmp/photo.PNG"));
    assert!(should_use_viewer("/tmp/a.b.JpEg"));
    assert!(should_use_viewer("image.tiff"));
    assert!(!should_use_viewer("/src/main.rs"));
    assert!(!should_use_viewer("/tmp/pdf"));
    assert!(!should_use_viewer("/tmp/.png"));
    assert!(!should_use_viewer("/tmp/file.pdfx"));
    assert!(!should_use_viewer(""));
}

#[test]
fn test_viewer_title_and_texture_name() {
    assert_eq!(viewer_title("/home/u/paper.pdf"), "paper.pdf");
    assert_eq!(viewer_title("/"), "Viewer");
    assert_eq!(viewer_title(".."), "Viewer");
    assert_eq!(texture_name("/a/b.pdf", 0), "/a/b.pdf:page0");
    assert_eq!(texture_name("/a/b.pdf", 12), "/a/b.pdf:page12");
    assert_eq!(texture_name("x", -3), "x:page-3");
}

#[test]
fn test_viewer_extensions_and_paths() {
    for e in ["pdf", "png", "jpg", "jpeg", "gif", "bmp", "svg", "webp", "tiff"] {
        assert!(is_viewer_extension(e));
    }
    assert!(!is_viewer_extension("PDF"));
    assert!(!is_viewer_extension("tif"));
    assert!(!is_viewer_extension(""));
    assert!(is_same_path("/a/b.pdf", "/a/b.pdf"));
    assert!(is_same_path("/a//b.pdf", "/a/b.pdf"));
    assert!(is_same_path("/a/./b.pdf", "/a/b.pdf"));
    assert!(!is_same_path("/a/b.pdf", "/a/c.pdf"));
    assert!(should_use_viewer("x.tar.png"));
    assert!(should_use_viewer("b.PDF"));
}
