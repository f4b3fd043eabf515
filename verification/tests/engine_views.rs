use std::hash::{DefaultHasher, Hash, Hasher};
use iced_webview::engines::blitz::{
    find_view, find_view_mut, get_cursor, get_title, get_url, get_view, handles_urls, has_view,
    mark_all_for_render, plan_new_view, remove_view, render_target, resize_views, update_views,
    view_ids, views_to_render, BlitzView, NewViewPlan, RESOURCE_TICK_BUDGET,
};
use iced_webview::engines::input::{CursorInteraction, CursorShape};
use iced_webview::PageType;

type View = BlitzView<&'static str, ()>;

fn plan(id: usize, url: &str) -> NewViewPlan {
    NewViewPlan { id, width: 4, height: 3, html: None, url: url.to_string() }
}

fn view(id: usize, url: &str, document: Option<&'static str>) -> View {
    BlitzView::create(plan(id, url), document, ())
}

#[test]
fn plan_keeps_sizes_of_at_least_one() {
    let p = plan_new_view(0, 0, None);
    assert_eq!((p.width, p.height), (1, 1));
    assert!(p.html.is_none());
    assert_eq!(p.url, "");
    let p = plan_new_view(640, 480, Some(PageType::Url("https://example.org/".to_string())));
    assert_eq!((p.width, p.height), (640, 480));
    assert_eq!(p.url, "https://example.org/");
    assert!(p.html.is_none());
}

#[test]
fn plan_takes_html_only_when_not_empty() {
    let p = plan_new_view(10, 10, Some(PageType::Html("<p>hi</p>".to_string())));
    assert_eq!(p.html.as_deref(), Some("<p>hi</p>"));
    assert_eq!(p.url, "");
    let p = plan_new_view(10, 10, Some(PageType::Html(String::new())));
    assert!(p.html.is_none());
}

#[test]
fn new_view_starts_blank_with_render_pending() {
    let v = view(7, "", Some("doc"));
    assert_eq!(v.id, 7);
    assert!(v.needs_render);
    assert_eq!(v.resource_ticks, RESOURCE_TICK_BUDGET);
    assert_eq!(v.cursor, CursorInteraction::Idle);
    assert_eq!(v.title, "");
    assert_eq!(v.last_frame_hash, 0);
    assert_eq!(v.last_frame.image_width(), 4);
    assert_eq!(v.last_frame.image_height(), 3);
    assert!(v.last_frame.pixels().iter().all(|&b| b == 255));
    let v = view(8, "", None);
    assert_eq!(v.resource_ticks, 0);
}

#[test]
fn tick_counts_down_and_resolves_every_hundred() {
    let mut v = view(1, "", Some("doc"));
    v.needs_render = false;
    let mut resolves = Vec::new();
    for k in 0..3100u32 {
        if v.tick() {
            resolves.push(k);
        }
    }
    assert_eq!(v.resource_ticks, 0);
    assert_eq!(resolves.len(), 30);
    assert_eq!(resolves[0], 99);
    assert_eq!(resolves[29], 2999);
    assert!(resolves.iter().all(|k| k % 100 == 99));
    assert!(v.needs_render);
}

#[test]
fn tick_without_budget_does_nothing() {
    let mut v = view(1, "", None);
    v.needs_render = false;
    assert!(!v.tick());
    assert_eq!(v.resource_ticks, 0);
    assert!(!v.needs_render);
}

#[test]
fn update_reports_views_to_resolve() {
    let mut views = vec![view(1, "", Some("a")), view(2, "", None), view(3, "", Some("c"))];
    views[0].resource_ticks = 101;
    views[2].resource_ticks = 5;
    let resolve = update_views(&mut views);
    assert_eq!(resolve, vec![0]);
    assert_eq!(views[0].resource_ticks, 100);
    assert_eq!(views[1].resource_ticks, 0);
    assert_eq!(views[2].resource_ticks, 4);
}

#[test]
fn begin_render_without_document_shows_blank() {
    let mut v = view(1, "", None);
    assert!(!v.begin_render());
    assert!(!v.needs_render);
    assert_eq!(v.last_frame.image_width(), 4);
    let mut v = view(2, "", Some("doc"));
    assert!(v.begin_render());
    assert!(v.needs_render);
    v.resize(0, 3);
    assert!(!v.begin_render());
    assert!(v.needs_render);
}

#[test]
fn same_frame_is_kept_and_new_frame_replaces() {
    let mut v = view(1, "", Some("doc"));
    v.accept_frame(vec![9; 8], 2, 1, 77);
    assert_eq!(v.last_frame_hash, 77);
    assert_eq!(*v.last_frame.pixels(), vec![9; 8]);
    assert!(!v.needs_render);
    let handle = v.last_frame.as_handle();
    v.mark_for_render();
    v.accept_frame(vec![9; 8], 2, 1, 77);
    assert!(!v.needs_render);
    assert!(v.last_frame.as_handle() == handle);
    v.accept_frame(vec![1; 8], 1, 2, 77);
    assert_eq!(v.last_frame.image_width(), 1);
    assert_eq!(*v.last_frame.pixels(), vec![1; 8]);
}

#[test]
fn finish_render_takes_the_frame_and_recognises_it_again() {
    let mut v = view(1, "", Some("doc"));
    v.finish_render(vec![5; 16], 2, 2);
    assert_eq!(*v.last_frame.pixels(), vec![5; 16]);
    let handle = v.last_frame.as_handle();
    let digest = v.last_frame_hash;
    v.mark_for_render();
    v.finish_render(vec![5; 16], 2, 2);
    assert!(!v.needs_render);
    assert_eq!(v.last_frame_hash, digest);
    assert!(v.last_frame.as_handle() == handle);
}

#[test]
fn goto_url_remembers_and_html_hands_back() {
    let mut v = view(1, "", None);
    assert!(v.goto(PageType::Url("https://a.example/".to_string())).is_none());
    assert_eq!(v.url, "https://a.example/");
    v.needs_render = false;
    let html = v.goto(PageType::Html("<b>x</b>".to_string()));
    assert_eq!(html.as_deref(), Some("<b>x</b>"));
    assert!(!v.needs_render);
    v.load_document("doc");
    assert_eq!(v.document, Some("doc"));
    assert!(v.needs_render);
    assert_eq!(v.resource_ticks, RESOURCE_TICK_BUDGET);
}

#[test]
fn hover_takes_document_cursor_first() {
    let mut v = view(1, "", None);
    v.hover(Some(CursorShape::Pointer), CursorShape::Text);
    assert_eq!(v.cursor, CursorInteraction::Pointer);
    v.hover(None, CursorShape::Text);
    assert_eq!(v.cursor, CursorInteraction::Text);
    v.hover(None, CursorShape::Wait);
    assert_eq!(v.cursor, CursorInteraction::Idle);
    v.hover(Some(CursorShape::EwResize), CursorShape::Default);
    assert_eq!(v.cursor, CursorInteraction::ResizingHorizontally);
    v.leave();
    assert_eq!(v.cursor, CursorInteraction::Idle);
}

#[test]
fn lookups_of_missing_views_fall_back() {
    let views: Vec<View> = vec![view(1, "https://a.example/", None)];
    assert_eq!(get_url(&views, 2), "about:blank");
    assert_eq!(get_title(&views, 2), "");
    assert_eq!(get_cursor(&views, 2), CursorInteraction::Idle);
    assert!(get_view(&views, 2).is_none());
    assert!(find_view(&views, 2).is_none());
    assert!(!has_view(&views, 2));
    assert_eq!(get_url(&views, 1), "https://a.example/");
    assert!(has_view(&views, 1));
}

#[test]
fn empty_url_shows_as_blank_page() {
    let views: Vec<View> = vec![view(1, "", None)];
    assert_eq!(get_url(&views, 1), "about:blank");
}

#[test]
fn find_takes_the_first_of_equal_ids() {
    let mut views: Vec<View> = vec![view(5, "first", None), view(5, "second", None)];
    assert_eq!(find_view(&views, 5).unwrap().url, "first");
    find_view_mut(&mut views, 5).unwrap().title = "t".to_string();
    assert_eq!(views[0].title, "t");
    assert_eq!(views[1].title, "");
}

#[test]
fn remove_view_keeps_others_in_order() {
    let mut views: Vec<View> =
        vec![view(1, "a", None), view(2, "b", None), view(1, "c", None), view(3, "d", None)];
    remove_view(&mut views, 1);
    assert_eq!(view_ids(&views), vec![2, 3]);
    assert!(!has_view(&views, 1));
    remove_view(&mut views, 9);
    assert_eq!(view_ids(&views), vec![2, 3]);
}

#[test]
fn render_lists_follow_pending_renders() {
    let mut views: Vec<View> = vec![view(1, "", None), view(2, "", None), view(3, "", None)];
    views[1].needs_render = false;
    assert_eq!(views_to_render(&views), vec![0, 2]);
    assert_eq!(render_target(&views, 2), None);
    assert_eq!(render_target(&views, 3), Some(2));
    assert_eq!(render_target(&views, 4), None);
    for v in views.iter_mut() {
        v.needs_render = false;
    }
    resize_views(&mut views, 9, 8);
    assert!(views.iter().all(|v| v.needs_render && v.width == 9 && v.height == 8));
    for v in views.iter_mut() {
        v.needs_render = false;
    }
    mark_all_for_render(&mut views);
    assert!(views.iter().all(|v| v.needs_render));
}

#[test]
fn blitz_does_not_fetch_pages() {
    assert!(!handles_urls());
}

#[test]
fn frame_digest_is_the_hash_of_the_byte_vector() {
    let pixels = vec![1u8, 2, 3, 4, 5, 6, 7, 8];
    let mut hasher = DefaultHasher::new();
    pixels.hash(&mut hasher);
    let expected = hasher.finish();
    let mut v = view(1, "", Some("doc"));
    v.finish_render(pixels.clone(), 1, 2);
    assert_eq!(v.last_frame_hash, expected);
    assert_eq!(
        iced_webview::engines::blitz::frame_digest(&pixels.len().to_ne_bytes(), &pixels),
        expected
    );
}

#[test]
fn finish_render_with_prefix_uses_that_prefix() {
    let mut v = view(1, "", Some("doc"));
    v.finish_render_with(vec![0; 4], 1, 1, &[9, 9]);
    assert_eq!(
        v.last_frame_hash,
        iced_webview::engines::blitz::frame_digest(&[9, 9], &[0, 0, 0, 0])
    );
}
