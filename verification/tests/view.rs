use ptlk::article::Article;
use ptlk::model::{App, LoadingState};
use ptlk::view::{article_rows, compose, content_width_for, popup_geometry, Row, RowKind};

fn loaded_app() -> App {
    let mut app = App::new("http://localhost:3000", 50);
    app.articles = vec![
        Article {
            title: "First".to_string(),
            url: "https://example.com/1".to_string(),
            summary: "A short summary".to_string(),
            tag: "Tech".to_string(),
            source: "Wire".to_string(),
            published_at: "2024-01-01T00:00:00Z".to_string(),
        },
        Article {
            title: "Second".to_string(),
            url: "https://example.com/2".to_string(),
            summary: String::new(),
            tag: "AI".to_string(),
            source: "Feed".to_string(),
            published_at: "2024-02-02T10:30:00Z".to_string(),
        },
    ];
    app.selected = Some(0);
    app.loading_state = LoadingState::Loaded;
    app
}

fn texts(rows: &[Row]) -> Vec<&str> {
    rows.iter().map(|r| r.text.as_str()).collect()
}

#[test]
fn test_compose_loading() {
    let app = App::new("http://localhost:3000", 50);
    let rows = compose(&app, 80);
    assert_eq!(rows.len(), 1);
    assert_eq!(rows[0].text, "Loading articles...");
    assert_eq!(rows[0].kind, RowKind::Loading);
}

#[test]
fn test_compose_error_block() {
    let mut app = App::new("http://localhost:3000", 50);
    app.load(Err("connection refused".to_string()));
    let rows = compose(&app, 80);
    assert_eq!(
        texts(&rows),
        vec![
            "Failed to load articles",
            "",
            "connection refused",
            "",
            "Press 'r' to retry or 'q' to quit",
        ]
    );
    assert_eq!(rows[0].kind, RowKind::ErrorTitle);
    assert_eq!(rows[2].kind, RowKind::ErrorDetail);
    assert_eq!(rows[4].kind, RowKind::ErrorHint);
}

#[test]
fn test_compose_collapsed_list() {
    let app = loaded_app();
    let rows = compose(&app, 80);
    assert_eq!(
        texts(&rows),
        vec![
            "[Tech] First",
            "   Wire • 2024-01-01 00:00",
            "[AI] Second",
            "   Feed • 2024-02-02 10:30",
            "",
            "   Want more? Visit http://localhost:3000 ↗",
            "",
        ]
    );
    assert_eq!(rows[0].kind, RowKind::Title);
    assert_eq!(rows[1].kind, RowKind::Meta);
    assert_eq!(rows[5].kind, RowKind::Website);
}

#[test]
fn test_compose_expanded_article() {
    let mut app = loaded_app();
    app.toggle_expand();
    let rows = compose(&app, 80);
    assert_eq!(
        texts(&rows)[..8],
        [
            "[Tech] First",
            "   Wire • 2024-01-01 00:00",
            "",
            "   A short summary",
            "",
            "   URL: https://example.com/1",
            "   Press Enter to open in browser",
            "[AI] Second",
        ]
    );
    assert_eq!(rows[3].kind, RowKind::Summary);
    assert_eq!(rows[5].kind, RowKind::LinkUrl);
    assert_eq!(rows[6].kind, RowKind::OpenHint);
}

#[test]
fn test_expanded_empty_summary_placeholder() {
    let mut app = loaded_app();
    app.selected = Some(1);
    app.toggle_expand();
    let rows = compose(&app, 80);
    let all = texts(&rows);
    assert!(all.contains(&"   No summary available"));
    let idx = all.iter().position(|t| *t == "   No summary available").unwrap();
    assert_eq!(rows[idx].kind, RowKind::NoSummary);
}

#[test]
fn test_article_rows_wraps_long_summary() {
    let a = Article {
        title: "T".to_string(),
        url: "https://e.com".to_string(),
        summary: "abcdefghijklmnop".to_string(),
        tag: "Tech".to_string(),
        source: "S".to_string(),
        published_at: "2024-01-01T00:00:00Z".to_string(),
    };
    // Content width 13 leaves 10 columns inside the indent.
    let rows = article_rows(&a, true, 13);
    let all: Vec<&str> = rows.iter().map(|r| r.text.as_str()).collect();
    assert_eq!(
        all,
        vec![
            "[Tech] T",
            "   S • 2024-01-01 00:00",
            "",
            "   abcdefghij",
            "   klmnop",
            "",
            "   URL: https",
            "   ://e.com",
            "   Press Enter to open in browser",
        ]
    );
}

#[test]
fn test_content_width() {
    assert_eq!(content_width_for(100), 85);
    assert_eq!(content_width_for(80), 68);
    assert_eq!(content_width_for(20), 20); // floored at 20
    assert_eq!(content_width_for(0), 20);
}

#[test]
fn test_popup_geometry() {
    // Wide terminal: the popup caps at 50 columns.
    assert_eq!(popup_geometry(80, 24), (15, 9, 50, 5));
    // Narrow terminal: the popup leaves a two-column margin on each side.
    assert_eq!(popup_geometry(40, 10), (2, 2, 36, 5));
}
