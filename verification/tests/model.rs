use ptlk::article::Article;
use ptlk::model::{App, LoadingState};

fn make_article(n: u32) -> Article {
    Article {
        title: format!("Article {}", n),
        url: format!("https://example.com/{}", n),
        summary: format!("Summary {}", n),
        tag: if n == 1 { "Tech".to_string() } else { "AI".to_string() },
        source: format!("Source {}", n),
        published_at: format!("2024-01-0{}T00:00:00Z", n),
    }
}

fn create_test_app() -> App {
    let mut app = App::new("http://localhost:3000", 50);
    app.articles = vec![make_article(1), make_article(2)];
    app.selected = Some(0);
    app.loading_state = LoadingState::Loaded;
    app
}

#[test]
fn test_navigation() {
    let mut app = create_test_app();

    // Articles length is 2. Total items: 3 (0, 1, 2)
    // 0: Article 1
    // 1: Article 2
    // 2: Website Link

    assert_eq!(app.selected, Some(0));

    app.next();
    assert_eq!(app.selected, Some(1));

    app.next();
    assert_eq!(app.selected, Some(2)); // Website Link

    app.next();
    assert_eq!(app.selected, Some(0)); // Loop back to start

    app.previous();
    assert_eq!(app.selected, Some(2)); // Loop back to end
}

#[test]
fn test_expand_toggle() {
    let mut app = create_test_app();

    assert!(!app.is_current_expanded());

    app.toggle_expand();
    assert!(app.is_current_expanded());

    app.toggle_expand();
    assert!(!app.is_current_expanded());
}

#[test]
fn test_next_wraps_after_length_plus_one_steps() {
    let mut app = create_test_app();
    app.selected = Some(1);
    // 2 articles: 3 steps return the selection to where it started.
    app.next();
    app.next();
    app.next();
    assert_eq!(app.selected, Some(1));
}

#[test]
fn test_previous_inverts_next() {
    let mut app = create_test_app();
    for start in 0..3usize {
        app.selected = Some(start);
        app.next();
        app.previous();
        assert_eq!(app.selected, Some(start));
        app.previous();
        app.next();
        assert_eq!(app.selected, Some(start));
    }
}

#[test]
fn test_toggle_expand_trailing_row_is_inert() {
    let mut app = create_test_app();
    app.toggle_expand(); // expand article 0
    app.selected = Some(2); // the trailing row
    app.toggle_expand();
    assert!(!app.is_current_expanded());
    app.selected = Some(0);
    assert!(app.is_current_expanded()); // article 0 untouched by the trailing toggle
}

#[test]
fn test_navigation_empty_list_is_inert() {
    let mut app = App::new("http://localhost:3000", 50);
    app.next();
    assert_eq!(app.selected, None);
    app.previous();
    assert_eq!(app.selected, None);
    app.go_to_first();
    app.go_to_last();
    app.page_down();
    app.page_up();
    assert_eq!(app.selected, None);
}

#[test]
fn test_load_failure_on_empty_model() {
    let mut app = App::new("http://localhost:3000", 50);
    app.load(Err("boom".to_string()));
    assert_eq!(app.loading_state, LoadingState::Error("boom".to_string()));
    assert!(app.articles.is_empty());
    assert_eq!(app.selected, None);
}

#[test]
fn test_load_success_selects_first_row() {
    let mut app = App::new("http://localhost:3000", 50);
    app.load(Ok(vec![make_article(1), make_article(2)]));
    assert_eq!(app.loading_state, LoadingState::Loaded);
    assert_eq!(app.articles.len(), 2);
    assert_eq!(app.selected, Some(0));
}

#[test]
fn test_load_success_empty_page_clears_selection() {
    let mut app = create_test_app();
    app.load(Ok(Vec::new()));
    assert_eq!(app.loading_state, LoadingState::Loaded);
    assert_eq!(app.selected, None);
}

#[test]
fn test_load_failure_keeps_articles_and_selection() {
    let mut app = create_test_app();
    app.selected = Some(1);
    app.load(Err("offline".to_string()));
    assert_eq!(app.articles.len(), 2);
    assert_eq!(app.selected, Some(1));
    assert_eq!(app.loading_state, LoadingState::Error("offline".to_string()));
}

#[test]
fn test_refresh_clears_expanded() {
    let mut app = create_test_app();
    app.toggle_expand();
    assert!(app.is_current_expanded());
    app.refresh(Ok(vec![make_article(1)]));
    assert!(!app.is_current_expanded());
    assert_eq!(app.articles.len(), 1);
    assert_eq!(app.selected, Some(0));
}

#[test]
fn test_plain_load_keeps_expanded() {
    let mut app = create_test_app();
    app.toggle_expand();
    app.load(Ok(vec![make_article(1), make_article(2)]));
    assert_eq!(app.selected, Some(0));
    assert!(app.is_current_expanded());
}

#[test]
fn test_page_navigation_clamps() {
    let mut app = create_test_app();
    app.articles = (1..=15).map(make_article).collect();
    app.selected = Some(0);
    app.page_down();
    assert_eq!(app.selected, Some(10));
    app.page_down();
    assert_eq!(app.selected, Some(15)); // clamped to the trailing row
    app.page_up();
    assert_eq!(app.selected, Some(5));
    app.page_up();
    assert_eq!(app.selected, Some(0)); // saturates at the first row
}

#[test]
fn test_go_to_first_and_last() {
    let mut app = create_test_app();
    app.go_to_last();
    assert_eq!(app.selected, Some(2));
    app.go_to_first();
    assert_eq!(app.selected, Some(0));
}

#[test]
fn test_selected_article() {
    let mut app = create_test_app();
    assert_eq!(app.selected_article().unwrap().title, "Article 1");
    app.next();
    assert_eq!(app.selected_article().unwrap().title, "Article 2");
    app.next();
    assert!(app.selected_article().is_none()); // the trailing row
}

#[test]
fn test_open_in_browser_urls() {
    let mut app = create_test_app();
    assert_eq!(app.open_in_browser(), Some("https://example.com/1".to_string()));
    app.selected = Some(2);
    assert_eq!(app.open_in_browser(), Some("http://localhost:3000".to_string()));
    assert_eq!(app.open_website(), "http://localhost:3000");
}

#[test]
fn test_handle_enter_three_way() {
    let mut app = create_test_app();
    // Collapsed article: Enter expands, opens nothing.
    assert_eq!(app.handle_enter(), None);
    assert!(app.is_current_expanded());
    // Expanded article: Enter asks to open its link.
    assert_eq!(app.handle_enter(), Some("https://example.com/1".to_string()));
    // Trailing row: Enter asks to open the website.
    app.selected = Some(2);
    assert_eq!(app.handle_enter(), Some("http://localhost:3000".to_string()));
}

#[test]
fn test_new_trims_trailing_slashes() {
    let app = App::new("http://localhost:3000///", 50);
    assert_eq!(app.open_website(), "http://localhost:3000");
    assert_eq!(app.limit, 50);
    assert_eq!(app.loading_state, LoadingState::Loading);
    assert_eq!(app.selected, None);
    assert!(!app.should_quit);
    assert!(!app.needs_refresh);
    assert_eq!(app.last_error, None);
}

#[test]
fn test_quit_and_refresh_flags_and_errors() {
    let mut app = create_test_app();
    app.mark_for_refresh();
    assert!(app.needs_refresh);
    app.set_last_error("Failed to open browser: denied".to_string());
    assert_eq!(app.last_error, Some("Failed to open browser: denied".to_string()));
    app.clear_last_error();
    assert_eq!(app.last_error, None);
    app.quit();
    assert!(app.should_quit);
}

#[test]
fn test_collapse_all() {
    let mut app = create_test_app();
    app.toggle_expand();
    app.next();
    app.toggle_expand();
    app.collapse_all();
    assert!(!app.is_current_expanded());
    app.previous();
    assert!(!app.is_current_expanded());
}
