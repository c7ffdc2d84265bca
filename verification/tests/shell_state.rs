use reader_shell::app::{main_content_text, nav_label, ActiveView, AppState, ThemeMode};
use reader_shell::layout::{CHAT_PANEL_WIDTH_PX, SIDEBAR_WIDTH_PX};
use reader_shell::my_app;

fn targets(s: &AppState) -> Vec<ActiveView> {
    s.sidebar().iter().map(|i| i.target).collect()
}

#[test]
fn initial_state() {
    let s = AppState::new();
    assert_eq!(s.active_view, ActiveView::Bookshelf);
    assert!(matches!(s.theme_mode, ThemeMode::Dark));
    assert_eq!(s.colors.bg, 0x1e1e1e);
    assert!(!s.has_active_book);
    assert!(!s.chat_panel_visible);
}

#[test]
fn initial_layout() {
    let s = AppState::new();
    let l = s.layout();
    assert_eq!(l.background, 0x1e1e1e);
    assert_eq!(l.text_color, 0xe0e0e0);
    assert_eq!(l.sidebar_width_px, SIDEBAR_WIDTH_PX);
    assert_eq!(l.sidebar_width_px, 56);
    assert_eq!(l.nav_item_height_px, 48);
    assert_eq!(l.sidebar_background, 0x2d2d2d);
    assert_eq!(l.nav_items.len(), 3);
    assert!(l.nav_items[0].highlighted);
    assert_eq!(l.nav_items[0].selection_bar, Some(0x007acc));
    assert_eq!(l.nav_items[0].background, None);
    assert!(!l.nav_items[1].highlighted);
    assert_eq!(l.nav_items[1].selection_bar, None);
    assert_eq!(l.nav_items[1].background, None);
    assert_eq!(l.main_text, "书库视图（后续 Plan 实现）");
    assert!(l.chat_panel.is_none());
}

#[test]
fn reading_item_only_with_book() {
    let mut s = AppState::new();
    assert_eq!(targets(&s), vec![ActiveView::Bookshelf, ActiveView::Vocabulary, ActiveView::Settings]);
    s.has_active_book = true;
    assert_eq!(
        targets(&s),
        vec![ActiveView::Bookshelf, ActiveView::CurrentReading, ActiveView::Vocabulary, ActiveView::Settings]
    );
}

#[test]
fn navigation_highlights_clicked_item() {
    let mut s = AppState::new();
    s.has_active_book = true;
    s.select_view(ActiveView::CurrentReading);
    let items = s.sidebar();
    let lit: Vec<bool> = items.iter().map(|i| i.highlighted).collect();
    assert_eq!(lit, vec![false, true, false, false]);
    assert_eq!(s.main_content(), "阅读视图（后续 Plan 实现）");
    s.select_view(ActiveView::Settings);
    s.select_view(ActiveView::Vocabulary);
    assert_eq!(s.active_view, ActiveView::Vocabulary);
    assert_eq!(s.main_content(), "词汇本视图（后续 Plan 实现）");
    assert!(s.has_active_book);
    assert!(!s.chat_panel_visible);
}

#[test]
fn reading_view_without_book_highlights_nothing() {
    let mut s = AppState::new();
    s.select_view(ActiveView::CurrentReading);
    assert!(s.sidebar().iter().all(|i| !i.highlighted));
    assert_eq!(s.main_content(), "阅读视图（后续 Plan 实现）");
}

#[test]
fn chat_panel_show_and_close() {
    let mut s = AppState::new();
    assert_eq!(s.chat_panel_width(), 0);
    s.chat_panel_visible = true;
    assert_eq!(s.chat_panel_width(), CHAT_PANEL_WIDTH_PX);
    assert_eq!(s.chat_panel_width(), 320);
    let p = s.chat_panel().unwrap();
    assert_eq!(p.width_px, 320);
    assert_eq!(p.header_height_px, 36);
    assert_eq!(p.background, 0x2d2d2d);
    assert_eq!(p.divider_color, 0x888888);
    assert_eq!(p.title, "对话面板");
    assert_eq!(p.close_label, "✕");
    assert_eq!(p.messages_placeholder, "消息区域占位");
    assert_eq!(p.input_placeholder, "输入区域占位");
    s.close_chat_panel();
    assert!(!s.chat_panel_visible);
    assert!(s.chat_panel().is_none());
    assert_eq!(s.chat_panel_width(), 0);
    s.close_chat_panel();
    assert!(!s.chat_panel_visible);
    assert_eq!(s.active_view, ActiveView::Bookshelf);
}

#[test]
fn labels_and_texts() {
    assert_eq!(nav_label(ActiveView::Bookshelf), "📚");
    assert_eq!(nav_label(ActiveView::CurrentReading), "📖");
    assert_eq!(nav_label(ActiveView::Vocabulary), "📝");
    assert_eq!(nav_label(ActiveView::Settings), "⚙");
    assert_eq!(main_content_text(ActiveView::Settings), "设置视图（后续 Plan 实现）");
    let all = [ActiveView::Bookshelf, ActiveView::CurrentReading, ActiveView::Vocabulary, ActiveView::Settings];
    for a in all {
        for b in all {
            if a != b {
                assert_ne!(main_content_text(a), main_content_text(b));
                assert_ne!(nav_label(a), nav_label(b));
            }
        }
    }
}

#[test]
fn single_render_shell_matches() {
    let mut s = my_app::AppState::new();
    assert_eq!(s.active_view, my_app::ActiveView::Bookshelf);
    assert!(!s.chat_visible);
    let l = s.layout();
    assert_eq!(l.nav_items.len(), 3);
    assert!(l.nav_items[0].highlighted);
    assert_eq!(l.main_text, "📚 书库视图（后续 Plan 实现）");
    assert!(l.chat_panel.is_none());
    s.has_active_book = true;
    s.chat_visible = true;
    s.select_view(my_app::ActiveView::CurrentReading);
    let l = s.layout();
    let lit: Vec<bool> = l.nav_items.iter().map(|i| i.highlighted).collect();
    assert_eq!(lit, vec![false, true, false, false]);
    assert_eq!(l.nav_items[1].background, Some(0x007acc));
    assert_eq!(l.nav_items[1].selection_bar, None);
    assert_eq!(l.nav_items[0].background, None);
    assert_eq!(l.chat_panel.as_ref().unwrap().title, "💬 对话面板");
    assert_eq!(l.main_text, "📖 阅读视图（后续 Plan 实现）");
    assert_eq!(l.chat_panel.as_ref().unwrap().width_px, 320);
    assert_eq!(l.chat_panel.as_ref().unwrap().background, 0x2d2d2d);
    s.close_chat();
    assert!(s.layout().chat_panel.is_none());
    assert_eq!(my_app::nav_label(my_app::ActiveView::Vocabulary), "📝");
}
