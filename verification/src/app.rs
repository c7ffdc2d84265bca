//! Application state of the three-column shell: which view is active, the
//! theme, whether a book is open and whether the chat panel is shown, with
//! the layout that the state yields and the state changes that clicks make.
use vstd::prelude::*;
use crate::layout::{
    chat_panel, spec_chat_panel, ChatPanel, NavItem, ShellLayout, CHAT_PANEL_WIDTH_PX,
    NAV_ITEM_HEIGHT_PX, SIDEBAR_WIDTH_PX,
};
use crate::theme::{dark_colors, light_colors, spec_dark_colors, spec_light_colors, ThemeColors};

verus! {

/// Title of the chat panel.
pub const CHAT_TITLE: &'static str = "对话面板";

/// The view shown in the main content area.
#[derive(PartialEq, Eq, Structural, Clone, Copy, Debug)]
pub enum ActiveView {
    /// The library of books; active at start.
    Bookshelf,
    /// The book being read; offered only while a book is open.
    CurrentReading,
    /// The vocabulary notebook.
    Vocabulary,
    /// The settings.
    Settings,
}

/// Dark or light theme.
pub enum ThemeMode {
    Dark,
    Light,
}

/// The whole state of the shell.
pub struct AppState {
    /// The view shown in the main content area.
    pub active_view: ActiveView,
    /// The theme in use.
    pub theme_mode: ThemeMode,
    /// The palette of the theme in use.
    pub colors: ThemeColors,
    /// Whether a book is open, which offers the "current reading" item.
    pub has_active_book: bool,
    /// Whether the chat panel is shown (320 pixels wide) or hidden (0).
    pub chat_panel_visible: bool,
}

/// The palette that belongs to a theme.
pub open spec fn spec_colors_for(mode: ThemeMode) -> ThemeColors {
    match mode {
        ThemeMode::Dark => spec_dark_colors(),
        ThemeMode::Light => spec_light_colors(),
    }
}

/// The icon of the navigation item that activates `view`.
pub open spec fn spec_nav_label(view: ActiveView) -> Seq<char> {
    match view {
        ActiveView::Bookshelf => "📚"@,
        ActiveView::CurrentReading => "📖"@,
        ActiveView::Vocabulary => "📝"@,
        ActiveView::Settings => "⚙"@,
    }
}

/// The placeholder shown in the main content area for `view`.
pub open spec fn spec_main_text(view: ActiveView) -> Seq<char> {
    match view {
        ActiveView::Bookshelf => "书库视图（后续 Plan 实现）"@,
        ActiveView::CurrentReading => "阅读视图（后续 Plan 实现）"@,
        ActiveView::Vocabulary => "词汇本视图（后续 Plan 实现）"@,
        ActiveView::Settings => "设置视图（后续 Plan 实现）"@,
    }
}

/// The icon of the navigation item that activates `view`.
pub fn nav_label(view: ActiveView) -> (label: &'static str)
    ensures
        label@ == spec_nav_label(view),
{
    match view {
        ActiveView::Bookshelf => "📚",
        ActiveView::CurrentReading => "📖",
        ActiveView::Vocabulary => "📝",
        ActiveView::Settings => "⚙",
    }
}

/// The placeholder shown in the main content area for `view`.
pub fn main_content_text(view: ActiveView) -> (text: &'static str)
    ensures
        text@ == spec_main_text(view),
{
    match view {
        ActiveView::Bookshelf => "书库视图（后续 Plan 实现）",
        ActiveView::CurrentReading => "阅读视图（后续 Plan 实现）",
        ActiveView::Vocabulary => "词汇本视图（后续 Plan 实现）",
        ActiveView::Settings => "设置视图（后续 Plan 实现）",
    }
}

impl AppState {
    /// The sidebar item for `view`: exactly when `view` is the active view it
    /// is highlighted and carries an accent-coloured selection bar at its left
    /// edge; the item itself has no background of its own.
    pub open spec fn spec_nav_item(self, view: ActiveView) -> NavItem<ActiveView> {
        NavItem {
            target: view,
            highlighted: self.active_view == view,
            background: None,
            selection_bar: if self.active_view == view {
                Some(self.colors.accent)
            } else {
                None
            },
        }
    }

    /// The sidebar, top to bottom: bookshelf, current reading (only while a
    /// book is open), vocabulary, settings.
    pub open spec fn spec_sidebar(self) -> Seq<NavItem<ActiveView>> {
        let top = seq![self.spec_nav_item(ActiveView::Bookshelf)];
        let top = if self.has_active_book {
            top.push(self.spec_nav_item(ActiveView::CurrentReading))
        } else {
            top
        };
        top.push(self.spec_nav_item(ActiveView::Vocabulary)).push(
            self.spec_nav_item(ActiveView::Settings),
        )
    }

    /// The chat panel, or `None` while it is hidden.
    pub open spec fn spec_chat_panel(self) -> Option<ChatPanel> {
        if self.chat_panel_visible {
            Some(spec_chat_panel(CHAT_TITLE, self.colors.secondary_bg, self.colors.text_secondary))
        } else {
            None
        }
    }

    /// Width of the chat column: 320 pixels while shown, 0 while hidden.
    pub open spec fn spec_chat_width(self) -> u32 {
        if self.chat_panel_visible {
            CHAT_PANEL_WIDTH_PX
        } else {
            0
        }
    }

    /// The state after a click on the navigation item for `view`.
    pub open spec fn spec_select(self, view: ActiveView) -> AppState {
        AppState { active_view: view, ..self }
    }

    /// The state after a click on the chat panel's close button.
    pub open spec fn spec_close_chat(self) -> AppState {
        AppState { chat_panel_visible: false, ..self }
    }

    /// The initial state: bookshelf, dark theme with its palette, no open
    /// book, chat panel hidden.
    pub fn new() -> (s: Self)
        ensures
            s.active_view == ActiveView::Bookshelf,
            s.theme_mode == ThemeMode::Dark,
            s.colors == spec_colors_for(s.theme_mode),
            s.colors == spec_dark_colors(),
            !s.has_active_book,
            !s.chat_panel_visible,
    {
        let theme_mode = ThemeMode::Dark;
        let colors = match theme_mode {
            ThemeMode::Dark => dark_colors(),
            ThemeMode::Light => light_colors(),
        };
        AppState {
            active_view: ActiveView::Bookshelf,
            theme_mode,
            colors,
            has_active_book: false,
            chat_panel_visible: false,
        }
    }

    /// The sidebar item for `view`.
    fn nav_item(&self, view: ActiveView) -> (item: NavItem<ActiveView>)
        ensures
            item == self.spec_nav_item(view),
    {
        let is_selected = self.active_view == view;
        if is_selected {
            NavItem {
                target: view,
                highlighted: true,
                background: None,
                selection_bar: Some(self.colors.accent),
            }
        } else {
            NavItem { target: view, highlighted: false, background: None, selection_bar: None }
        }
    }

    /// The "current reading" item, or `None` while no book is open.
    fn current_reading_item(&self) -> (item: Option<NavItem<ActiveView>>)
        ensures
            item == (if self.has_active_book {
                Some(self.spec_nav_item(ActiveView::CurrentReading))
            } else {
                None
            }),
    {
        if !self.has_active_book {
            return None;
        }
        Some(self.nav_item(ActiveView::CurrentReading))
    }

    /// The sidebar entries, top to bottom.
    pub fn sidebar(&self) -> (items: Vec<NavItem<ActiveView>>)
        ensures
            items@ == self.spec_sidebar(),
    {
        let mut items: Vec<NavItem<ActiveView>> = Vec::new();
        items.push(self.nav_item(ActiveView::Bookshelf));
        match self.current_reading_item() {
            Some(item) => items.push(item),
            None => {},
        }
        items.push(self.nav_item(ActiveView::Vocabulary));
        items.push(self.nav_item(ActiveView::Settings));
        items
    }

    /// The placeholder text of the main content area.
    pub fn main_content(&self) -> (text: &'static str)
        ensures
            text@ == spec_main_text(self.active_view),
    {
        main_content_text(self.active_view)
    }

    /// The chat panel, or `None` while it is hidden.
    pub fn chat_panel(&self) -> (panel: Option<ChatPanel>)
        ensures
            panel == self.spec_chat_panel(),
    {
        if !self.chat_panel_visible {
            return None;
        }
        Some(chat_panel(CHAT_TITLE, self.colors.secondary_bg, self.colors.text_secondary))
    }

    /// Width of the chat column, in pixels.
    pub fn chat_panel_width(&self) -> (w: u32)
        ensures
            w == self.spec_chat_width(),
    {
        if self.chat_panel_visible {
            CHAT_PANEL_WIDTH_PX
        } else {
            0
        }
    }

    /// The whole window for this state.
    pub fn layout(&self) -> (l: ShellLayout<ActiveView>)
        ensures
            l.background == self.colors.bg,
            l.text_color == self.colors.text,
            l.sidebar_width_px == SIDEBAR_WIDTH_PX,
            l.sidebar_background == self.colors.secondary_bg,
            l.nav_item_height_px == NAV_ITEM_HEIGHT_PX,
            l.nav_items@ == self.spec_sidebar(),
            l.main_text@ == spec_main_text(self.active_view),
            l.chat_panel == self.spec_chat_panel(),
    {
        ShellLayout {
            background: self.colors.bg,
            text_color: self.colors.text,
            sidebar_width_px: SIDEBAR_WIDTH_PX,
            sidebar_background: self.colors.secondary_bg,
            nav_item_height_px: NAV_ITEM_HEIGHT_PX,
            nav_items: self.sidebar(),
            main_text: self.main_content(),
            chat_panel: self.chat_panel(),
        }
    }

    /// A click on the navigation item for `view`: `view` becomes the active
    /// view and nothing else changes.
    pub fn select_view(&mut self, view: ActiveView)
        ensures
            *final(self) == old(self).spec_select(view),
            final(self).active_view == view,
            final(self).colors == old(self).colors,
            final(self).has_active_book == old(self).has_active_book,
            final(self).chat_panel_visible == old(self).chat_panel_visible,
            final(self).theme_mode == old(self).theme_mode,
    {
        self.active_view = view;
    }

    /// A click on the chat panel's close button: the panel is hidden and
    /// nothing else changes.
    pub fn close_chat_panel(&mut self)
        ensures
            *final(self) == old(self).spec_close_chat(),
            !final(self).chat_panel_visible,
            final(self).active_view == old(self).active_view,
            final(self).colors == old(self).colors,
            final(self).has_active_book == old(self).has_active_book,
            final(self).theme_mode == old(self).theme_mode,
    {
        self.chat_panel_visible = false;
    }
}

/// Sidebar items are highlighted exactly when they target the active view; a
/// highlighted item carries the accent-coloured selection bar, and no item
/// has a background of its own.
pub proof fn lemma_highlight_marks_active_view(s: AppState)
    ensures
        forall|i: int|
            0 <= i < s.spec_sidebar().len() ==> {
                let item = #[trigger] s.spec_sidebar()[i];
                &&& (item.highlighted <==> item.target == s.active_view)
                &&& item.selection_bar == (if item.highlighted {
                    Some(s.colors.accent)
                } else {
                    None
                })
                &&& item.background is None
            },
{
}

/// The sidebar offers bookshelf, vocabulary and settings always and the
/// "current reading" item exactly while a book is open, each view at most
/// once; so at most one item is highlighted, and exactly one whenever the
/// active view is offered.
pub proof fn lemma_sidebar_shape(s: AppState)
    ensures
        s.spec_sidebar().len() == (if s.has_active_book { 4int } else { 3int }),
        forall|i: int, j: int|
            0 <= i < j < s.spec_sidebar().len() ==> #[trigger] s.spec_sidebar()[i].target
                != #[trigger] s.spec_sidebar()[j].target,
        (exists|i: int|
            0 <= i < s.spec_sidebar().len() && #[trigger] s.spec_sidebar()[i].target
                == ActiveView::CurrentReading) <==> s.has_active_book,
        forall|i: int, j: int|
            0 <= i < s.spec_sidebar().len() && 0 <= j < s.spec_sidebar().len()
                && #[trigger] s.spec_sidebar()[i].highlighted
                && #[trigger] s.spec_sidebar()[j].highlighted ==> i == j,
        (s.active_view != ActiveView::CurrentReading || s.has_active_book) ==> exists|i: int|
            0 <= i < s.spec_sidebar().len() && #[trigger] s.spec_sidebar()[i].highlighted,
{
    let sb = s.spec_sidebar();
    if s.has_active_book {
        assert(sb[1].target == ActiveView::CurrentReading);
        if s.active_view == ActiveView::Bookshelf {
            assert(sb[0].highlighted);
        } else if s.active_view == ActiveView::CurrentReading {
            assert(sb[1].highlighted);
        } else if s.active_view == ActiveView::Vocabulary {
            assert(sb[2].highlighted);
        } else {
            assert(sb[3].highlighted);
        }
    } else {
        if s.active_view == ActiveView::Bookshelf {
            assert(sb[0].highlighted);
        } else if s.active_view == ActiveView::Vocabulary {
            assert(sb[1].highlighted);
        } else if s.active_view == ActiveView::Settings {
            assert(sb[2].highlighted);
        }
    }
}

/// A click on a navigation item makes its view the active one and the only
/// highlighted item; the last click wins, and clicking the active item again
/// changes nothing. Clicks leave the book, the theme and the chat panel alone.
pub proof fn lemma_navigation(s: AppState, v: ActiveView, w: ActiveView)
    ensures
        s.spec_select(v).active_view == v,
        s.spec_select(v).spec_select(w) == s.spec_select(w),
        s.spec_select(v).spec_select(v) == s.spec_select(v),
        s.spec_select(s.active_view) == s,
        forall|i: int|
            0 <= i < s.spec_select(v).spec_sidebar().len() ==> (
            #[trigger] s.spec_select(v).spec_sidebar()[i].highlighted
                <==> s.spec_select(v).spec_sidebar()[i].target == v),
        s.spec_select(v).spec_sidebar().len() == s.spec_sidebar().len(),
        s.spec_select(v).spec_chat_panel() == s.spec_chat_panel(),
        s.spec_select(v).colors == s.colors,
        s.spec_select(v).theme_mode == s.theme_mode,
        s.spec_select(v).has_active_book == s.has_active_book,
        spec_main_text(s.spec_select(v).active_view) == spec_main_text(v),
{
    lemma_highlight_marks_active_view(s.spec_select(v));
}

/// The chat column is 320 pixels wide while the panel is shown and 0 while
/// hidden; closing hides it, closing twice is closing once, and closing
/// changes neither the sidebar nor the main content.
pub proof fn lemma_chat_panel(s: AppState)
    ensures
        (s.spec_chat_width() == CHAT_PANEL_WIDTH_PX) <==> s.chat_panel_visible,
        (s.spec_chat_width() == 0) <==> !s.chat_panel_visible,
        s.spec_chat_panel() is Some <==> s.chat_panel_visible,
        s.spec_chat_panel() is Some ==> s.spec_chat_panel()->0.width_px == s.spec_chat_width(),
        s.spec_close_chat().spec_chat_width() == 0,
        s.spec_close_chat().spec_chat_panel() is None,
        s.spec_close_chat().spec_close_chat() == s.spec_close_chat(),
        s.spec_close_chat().spec_sidebar() == s.spec_sidebar(),
        s.spec_close_chat().active_view == s.active_view,
{
}

/// Different views show different placeholders, and their navigation items
/// different icons, so a click that changes the view changes the main text.
pub proof fn lemma_views_are_told_apart(v: ActiveView, w: ActiveView)
    ensures
        v != w ==> spec_main_text(v) != spec_main_text(w),
        v != w ==> spec_nav_label(v) != spec_nav_label(w),
{
    reveal_strlit("书库视图（后续 Plan 实现）");
    reveal_strlit("阅读视图（后续 Plan 实现）");
    reveal_strlit("词汇本视图（后续 Plan 实现）");
    reveal_strlit("设置视图（后续 Plan 实现）");
    reveal_strlit("📚");
    reveal_strlit("📖");
    reveal_strlit("📝");
    reveal_strlit("⚙");
    if v != w {
        assert(spec_main_text(v)[0] != spec_main_text(w)[0]);
        assert(spec_nav_label(v)[0] != spec_nav_label(w)[0]);
    }
}

/// The sidebar's entries come in a fixed order whatever the active view:
/// bookshelf, then "current reading" exactly while a book is open, then
/// vocabulary, then settings; a click changes which one is highlighted but
/// neither the entries nor their order.
pub proof fn lemma_sidebar_order(s: AppState, v: ActiveView)
    ensures
        s.spec_sidebar().map_values(|i: NavItem<ActiveView>| i.target) == (if s.has_active_book {
            seq![
                ActiveView::Bookshelf,
                ActiveView::CurrentReading,
                ActiveView::Vocabulary,
                ActiveView::Settings,
            ]
        } else {
            seq![ActiveView::Bookshelf, ActiveView::Vocabulary, ActiveView::Settings]
        }),
        s.spec_select(v).spec_sidebar().map_values(|i: NavItem<ActiveView>| i.target)
            == s.spec_sidebar().map_values(|i: NavItem<ActiveView>| i.target),
{
    assert(s.spec_sidebar().map_values(|i: NavItem<ActiveView>| i.target) =~= (if s.has_active_book {
        seq![
            ActiveView::Bookshelf,
            ActiveView::CurrentReading,
            ActiveView::Vocabulary,
            ActiveView::Settings,
        ]
    } else {
        seq![ActiveView::Bookshelf, ActiveView::Vocabulary, ActiveView::Settings]
    }));
    assert(s.spec_select(v).spec_sidebar().map_values(|i: NavItem<ActiveView>| i.target)
        =~= s.spec_sidebar().map_values(|i: NavItem<ActiveView>| i.target));
}

/// A click on the item for `v` makes `v` the active view and changes nothing
/// else; closing the chat panel hides it and changes nothing else.
pub proof fn lemma_click_effects(s: AppState, v: ActiveView)
    ensures
        s.spec_select(v).active_view == v,
        s.spec_select(v).colors == s.colors,
        s.spec_select(v).has_active_book == s.has_active_book,
        s.spec_select(v).chat_panel_visible == s.chat_panel_visible,
        s.spec_select(v).theme_mode == s.theme_mode,
        !s.spec_close_chat().chat_panel_visible,
        s.spec_close_chat().active_view == s.active_view,
        s.spec_close_chat().colors == s.colors,
        s.spec_close_chat().has_active_book == s.has_active_book,
        s.spec_close_chat().theme_mode == s.theme_mode,
{
}

/// Each view has its own placeholder, never shared with another view, and
/// every placeholder names a view: it ends with "视图（后续 Plan 实现）".
pub proof fn lemma_placeholders(v: ActiveView, w: ActiveView)
    ensures
        v != w ==> spec_main_text(v) != spec_main_text(w),
        v != w ==> spec_nav_label(v) != spec_nav_label(w),
        spec_main_text(v).len() > "视图（后续 Plan 实现）"@.len(),
        spec_main_text(v).skip(spec_main_text(v).len() - "视图（后续 Plan 实现）"@.len())
            == "视图（后续 Plan 实现）"@,
{
    reveal_strlit("书库视图（后续 Plan 实现）");
    reveal_strlit("阅读视图（后续 Plan 实现）");
    reveal_strlit("词汇本视图（后续 Plan 实现）");
    reveal_strlit("设置视图（后续 Plan 实现）");
    reveal_strlit("📚");
    reveal_strlit("📖");
    reveal_strlit("📝");
    reveal_strlit("⚙");
    reveal_strlit("视图（后续 Plan 实现）");
    if v != w {
        assert(spec_main_text(v)[0] != spec_main_text(w)[0]);
        assert(spec_nav_label(v)[0] != spec_nav_label(w)[0]);
    }
    assert(spec_main_text(v).skip(spec_main_text(v).len() - "视图（后续 Plan 实现）"@.len())
        =~= "视图（后续 Plan 实现）"@);
}

/// A shown chat panel is 320 pixels wide with a 36-pixel title bar, titled
/// "对话面板", has the close button "✕", the message and input placeholders,
/// the panel background of the palette and a divider in its secondary text
/// colour.
pub proof fn lemma_chat_panel_contents(s: AppState)
    ensures
        s.spec_chat_panel() is Some <==> s.chat_panel_visible,
        s.spec_chat_panel() is Some ==> {
            let p = s.spec_chat_panel()->0;
            &&& p.width_px == 320
            &&& p.header_height_px == 36
            &&& p.background == s.colors.secondary_bg
            &&& p.divider_color == s.colors.text_secondary
            &&& p.title@ == "对话面板"@
            &&& p.close_label@ == "✕"@
            &&& p.messages_placeholder@ == "消息区域占位"@
            &&& p.input_placeholder@ == "输入区域占位"@
        },
{
}

} // verus!
