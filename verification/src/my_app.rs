//! The single-render variant of the shell state: the same three columns,
//! computed in one pass, with the same navigation and chat panel behaviour.
use vstd::prelude::*;
use crate::layout::{
    chat_panel, spec_chat_panel, ChatPanel, NavItem, ShellLayout, CHAT_PANEL_WIDTH_PX,
    NAV_ITEM_HEIGHT_PX, SIDEBAR_WIDTH_PX,
};
use crate::my_theme::{dark, spec_dark, Colors};

verus! {

/// Title of the chat panel.
pub const CHAT_TITLE: &'static str = "💬 对话面板";

/// The view shown in the main content area.
#[derive(PartialEq, Eq, Structural, Clone, Copy, Debug)]
pub enum ActiveView {
    Bookshelf,
    CurrentReading,
    Vocabulary,
    Settings,
}

/// The whole state of the shell.
pub struct AppState {
    pub active_view: ActiveView,
    pub colors: Colors,
    pub has_active_book: bool,
    pub chat_visible: bool,
}

/// The placeholder shown in the main content area for `view`.
pub open spec fn spec_main_text(view: ActiveView) -> Seq<char> {
    match view {
        ActiveView::Bookshelf => "📚 书库视图（后续 Plan 实现）"@,
        ActiveView::CurrentReading => "📖 阅读视图（后续 Plan 实现）"@,
        ActiveView::Vocabulary => "📝 词汇本视图（后续 Plan 实现）"@,
        ActiveView::Settings => "⚙ 设置视图（后续 Plan 实现）"@,
    }
}

/// The icon of the navigation item that activates `view`.
pub open spec fn spec_nav_label(view: ActiveView) -> Seq<char> {
    match view {
        ActiveView::Bookshelf => "📚"@,
        ActiveView::CurrentReading => "📖"@,
        ActiveView::Vocabulary => "📝"@,
        ActiveView::Settings => "⚙"@,
    }
}

/// The icon of the navigation item that activates `view`.
pub fn nav_label(view: ActiveView) -> (label: &'static str)
    ensures
        label@ == spec_nav_label(view),
{
    match view {
        ActiveView::Bookshelf => "📚",
        ActiveView::CurrentReading => "📖",
        ActiveView::Vocabulary => "📝",
        ActiveView::Settings => "⚙",
    }
}

impl AppState {
    /// The sidebar item for `view`: exactly when `view` is the active view it
    /// is highlighted and its whole background is the accent colour.
    pub open spec fn spec_nav_item(self, view: ActiveView) -> NavItem<ActiveView> {
        NavItem {
            target: view,
            highlighted: self.active_view == view,
            background: if self.active_view == view {
                Some(self.colors.accent)
            } else {
                None
            },
            selection_bar: None,
        }
    }

    /// The sidebar, top to bottom; "current reading" only while a book is open.
    pub open spec fn spec_sidebar(self) -> Seq<NavItem<ActiveView>> {
        let top = seq![self.spec_nav_item(ActiveView::Bookshelf)];
        let top = if self.has_active_book {
            top.push(self.spec_nav_item(ActiveView::CurrentReading))
        } else {
            top
        };
        top.push(self.spec_nav_item(ActiveView::Vocabulary)).push(
            self.spec_nav_item(ActiveView::Settings),
        )
    }

    /// The chat panel, or `None` while it is hidden.
    pub open spec fn spec_chat_panel(self) -> Option<ChatPanel> {
        if self.chat_visible {
            Some(spec_chat_panel(CHAT_TITLE, self.colors.secondary, self.colors.text_secondary))
        } else {
            None
        }
    }

    /// The state after a click on the navigation item for `view`.
    pub open spec fn spec_select(self, view: ActiveView) -> AppState {
        AppState { active_view: view, ..self }
    }

    /// The state after a click on the chat panel's close button.
    pub open spec fn spec_close_chat(self) -> AppState {
        AppState { chat_visible: false, ..self }
    }

    /// The initial state: bookshelf, dark palette, no book, chat hidden.
    pub fn new() -> (s: Self)
        ensures
            s.active_view == ActiveView::Bookshelf,
            s.colors == spec_dark(),
            !s.has_active_book,
            !s.chat_visible,
    {
        AppState {
            active_view: ActiveView::Bookshelf,
            colors: dark(),
            has_active_book: false,
            chat_visible: false,
        }
    }

    /// The whole window for this state, computed in one pass.
    pub fn layout(&self) -> (l: ShellLayout<ActiveView>)
        ensures
            l.background == self.colors.bg,
            l.text_color == self.colors.text,
            l.sidebar_width_px == SIDEBAR_WIDTH_PX,
            l.sidebar_background == self.colors.secondary,
            l.nav_item_height_px == NAV_ITEM_HEIGHT_PX,
            l.nav_items@ == self.spec_sidebar(),
            l.main_text@ == spec_main_text(self.active_view),
            l.chat_panel == self.spec_chat_panel(),
    {
        let bookshelf_on = self.active_view == ActiveView::Bookshelf;
        let reading_on = self.active_view == ActiveView::CurrentReading;
        let vocab_on = self.active_view == ActiveView::Vocabulary;
        let settings_on = self.active_view == ActiveView::Settings;
        let accent = self.colors.accent;

        let mut items: Vec<NavItem<ActiveView>> = Vec::new();
        items.push(
            NavItem {
                target: ActiveView::Bookshelf,
                highlighted: bookshelf_on,
                background: if bookshelf_on { Some(accent) } else { None },
                selection_bar: None,
            },
        );
        if self.has_active_book {
            items.push(
                NavItem {
                    target: ActiveView::CurrentReading,
                    highlighted: reading_on,
                    background: if reading_on { Some(accent) } else { None },
                selection_bar: None,
                },
            );
        }
        items.push(
            NavItem {
                target: ActiveView::Vocabulary,
                highlighted: vocab_on,
                background: if vocab_on { Some(accent) } else { None },
                selection_bar: None,
            },
        );
        items.push(
            NavItem {
                target: ActiveView::Settings,
                highlighted: settings_on,
                background: if settings_on { Some(accent) } else { None },
                selection_bar: None,
            },
        );

        let main_text = match self.active_view {
            ActiveView::Bookshelf => "📚 书库视图（后续 Plan 实现）",
            ActiveView::CurrentReading => "📖 阅读视图（后续 Plan 实现）",
            ActiveView::Vocabulary => "📝 词汇本视图（后续 Plan 实现）",
            ActiveView::Settings => "⚙ 设置视图（后续 Plan 实现）",
        };

        let panel = if self.chat_visible {
            Some(chat_panel(CHAT_TITLE, self.colors.secondary, self.colors.text_secondary))
        } else {
            None
        };

        ShellLayout {
            background: self.colors.bg,
            text_color: self.colors.text,
            sidebar_width_px: SIDEBAR_WIDTH_PX,
            sidebar_background: self.colors.secondary,
            nav_item_height_px: NAV_ITEM_HEIGHT_PX,
            nav_items: items,
            main_text,
            chat_panel: panel,
        }
    }

    /// A click on the navigation item for `view`: it becomes the active view
    /// and nothing else changes.
    pub fn select_view(&mut self, view: ActiveView)
        ensures
            *final(self) == old(self).spec_select(view),
            final(self).active_view == view,
            final(self).colors == old(self).colors,
            final(self).has_active_book == old(self).has_active_book,
            final(self).chat_visible == old(self).chat_visible,
    {
        self.active_view = view;
    }

    /// A click on the chat panel's close button: the panel is hidden and
    /// nothing else changes.
    pub fn close_chat(&mut self)
        ensures
            *final(self) == old(self).spec_close_chat(),
            !final(self).chat_visible,
            final(self).active_view == old(self).active_view,
            final(self).colors == old(self).colors,
            final(self).has_active_book == old(self).has_active_book,
    {
        self.chat_visible = false;
    }
}

/// Items are highlighted exactly when they target the active view, and a
/// highlighted item has the accent as its whole background; at most
/// one is, and exactly one whenever the active view is offered; "current
/// reading" is offered exactly while a book is open.
pub proof fn lemma_sidebar_selection(s: AppState)
    ensures
        s.spec_sidebar().len() == (if s.has_active_book { 4int } else { 3int }),
        forall|i: int|
            0 <= i < s.spec_sidebar().len() ==> (#[trigger] s.spec_sidebar()[i].highlighted
                <==> s.spec_sidebar()[i].target == s.active_view),
        forall|i: int|
            0 <= i < s.spec_sidebar().len() ==> #[trigger] s.spec_sidebar()[i].background == (
            if s.spec_sidebar()[i].highlighted {
                Some(s.colors.accent)
            } else {
                None
            }) && s.spec_sidebar()[i].selection_bar is None,
        forall|i: int, j: int|
            0 <= i < s.spec_sidebar().len() && 0 <= j < s.spec_sidebar().len()
                && #[trigger] s.spec_sidebar()[i].highlighted
                && #[trigger] s.spec_sidebar()[j].highlighted ==> i == j,
        (exists|i: int|
            0 <= i < s.spec_sidebar().len() && #[trigger] s.spec_sidebar()[i].target
                == ActiveView::CurrentReading) <==> s.has_active_book,
        (s.active_view != ActiveView::CurrentReading || s.has_active_book) ==> exists|i: int|
            0 <= i < s.spec_sidebar().len() && #[trigger] s.spec_sidebar()[i].highlighted,
{
    let sb = s.spec_sidebar();
    if s.has_active_book {
        assert(sb[1].target == ActiveView::CurrentReading);
        if s.active_view == ActiveView::Bookshelf {
            assert(sb[0].highlighted);
        } else if s.active_view == ActiveView::CurrentReading {
            assert(sb[1].highlighted);
        } else if s.active_view == ActiveView::Vocabulary {
            assert(sb[2].highlighted);
        } else {
            assert(sb[3].highlighted);
        }
    } else {
        if s.active_view == ActiveView::Bookshelf {
            assert(sb[0].highlighted);
        } else if s.active_view == ActiveView::Vocabulary {
            assert(sb[1].highlighted);
        } else if s.active_view == ActiveView::Settings {
            assert(sb[2].highlighted);
        }
    }
}

/// The last navigation click wins and repeating it changes nothing; closing
/// the chat panel hides it, is idempotent and leaves the view alone; the
/// panel, while shown, is 320 pixels wide.
pub proof fn lemma_clicks(s: AppState, v: ActiveView, w: ActiveView)
    ensures
        s.spec_select(v).spec_select(w) == s.spec_select(w),
        s.spec_select(v).spec_select(v) == s.spec_select(v),
        s.spec_select(v).spec_chat_panel() == s.spec_chat_panel(),
        s.spec_close_chat().spec_chat_panel() is None,
        s.spec_close_chat().spec_close_chat() == s.spec_close_chat(),
        s.spec_close_chat().spec_sidebar() == s.spec_sidebar(),
        s.spec_chat_panel() is Some <==> s.chat_visible,
        s.spec_chat_panel() is Some ==> s.spec_chat_panel()->0.width_px == CHAT_PANEL_WIDTH_PX,
{
}

/// This shell shows the same navigation icons as `crate::app`'s, view for
/// view.
pub proof fn lemma_same_icons_as_app(v: ActiveView)
    ensures
        spec_nav_label(v) == crate::app::spec_nav_label(match v {
            ActiveView::Bookshelf => crate::app::ActiveView::Bookshelf,
            ActiveView::CurrentReading => crate::app::ActiveView::CurrentReading,
            ActiveView::Vocabulary => crate::app::ActiveView::Vocabulary,
            ActiveView::Settings => crate::app::ActiveView::Settings,
        }),
{
}

/// The sidebar's entries come in a fixed order whatever the active view:
/// bookshelf, then "current reading" exactly while a book is open, then
/// vocabulary, then settings; a click changes which one is highlighted but
/// neither the entries nor their order.
pub proof fn lemma_sidebar_order(s: AppState, v: ActiveView)
    ensures
        s.spec_sidebar().map_values(|i: NavItem<ActiveView>| i.target) == (if s.has_active_book {
            seq![
                ActiveView::Bookshelf,
                ActiveView::CurrentReading,
                ActiveView::Vocabulary,
                ActiveView::Settings,
            ]
        } else {
            seq![ActiveView::Bookshelf, ActiveView::Vocabulary, ActiveView::Settings]
        }),
        s.spec_select(v).spec_sidebar().map_values(|i: NavItem<ActiveView>| i.target)
            == s.spec_sidebar().map_values(|i: NavItem<ActiveView>| i.target),
{
    assert(s.spec_sidebar().map_values(|i: NavItem<ActiveView>| i.target) =~= (if s.has_active_book {
        seq![
            ActiveView::Bookshelf,
            ActiveView::CurrentReading,
            ActiveView::Vocabulary,
            ActiveView::Settings,
        ]
    } else {
        seq![ActiveView::Bookshelf, ActiveView::Vocabulary, ActiveView::Settings]
    }));
    assert(s.spec_select(v).spec_sidebar().map_values(|i: NavItem<ActiveView>| i.target)
        =~= s.spec_sidebar().map_values(|i: NavItem<ActiveView>| i.target));
}

/// A click on the item for `v` makes `v` the active view and changes nothing
/// else; closing the chat panel hides it and changes nothing else.
pub proof fn lemma_click_effects(s: AppState, v: ActiveView)
    ensures
        s.spec_select(v).active_view == v,
        s.spec_select(v).colors == s.colors,
        s.spec_select(v).has_active_book == s.has_active_book,
        s.spec_select(v).chat_visible == s.chat_visible,
        !s.spec_close_chat().chat_visible,
        s.spec_close_chat().active_view == s.active_view,
        s.spec_close_chat().colors == s.colors,
        s.spec_close_chat().has_active_book == s.has_active_book,
{
}

/// Each view has its own placeholder, never shared with another view, and
/// every placeholder names a view: it ends with "视图（后续 Plan 实现）", after
/// the view's icon and a space at its start.
pub proof fn lemma_placeholders(v: ActiveView, w: ActiveView)
    ensures
        v != w ==> spec_main_text(v) != spec_main_text(w),
        v != w ==> spec_nav_label(v) != spec_nav_label(w),
        spec_main_text(v).len() > "视图（后续 Plan 实现）"@.len(),
        spec_main_text(v).skip(spec_main_text(v).len() - "视图（后续 Plan 实现）"@.len())
            == "视图（后续 Plan 实现）"@,
        spec_main_text(v).take(spec_nav_label(v).len() as int) == spec_nav_label(v),
        spec_main_text(v)[spec_nav_label(v).len() as int] == ' ',
{
    reveal_strlit("📚 书库视图（后续 Plan 实现）");
    reveal_strlit("📖 阅读视图（后续 Plan 实现）");
    reveal_strlit("📝 词汇本视图（后续 Plan 实现）");
    reveal_strlit("⚙ 设置视图（后续 Plan 实现）");
    reveal_strlit("📚");
    reveal_strlit("📖");
    reveal_strlit("📝");
    reveal_strlit("⚙");
    reveal_strlit("视图（后续 Plan 实现）");
    if v != w {
        assert(spec_main_text(v)[0] != spec_main_text(w)[0]);
        assert(spec_nav_label(v)[0] != spec_nav_label(w)[0]);
    }
    assert(spec_main_text(v).skip(spec_main_text(v).len() - "视图（后续 Plan 实现）"@.len())
        =~= "视图（后续 Plan 实现）"@);
    assert(spec_main_text(v).take(spec_nav_label(v).len() as int) =~= spec_nav_label(v));
}

/// A shown chat panel is 320 pixels wide with a 36-pixel title bar, titled
/// "💬 对话面板", has the close button "✕", the message and input placeholders,
/// the panel background of the palette and a divider in its secondary text
/// colour.
pub proof fn lemma_chat_panel_contents(s: AppState)
    ensures
        s.spec_chat_panel() is Some <==> s.chat_visible,
        s.spec_chat_panel() is Some ==> {
            let p = s.spec_chat_panel()->0;
            &&& p.width_px == 320
            &&& p.header_height_px == 36
            &&& p.background == s.colors.secondary
            &&& p.divider_color == s.colors.text_secondary
            &&& p.title@ == "💬 对话面板"@
            &&& p.close_label@ == "✕"@
            &&& p.messages_placeholder@ == "消息区域占位"@
            &&& p.input_placeholder@ == "输入区域占位"@
        },
{
}

/// Each placeholder of this shell is the placeholder of `crate::app`'s shell
/// for the same view, preceded by the view's icon and a space.
pub proof fn lemma_placeholders_extend_app(v: ActiveView)
    ensures
        spec_main_text(v) == spec_nav_label(v) + seq![' '] + crate::app::spec_main_text(
            match v {
                ActiveView::Bookshelf => crate::app::ActiveView::Bookshelf,
                ActiveView::CurrentReading => crate::app::ActiveView::CurrentReading,
                ActiveView::Vocabulary => crate::app::ActiveView::Vocabulary,
                ActiveView::Settings => crate::app::ActiveView::Settings,
            },
        ),
{
    reveal_strlit("📚 书库视图（后续 Plan 实现）");
    reveal_strlit("📖 阅读视图（后续 Plan 实现）");
    reveal_strlit("📝 词汇本视图（后续 Plan 实现）");
    reveal_strlit("⚙ 设置视图（后续 Plan 实现）");
    reveal_strlit("书库视图（后续 Plan 实现）");
    reveal_strlit("阅读视图（后续 Plan 实现）");
    reveal_strlit("词汇本视图（后续 Plan 实现）");
    reveal_strlit("设置视图（后续 Plan 实现）");
    reveal_strlit("📚");
    reveal_strlit("📖");
    reveal_strlit("📝");
    reveal_strlit("⚙");
    assert(spec_main_text(v) =~= spec_nav_label(v) + seq![' '] + crate::app::spec_main_text(
        match v {
            ActiveView::Bookshelf => crate::app::ActiveView::Bookshelf,
            ActiveView::CurrentReading => crate::app::ActiveView::CurrentReading,
            ActiveView::Vocabulary => crate::app::ActiveView::Vocabulary,
            ActiveView::Settings => crate::app::ActiveView::Settings,
        },
    ));
}

} // verus!
