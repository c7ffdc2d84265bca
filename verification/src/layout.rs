//! What the shell shows, as plain values: the renderer turns a
//! [`ShellLayout`] into elements and nothing else.
use vstd::prelude::*;

verus! {

/// Width of the navigation sidebar, in pixels.
pub const SIDEBAR_WIDTH_PX: u32 = 56;

/// Height of one navigation item, in pixels.
pub const NAV_ITEM_HEIGHT_PX: u32 = 48;

/// Width of the selection bar at the left edge of a selected item, in pixels.
pub const SELECTION_BAR_WIDTH_PX: u32 = 3;

/// Width of the chat panel while it is shown, in pixels.
pub const CHAT_PANEL_WIDTH_PX: u32 = 320;

/// Height of the chat panel's title bar, in pixels.
pub const CHAT_HEADER_HEIGHT_PX: u32 = 36;

/// One entry of the navigation sidebar.
pub struct NavItem<V> {
    /// The view that a click on this item activates.
    pub target: V,
    /// Whether this item is the active one.
    pub highlighted: bool,
    /// Background of the whole item, if it has one.
    pub background: Option<u32>,
    /// Colour of the full-height selection bar drawn at the item's left
    /// edge, `SELECTION_BAR_WIDTH_PX` wide, if the item has one.
    pub selection_bar: Option<u32>,
}

/// The chat panel on the right, while it is shown.
pub struct ChatPanel {
    pub width_px: u32,
    pub header_height_px: u32,
    pub background: u32,
    /// Colour of the line above the input area.
    pub divider_color: u32,
    pub title: &'static str,
    pub close_label: &'static str,
    pub messages_placeholder: &'static str,
    pub input_placeholder: &'static str,
}

/// The whole window: sidebar, main content and optional chat panel.
pub struct ShellLayout<V> {
    pub background: u32,
    pub text_color: u32,
    pub sidebar_width_px: u32,
    pub sidebar_background: u32,
    pub nav_item_height_px: u32,
    /// The sidebar entries, top to bottom.
    pub nav_items: Vec<NavItem<V>>,
    /// The placeholder text of the main content area.
    pub main_text: &'static str,
    /// The chat panel, or `None` while it is hidden.
    pub chat_panel: Option<ChatPanel>,
}

/// The chat panel titled `title`, drawn on the given background, with the
/// given divider.
pub open spec fn spec_chat_panel(title: &'static str, background: u32, divider_color: u32) -> ChatPanel {
    ChatPanel {
        width_px: CHAT_PANEL_WIDTH_PX,
        header_height_px: CHAT_HEADER_HEIGHT_PX,
        background,
        divider_color,
        title,
        close_label: "✕",
        messages_placeholder: "消息区域占位",
        input_placeholder: "输入区域占位",
    }
}

/// Builds the chat panel titled `title`, drawn on `background`, with a
/// `divider_color` line above its input area.
pub fn chat_panel(title: &'static str, background: u32, divider_color: u32) -> (p: ChatPanel)
    ensures
        p == spec_chat_panel(title, background, divider_color),
{
    ChatPanel {
        width_px: CHAT_PANEL_WIDTH_PX,
        header_height_px: CHAT_HEADER_HEIGHT_PX,
        background,
        divider_color,
        title,
        close_label: "✕",
        messages_placeholder: "消息区域占位",
        input_placeholder: "输入区域占位",
    }
}

/// The shell's fixed sizes: a 56-pixel sidebar of 48-pixel items with a
/// 3-pixel selection bar, and a chat panel 320 pixels wide under a 36-pixel
/// title bar; a chat panel built for any title and colours has these sizes,
/// the close button "✕" and the two placeholders.
pub proof fn lemma_sizes(title: &'static str, background: u32, divider_color: u32)
    ensures
        SIDEBAR_WIDTH_PX == 56,
        NAV_ITEM_HEIGHT_PX == 48,
        SELECTION_BAR_WIDTH_PX == 3,
        CHAT_PANEL_WIDTH_PX == 320,
        CHAT_HEADER_HEIGHT_PX == 36,
        ({
            let p = spec_chat_panel(title, background, divider_color);
            &&& p.width_px == 320
            &&& p.header_height_px == 36
            &&& p.background == background
            &&& p.divider_color == divider_color
            &&& p.title == title
            &&& p.close_label@ == "✕"@
            &&& p.messages_placeholder@ == "消息区域占位"@
            &&& p.input_placeholder@ == "输入区域占位"@
        }),
{
}

} // verus!
