//! The appearance settings and their defaults.

use vstd::prelude::*;

use crate::config::colorref::Color;

verus! {

/// All appearance settings.
pub struct Config {
    pub font: FontConfig,
    pub fence: FenceConfig,
    pub icon: IconConfig,
}

impl Default for Config {
    /// Every part at its own default.
    fn default() -> (r: Self)
        ensures
            r.font.family@ == "Segoe UI"@,
            r.font.size == 16,
            r.fence.border_thickness == 3,
            r.fence.title_bar_height == 24,
            r.fence.padding == 10,
            r.fence.spacing == 10,
            r.fence.title_text_color.0 == 0x00FFFFFF,
            r.fence.title_bar_bg_color.0 == 0x00323232,
            r.fence.scroll_area_bg_color.0 == 0xFF7D7D7D,
            r.fence.fence_bg_color.0 == 0x00323232,
            r.icon.size == 64,
            r.icon.selected_bg_color.0 == 0x00FFAA44,
            r.icon.unselected_bg_color.0 == 0x007D7D7D,
            r.icon.text_color.0 == 0x00FFFFFF,
            r.icon.icon_size_draw == 32,
    {
        Config { font: FontConfig::default(), fence: FenceConfig::default(), icon: IconConfig::default() }
    }
}

/// The font all text is drawn in.
pub struct FontConfig {
    pub family: String,
    pub size: i32,
}

impl Default for FontConfig {
    fn default() -> (r: Self)
        ensures
            r.family@ == "Segoe UI"@,
            r.size == 16,
    {
        FontConfig { family: String::from_str("Segoe UI"), size: 16 }
    }
}

/// The look of a fence.
pub struct FenceConfig {
    pub border_thickness: i32,
    pub title_bar_height: i32,
    pub padding: i32,
    pub spacing: i32,
    pub title_text_color: Color<false>,
    pub title_bar_bg_color: Color<false>,
    pub scroll_area_bg_color: Color<true>,
    /// Alpha is not carried: colour-key transparency does not combine with it.
    pub fence_bg_color: Color<false>,
}

impl Default for FenceConfig {
    fn default() -> (r: Self)
        ensures
            r.border_thickness == 3,
            r.title_bar_height == 24,
            r.padding == 10,
            r.spacing == 10,
            r.title_text_color.0 == 0x00FFFFFF,
            r.title_bar_bg_color.0 == 0x00323232,
            r.scroll_area_bg_color.0 == 0xFF7D7D7D,
            r.fence_bg_color.0 == 0x00323232,
    {
        FenceConfig {
            border_thickness: 3,
            title_bar_height: 24,
            padding: 10,
            spacing: 10,
            title_text_color: Color(0x00FFFFFF),
            title_bar_bg_color: Color(0x00323232),
            scroll_area_bg_color: Color(0xFF7D7D7D),
            fence_bg_color: Color(0x00323232),
        }
    }
}

/// The look of an icon.
pub struct IconConfig {
    pub size: i32,
    pub selected_bg_color: Color<true>,
    pub unselected_bg_color: Color<true>,
    pub text_color: Color<false>,
    pub icon_size_draw: i32,
}

impl Default for IconConfig {
    fn default() -> (r: Self)
        ensures
            r.size == 64,
            r.selected_bg_color.0 == 0x00FFAA44,
            r.unselected_bg_color.0 == 0x007D7D7D,
            r.text_color.0 == 0x00FFFFFF,
            r.icon_size_draw == 32,
    {
        IconConfig {
            size: 64,
            selected_bg_color: Color(0x00FFAA44),
            unselected_bg_color: Color(0x007D7D7D),
            text_color: Color(0x00FFFFFF),
            icon_size_draw: 32,
        }
    }
}

} // verus!
