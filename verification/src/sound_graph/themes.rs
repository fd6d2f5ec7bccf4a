//! The colour themes the editor offers.
use vstd::prelude::*;

verus! {

/// A colour theme of the editor.
#[derive(Clone, Copy, Debug, PartialEq, Eq, Structural)]
pub enum AppTheme {
    Light,
    Dark,
    Blue,
    Green,
    Purple,
    Orange,
    Pink,
    Red,
    Yellow,
}

/// Every theme, in the order the editor lists them.
pub open spec fn all_themes() -> Seq<AppTheme> {
    seq![AppTheme::Light, AppTheme::Dark, AppTheme::Blue, AppTheme::Green, AppTheme::Purple, AppTheme::Orange, AppTheme::Pink, AppTheme::Red, AppTheme::Yellow]
}

impl AppTheme {
    /// The name under which the theme is shown.
    pub open spec fn label(self) -> Seq<char> {
        match self {
            AppTheme::Light => "Light"@,
            AppTheme::Dark => "Dark"@,
            AppTheme::Blue => "Blue"@,
            AppTheme::Green => "Green"@,
            AppTheme::Purple => "Purple"@,
            AppTheme::Orange => "Orange"@,
            AppTheme::Pink => "Pink"@,
            AppTheme::Red => "Red"@,
            AppTheme::Yellow => "Yellow"@,
        }
    }

    /// Every theme, in the order the editor lists them.
    pub fn all() -> (r: Vec<AppTheme>)
        ensures
            r@ == all_themes(),
    {
        vec![AppTheme::Light, AppTheme::Dark, AppTheme::Blue, AppTheme::Green, AppTheme::Purple, AppTheme::Orange, AppTheme::Pink, AppTheme::Red, AppTheme::Yellow]
    }

    /// The name under which the theme is shown.
    pub fn name(&self) -> (r: &'static str)
        ensures
            r@ == self.label(),
    {
        match self {
            AppTheme::Light => "Light",
            AppTheme::Dark => "Dark",
            AppTheme::Blue => "Blue",
            AppTheme::Green => "Green",
            AppTheme::Purple => "Purple",
            AppTheme::Orange => "Orange",
            AppTheme::Pink => "Pink",
            AppTheme::Red => "Red",
            AppTheme::Yellow => "Yellow",
        }
    }
}

/// A colour given by its red, green and blue components.
#[derive(Clone, Copy, Debug, PartialEq, Eq, Structural)]
pub struct Rgb {
    pub r: u8,
    pub g: u8,
    pub b: u8,
}

/// The colours a custom theme gives the editor, on top of the dark base
/// look; what it leaves out (stroke widths, rounding, shadows, the white of
/// pressed and hovered text) is the same for every custom theme.
#[derive(Clone, Copy, Debug, PartialEq, Eq, Structural)]
pub struct ThemePalette {
    /// Colour of the plain text.
    pub text: Rgb,
    /// Colour of the background of non-interactive widgets.
    pub noninteractive_bg_fill: Rgb,
    /// Colour of the foreground stroke of non-interactive widgets.
    pub noninteractive_fg_stroke: Rgb,
    /// Colour of the background stroke of non-interactive widgets.
    pub noninteractive_bg_stroke: Rgb,
    /// Colour of the background of widgets at rest.
    pub inactive_bg_fill: Rgb,
    /// Colour of the foreground stroke of widgets at rest.
    pub inactive_fg_stroke: Rgb,
    /// Colour of the background of widgets being used.
    pub active_bg_fill: Rgb,
    /// Colour of the background of hovered widgets.
    pub hovered_bg_fill: Rgb,
    /// Colour of the background of open widgets.
    pub open_bg_fill: Rgb,
    /// Colour of the background of selected text.
    pub selection_bg_fill: Rgb,
    /// Colour of the stroke of selected text.
    pub selection_stroke: Rgb,
    /// Colour of the hyperlinks.
    pub hyperlink: Rgb,
    /// Colour of the faint backgrounds.
    pub faint_bg: Rgb,
    /// Colour of the deepest backgrounds, such as text fields.
    pub extreme_bg: Rgb,
    /// Colour of the code backgrounds.
    pub code_bg: Rgb,
    /// Colour of the warnings.
    pub warn_fg: Rgb,
    /// Colour of the errors.
    pub error_fg: Rgb,
    /// Colour of the window background.
    pub window_fill: Rgb,
    /// Colour of the window outline.
    pub window_stroke: Rgb,
    /// Colour of the panel background.
    pub panel_fill: Rgb,
}

impl AppTheme {
    /// The colours of the theme; none for the light and dark themes, which
    /// use the editor's own light and dark looks unchanged.
    pub open spec fn spec_palette(self) -> Option<ThemePalette> {
        match self {
            AppTheme::Light => None,
            AppTheme::Dark => None,
            AppTheme::Blue => Some(ThemePalette {
                    text: Rgb { r: 220, g: 220, b: 255 },
                    noninteractive_bg_fill: Rgb { r: 25, g: 35, b: 65 },
                    noninteractive_fg_stroke: Rgb { r: 220, g: 220, b: 255 },
                    noninteractive_bg_stroke: Rgb { r: 50, g: 70, b: 100 },
                    inactive_bg_fill: Rgb { r: 40, g: 60, b: 110 },
                    inactive_fg_stroke: Rgb { r: 240, g: 240, b: 255 },
                    active_bg_fill: Rgb { r: 60, g: 90, b: 170 },
                    hovered_bg_fill: Rgb { r: 50, g: 75, b: 140 },
                    open_bg_fill: Rgb { r: 70, g: 100, b: 180 },
                    selection_bg_fill: Rgb { r: 40, g: 90, b: 200 },
                    selection_stroke: Rgb { r: 100, g: 150, b: 255 },
                    hyperlink: Rgb { r: 100, g: 150, b: 255 },
                    faint_bg: Rgb { r: 30, g: 40, b: 70 },
                    extreme_bg: Rgb { r: 15, g: 25, b: 50 },
                    code_bg: Rgb { r: 20, g: 30, b: 55 },
                    warn_fg: Rgb { r: 255, g: 200, b: 100 },
                    error_fg: Rgb { r: 255, g: 100, b: 100 },
                    window_fill: Rgb { r: 25, g: 35, b: 65 },
                    window_stroke: Rgb { r: 50, g: 70, b: 120 },
                    panel_fill: Rgb { r: 20, g: 30, b: 55 },
                }),
            AppTheme::Green => Some(ThemePalette {
                    text: Rgb { r: 220, g: 255, b: 220 },
                    noninteractive_bg_fill: Rgb { r: 25, g: 45, b: 30 },
                    noninteractive_fg_stroke: Rgb { r: 220, g: 255, b: 220 },
                    noninteractive_bg_stroke: Rgb { r: 50, g: 90, b: 60 },
                    inactive_bg_fill: Rgb { r: 35, g: 70, b: 45 },
                    inactive_fg_stroke: Rgb { r: 240, g: 255, b: 240 },
                    active_bg_fill: Rgb { r: 50, g: 120, b: 70 },
                    hovered_bg_fill: Rgb { r: 42, g: 95, b: 58 },
                    open_bg_fill: Rgb { r: 55, g: 130, b: 80 },
                    selection_bg_fill: Rgb { r: 45, g: 140, b: 85 },
                    selection_stroke: Rgb { r: 100, g: 200, b: 120 },
                    hyperlink: Rgb { r: 100, g: 200, b: 120 },
                    faint_bg: Rgb { r: 30, g: 50, b: 35 },
                    extreme_bg: Rgb { r: 15, g: 35, b: 20 },
                    code_bg: Rgb { r: 20, g: 40, b: 25 },
                    warn_fg: Rgb { r: 255, g: 200, b: 100 },
                    error_fg: Rgb { r: 255, g: 100, b: 100 },
                    window_fill: Rgb { r: 25, g: 45, b: 30 },
                    window_stroke: Rgb { r: 50, g: 90, b: 60 },
                    panel_fill: Rgb { r: 20, g: 40, b: 25 },
                }),
            AppTheme::Purple => Some(ThemePalette {
                    text: Rgb { r: 240, g: 220, b: 255 },
                    noninteractive_bg_fill: Rgb { r: 40, g: 25, b: 60 },
                    noninteractive_fg_stroke: Rgb { r: 240, g: 220, b: 255 },
                    noninteractive_bg_stroke: Rgb { r: 70, g: 50, b: 90 },
                    inactive_bg_fill: Rgb { r: 60, g: 40, b: 90 },
                    inactive_fg_stroke: Rgb { r: 250, g: 230, b: 255 },
                    active_bg_fill: Rgb { r: 90, g: 60, b: 140 },
                    hovered_bg_fill: Rgb { r: 75, g: 50, b: 115 },
                    open_bg_fill: Rgb { r: 100, g: 70, b: 150 },
                    selection_bg_fill: Rgb { r: 110, g: 75, b: 170 },
                    selection_stroke: Rgb { r: 160, g: 120, b: 220 },
                    hyperlink: Rgb { r: 160, g: 120, b: 220 },
                    faint_bg: Rgb { r: 45, g: 30, b: 65 },
                    extreme_bg: Rgb { r: 30, g: 20, b: 45 },
                    code_bg: Rgb { r: 35, g: 25, b: 50 },
                    warn_fg: Rgb { r: 255, g: 200, b: 100 },
                    error_fg: Rgb { r: 255, g: 100, b: 100 },
                    window_fill: Rgb { r: 40, g: 25, b: 60 },
                    window_stroke: Rgb { r: 70, g: 50, b: 90 },
                    panel_fill: Rgb { r: 35, g: 25, b: 50 },
                }),
            AppTheme::Orange => Some(ThemePalette {
                    text: Rgb { r: 255, g: 230, b: 200 },
                    noninteractive_bg_fill: Rgb { r: 65, g: 40, b: 15 },
                    noninteractive_fg_stroke: Rgb { r: 255, g: 230, b: 200 },
                    noninteractive_bg_stroke: Rgb { r: 100, g: 70, b: 30 },
                    inactive_bg_fill: Rgb { r: 90, g: 55, b: 20 },
                    inactive_fg_stroke: Rgb { r: 255, g: 240, b: 220 },
                    active_bg_fill: Rgb { r: 140, g: 85, b: 30 },
                    hovered_bg_fill: Rgb { r: 115, g: 70, b: 25 },
                    open_bg_fill: Rgb { r: 150, g: 90, b: 35 },
                    selection_bg_fill: Rgb { r: 170, g: 100, b: 40 },
                    selection_stroke: Rgb { r: 220, g: 140, b: 60 },
                    hyperlink: Rgb { r: 220, g: 140, b: 60 },
                    faint_bg: Rgb { r: 70, g: 45, b: 20 },
                    extreme_bg: Rgb { r: 50, g: 30, b: 10 },
                    code_bg: Rgb { r: 60, g: 35, b: 15 },
                    warn_fg: Rgb { r: 255, g: 180, b: 80 },
                    error_fg: Rgb { r: 255, g: 100, b: 100 },
                    window_fill: Rgb { r: 65, g: 40, b: 15 },
                    window_stroke: Rgb { r: 100, g: 70, b: 30 },
                    panel_fill: Rgb { r: 60, g: 35, b: 15 },
                }),
            AppTheme::Pink => Some(ThemePalette {
                    text: Rgb { r: 255, g: 220, b: 240 },
                    noninteractive_bg_fill: Rgb { r: 60, g: 25, b: 50 },
                    noninteractive_fg_stroke: Rgb { r: 255, g: 220, b: 240 },
                    noninteractive_bg_stroke: Rgb { r: 90, g: 50, b: 80 },
                    inactive_bg_fill: Rgb { r: 80, g: 40, b: 70 },
                    inactive_fg_stroke: Rgb { r: 255, g: 230, b: 245 },
                    active_bg_fill: Rgb { r: 130, g: 60, b: 110 },
                    hovered_bg_fill: Rgb { r: 105, g: 50, b: 90 },
                    open_bg_fill: Rgb { r: 140, g: 65, b: 120 },
                    selection_bg_fill: Rgb { r: 160, g: 70, b: 140 },
                    selection_stroke: Rgb { r: 210, g: 100, b: 180 },
                    hyperlink: Rgb { r: 210, g: 100, b: 180 },
                    faint_bg: Rgb { r: 65, g: 30, b: 55 },
                    extreme_bg: Rgb { r: 45, g: 20, b: 40 },
                    code_bg: Rgb { r: 50, g: 25, b: 45 },
                    warn_fg: Rgb { r: 255, g: 200, b: 100 },
                    error_fg: Rgb { r: 255, g: 100, b: 100 },
                    window_fill: Rgb { r: 60, g: 25, b: 50 },
                    window_stroke: Rgb { r: 90, g: 50, b: 80 },
                    panel_fill: Rgb { r: 50, g: 25, b: 45 },
                }),
            AppTheme::Red => Some(ThemePalette {
                    text: Rgb { r: 255, g: 220, b: 220 },
                    noninteractive_bg_fill: Rgb { r: 65, g: 25, b: 25 },
                    noninteractive_fg_stroke: Rgb { r: 255, g: 220, b: 220 },
                    noninteractive_bg_stroke: Rgb { r: 100, g: 50, b: 50 },
                    inactive_bg_fill: Rgb { r: 90, g: 35, b: 35 },
                    inactive_fg_stroke: Rgb { r: 255, g: 230, b: 230 },
                    active_bg_fill: Rgb { r: 140, g: 50, b: 50 },
                    hovered_bg_fill: Rgb { r: 115, g: 40, b: 40 },
                    open_bg_fill: Rgb { r: 150, g: 55, b: 55 },
                    selection_bg_fill: Rgb { r: 170, g: 60, b: 60 },
                    selection_stroke: Rgb { r: 220, g: 100, b: 100 },
                    hyperlink: Rgb { r: 220, g: 100, b: 100 },
                    faint_bg: Rgb { r: 70, g: 30, b: 30 },
                    extreme_bg: Rgb { r: 50, g: 20, b: 20 },
                    code_bg: Rgb { r: 55, g: 25, b: 25 },
                    warn_fg: Rgb { r: 255, g: 200, b: 100 },
                    error_fg: Rgb { r: 255, g: 120, b: 120 },
                    window_fill: Rgb { r: 65, g: 25, b: 25 },
                    window_stroke: Rgb { r: 100, g: 50, b: 50 },
                    panel_fill: Rgb { r: 55, g: 25, b: 25 },
                }),
            AppTheme::Yellow => Some(ThemePalette {
                    text: Rgb { r: 255, g: 255, b: 200 },
                    noninteractive_bg_fill: Rgb { r: 65, g: 60, b: 15 },
                    noninteractive_fg_stroke: Rgb { r: 255, g: 255, b: 200 },
                    noninteractive_bg_stroke: Rgb { r: 100, g: 95, b: 30 },
                    inactive_bg_fill: Rgb { r: 90, g: 85, b: 20 },
                    inactive_fg_stroke: Rgb { r: 255, g: 255, b: 220 },
                    active_bg_fill: Rgb { r: 140, g: 130, b: 30 },
                    hovered_bg_fill: Rgb { r: 115, g: 105, b: 25 },
                    open_bg_fill: Rgb { r: 150, g: 140, b: 35 },
                    selection_bg_fill: Rgb { r: 170, g: 160, b: 40 },
                    selection_stroke: Rgb { r: 220, g: 210, b: 60 },
                    hyperlink: Rgb { r: 220, g: 210, b: 60 },
                    faint_bg: Rgb { r: 70, g: 65, b: 20 },
                    extreme_bg: Rgb { r: 50, g: 45, b: 10 },
                    code_bg: Rgb { r: 60, g: 55, b: 15 },
                    warn_fg: Rgb { r: 255, g: 180, b: 80 },
                    error_fg: Rgb { r: 255, g: 100, b: 100 },
                    window_fill: Rgb { r: 65, g: 60, b: 15 },
                    window_stroke: Rgb { r: 100, g: 95, b: 30 },
                    panel_fill: Rgb { r: 60, g: 55, b: 15 },
                }),
        }
    }

    /// Whether the theme is built on the light look (only the light theme
    /// is; every other theme is built on the dark look).
    pub fn is_light(&self) -> (r: bool)
        ensures
            r == (*self == AppTheme::Light),
    {
        match self {
            AppTheme::Light => true,
            _ => false,
        }
    }

    /// The colours the theme sets over its base look; none for the light
    /// and dark themes.
    pub fn palette(&self) -> (r: Option<ThemePalette>)
        ensures
            r == self.spec_palette(),
            r is None <==> (*self == AppTheme::Light || *self == AppTheme::Dark),
    {
        match self {
            AppTheme::Light => None,
            AppTheme::Dark => None,
            AppTheme::Blue => Some(ThemePalette {
                    text: Rgb { r: 220, g: 220, b: 255 },
                    noninteractive_bg_fill: Rgb { r: 25, g: 35, b: 65 },
                    noninteractive_fg_stroke: Rgb { r: 220, g: 220, b: 255 },
                    noninteractive_bg_stroke: Rgb { r: 50, g: 70, b: 100 },
                    inactive_bg_fill: Rgb { r: 40, g: 60, b: 110 },
                    inactive_fg_stroke: Rgb { r: 240, g: 240, b: 255 },
                    active_bg_fill: Rgb { r: 60, g: 90, b: 170 },
                    hovered_bg_fill: Rgb { r: 50, g: 75, b: 140 },
                    open_bg_fill: Rgb { r: 70, g: 100, b: 180 },
                    selection_bg_fill: Rgb { r: 40, g: 90, b: 200 },
                    selection_stroke: Rgb { r: 100, g: 150, b: 255 },
                    hyperlink: Rgb { r: 100, g: 150, b: 255 },
                    faint_bg: Rgb { r: 30, g: 40, b: 70 },
                    extreme_bg: Rgb { r: 15, g: 25, b: 50 },
                    code_bg: Rgb { r: 20, g: 30, b: 55 },
                    warn_fg: Rgb { r: 255, g: 200, b: 100 },
                    error_fg: Rgb { r: 255, g: 100, b: 100 },
                    window_fill: Rgb { r: 25, g: 35, b: 65 },
                    window_stroke: Rgb { r: 50, g: 70, b: 120 },
                    panel_fill: Rgb { r: 20, g: 30, b: 55 },
                }),
            AppTheme::Green => Some(ThemePalette {
                    text: Rgb { r: 220, g: 255, b: 220 },
                    noninteractive_bg_fill: Rgb { r: 25, g: 45, b: 30 },
                    noninteractive_fg_stroke: Rgb { r: 220, g: 255, b: 220 },
                    noninteractive_bg_stroke: Rgb { r: 50, g: 90, b: 60 },
                    inactive_bg_fill: Rgb { r: 35, g: 70, b: 45 },
                    inactive_fg_stroke: Rgb { r: 240, g: 255, b: 240 },
                    active_bg_fill: Rgb { r: 50, g: 120, b: 70 },
                    hovered_bg_fill: Rgb { r: 42, g: 95, b: 58 },
                    open_bg_fill: Rgb { r: 55, g: 130, b: 80 },
                    selection_bg_fill: Rgb { r: 45, g: 140, b: 85 },
                    selection_stroke: Rgb { r: 100, g: 200, b: 120 },
                    hyperlink: Rgb { r: 100, g: 200, b: 120 },
                    faint_bg: Rgb { r: 30, g: 50, b: 35 },
                    extreme_bg: Rgb { r: 15, g: 35, b: 20 },
                    code_bg: Rgb { r: 20, g: 40, b: 25 },
                    warn_fg: Rgb { r: 255, g: 200, b: 100 },
                    error_fg: Rgb { r: 255, g: 100, b: 100 },
                    window_fill: Rgb { r: 25, g: 45, b: 30 },
                    window_stroke: Rgb { r: 50, g: 90, b: 60 },
                    panel_fill: Rgb { r: 20, g: 40, b: 25 },
                }),
            AppTheme::Purple => Some(ThemePalette {
                    text: Rgb { r: 240, g: 220, b: 255 },
                    noninteractive_bg_fill: Rgb { r: 40, g: 25, b: 60 },
                    noninteractive_fg_stroke: Rgb { r: 240, g: 220, b: 255 },
                    noninteractive_bg_stroke: Rgb { r: 70, g: 50, b: 90 },
                    inactive_bg_fill: Rgb { r: 60, g: 40, b: 90 },
                    inactive_fg_stroke: Rgb { r: 250, g: 230, b: 255 },
                    active_bg_fill: Rgb { r: 90, g: 60, b: 140 },
                    hovered_bg_fill: Rgb { r: 75, g: 50, b: 115 },
                    open_bg_fill: Rgb { r: 100, g: 70, b: 150 },
                    selection_bg_fill: Rgb { r: 110, g: 75, b: 170 },
                    selection_stroke: Rgb { r: 160, g: 120, b: 220 },
                    hyperlink: Rgb { r: 160, g: 120, b: 220 },
                    faint_bg: Rgb { r: 45, g: 30, b: 65 },
                    extreme_bg: Rgb { r: 30, g: 20, b: 45 },
                    code_bg: Rgb { r: 35, g: 25, b: 50 },
                    warn_fg: Rgb { r: 255, g: 200, b: 100 },
                    error_fg: Rgb { r: 255, g: 100, b: 100 },
                    window_fill: Rgb { r: 40, g: 25, b: 60 },
                    window_stroke: Rgb { r: 70, g: 50, b: 90 },
                    panel_fill: Rgb { r: 35, g: 25, b: 50 },
                }),
            AppTheme::Orange => Some(ThemePalette {
                    text: Rgb { r: 255, g: 230, b: 200 },
                    noninteractive_bg_fill: Rgb { r: 65, g: 40, b: 15 },
                    noninteractive_fg_stroke: Rgb { r: 255, g: 230, b: 200 },
                    noninteractive_bg_stroke: Rgb { r: 100, g: 70, b: 30 },
                    inactive_bg_fill: Rgb { r: 90, g: 55, b: 20 },
                    inactive_fg_stroke: Rgb { r: 255, g: 240, b: 220 },
                    active_bg_fill: Rgb { r: 140, g: 85, b: 30 },
                    hovered_bg_fill: Rgb { r: 115, g: 70, b: 25 },
                    open_bg_fill: Rgb { r: 150, g: 90, b: 35 },
                    selection_bg_fill: Rgb { r: 170, g: 100, b: 40 },
                    selection_stroke: Rgb { r: 220, g: 140, b: 60 },
                    hyperlink: Rgb { r: 220, g: 140, b: 60 },
                    faint_bg: Rgb { r: 70, g: 45, b: 20 },
                    extreme_bg: Rgb { r: 50, g: 30, b: 10 },
                    code_bg: Rgb { r: 60, g: 35, b: 15 },
                    warn_fg: Rgb { r: 255, g: 180, b: 80 },
                    error_fg: Rgb { r: 255, g: 100, b: 100 },
                    window_fill: Rgb { r: 65, g: 40, b: 15 },
                    window_stroke: Rgb { r: 100, g: 70, b: 30 },
                    panel_fill: Rgb { r: 60, g: 35, b: 15 },
                }),
            AppTheme::Pink => Some(ThemePalette {
                    text: Rgb { r: 255, g: 220, b: 240 },
                    noninteractive_bg_fill: Rgb { r: 60, g: 25, b: 50 },
                    noninteractive_fg_stroke: Rgb { r: 255, g: 220, b: 240 },
                    noninteractive_bg_stroke: Rgb { r: 90, g: 50, b: 80 },
                    inactive_bg_fill: Rgb { r: 80, g: 40, b: 70 },
                    inactive_fg_stroke: Rgb { r: 255, g: 230, b: 245 },
                    active_bg_fill: Rgb { r: 130, g: 60, b: 110 },
                    hovered_bg_fill: Rgb { r: 105, g: 50, b: 90 },
                    open_bg_fill: Rgb { r: 140, g: 65, b: 120 },
                    selection_bg_fill: Rgb { r: 160, g: 70, b: 140 },
                    selection_stroke: Rgb { r: 210, g: 100, b: 180 },
                    hyperlink: Rgb { r: 210, g: 100, b: 180 },
                    faint_bg: Rgb { r: 65, g: 30, b: 55 },
                    extreme_bg: Rgb { r: 45, g: 20, b: 40 },
                    code_bg: Rgb { r: 50, g: 25, b: 45 },
                    warn_fg: Rgb { r: 255, g: 200, b: 100 },
                    error_fg: Rgb { r: 255, g: 100, b: 100 },
                    window_fill: Rgb { r: 60, g: 25, b: 50 },
                    window_stroke: Rgb { r: 90, g: 50, b: 80 },
                    panel_fill: Rgb { r: 50, g: 25, b: 45 },
                }),
            AppTheme::Red => Some(ThemePalette {
                    text: Rgb { r: 255, g: 220, b: 220 },
                    noninteractive_bg_fill: Rgb { r: 65, g: 25, b: 25 },
                    noninteractive_fg_stroke: Rgb { r: 255, g: 220, b: 220 },
                    noninteractive_bg_stroke: Rgb { r: 100, g: 50, b: 50 },
                    inactive_bg_fill: Rgb { r: 90, g: 35, b: 35 },
                    inactive_fg_stroke: Rgb { r: 255, g: 230, b: 230 },
                    active_bg_fill: Rgb { r: 140, g: 50, b: 50 },
                    hovered_bg_fill: Rgb { r: 115, g: 40, b: 40 },
                    open_bg_fill: Rgb { r: 150, g: 55, b: 55 },
                    selection_bg_fill: Rgb { r: 170, g: 60, b: 60 },
                    selection_stroke: Rgb { r: 220, g: 100, b: 100 },
                    hyperlink: Rgb { r: 220, g: 100, b: 100 },
                    faint_bg: Rgb { r: 70, g: 30, b: 30 },
                    extreme_bg: Rgb { r: 50, g: 20, b: 20 },
                    code_bg: Rgb { r: 55, g: 25, b: 25 },
                    warn_fg: Rgb { r: 255, g: 200, b: 100 },
                    error_fg: Rgb { r: 255, g: 120, b: 120 },
                    window_fill: Rgb { r: 65, g: 25, b: 25 },
                    window_stroke: Rgb { r: 100, g: 50, b: 50 },
                    panel_fill: Rgb { r: 55, g: 25, b: 25 },
                }),
            AppTheme::Yellow => Some(ThemePalette {
                    text: Rgb { r: 255, g: 255, b: 200 },
                    noninteractive_bg_fill: Rgb { r: 65, g: 60, b: 15 },
                    noninteractive_fg_stroke: Rgb { r: 255, g: 255, b: 200 },
                    noninteractive_bg_stroke: Rgb { r: 100, g: 95, b: 30 },
                    inactive_bg_fill: Rgb { r: 90, g: 85, b: 20 },
                    inactive_fg_stroke: Rgb { r: 255, g: 255, b: 220 },
                    active_bg_fill: Rgb { r: 140, g: 130, b: 30 },
                    hovered_bg_fill: Rgb { r: 115, g: 105, b: 25 },
                    open_bg_fill: Rgb { r: 150, g: 140, b: 35 },
                    selection_bg_fill: Rgb { r: 170, g: 160, b: 40 },
                    selection_stroke: Rgb { r: 220, g: 210, b: 60 },
                    hyperlink: Rgb { r: 220, g: 210, b: 60 },
                    faint_bg: Rgb { r: 70, g: 65, b: 20 },
                    extreme_bg: Rgb { r: 50, g: 45, b: 10 },
                    code_bg: Rgb { r: 60, g: 55, b: 15 },
                    warn_fg: Rgb { r: 255, g: 180, b: 80 },
                    error_fg: Rgb { r: 255, g: 100, b: 100 },
                    window_fill: Rgb { r: 65, g: 60, b: 15 },
                    window_stroke: Rgb { r: 100, g: 95, b: 30 },
                    panel_fill: Rgb { r: 60, g: 55, b: 15 },
                }),
        }
    }
}

impl Default for AppTheme {
    /// The dark theme.
    fn default() -> (r: Self)
        ensures
            r == AppTheme::Dark,
    {
        AppTheme::Dark
    }
}

/// The list of themes holds every theme exactly once, and no two themes
/// share a name.
pub proof fn lemma_themes_listed_once(a: AppTheme, b: AppTheme)
    ensures
        all_themes().len() == 9,
        all_themes().contains(a),
        forall|i: int, j: int| 0 <= i < j < 9 ==> all_themes()[i] != all_themes()[j],
        a.label() == b.label() ==> a == b,
{
    let s = all_themes();
    let k: int = match a {
        AppTheme::Light => 0,
        AppTheme::Dark => 1,
        AppTheme::Blue => 2,
        AppTheme::Green => 3,
        AppTheme::Purple => 4,
        AppTheme::Orange => 5,
        AppTheme::Pink => 6,
        AppTheme::Red => 7,
        AppTheme::Yellow => 8,
    };
    assert(s[k] == a);
    reveal_strlit("Light");
    reveal_strlit("Dark");
    reveal_strlit("Blue");
    reveal_strlit("Green");
    reveal_strlit("Purple");
    reveal_strlit("Orange");
    reveal_strlit("Pink");
    reveal_strlit("Red");
    reveal_strlit("Yellow");
    if a.label() == b.label() {
        assert(a.label().len() == b.label().len());
        assert(a.label()[0] == b.label()[0]);
    }
}

/// Each theme is shown under its variant's name: the themes of
/// [`all_themes`], in order, are labelled `Light`, `Dark`, `Blue`, `Green`,
/// `Purple`, `Orange`, `Pink`, `Red` and `Yellow`, so the theme picked under
/// a name is the theme of that name.
pub proof fn lemma_themes_named_by_variant()
    ensures
        all_themes().map_values(|t: AppTheme| t.label()) =~= seq![
            "Light"@,
            "Dark"@,
            "Blue"@,
            "Green"@,
            "Purple"@,
            "Orange"@,
            "Pink"@,
            "Red"@,
            "Yellow"@,
        ],
{
}

} // verus!
