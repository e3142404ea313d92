use vstd::prelude::*;

use crate::model::Rgba;

verus! {

/// The color scheme of the window.
#[derive(Clone, Copy, Debug, PartialEq, Eq, Structural)]
pub enum ViewTheme {
    Dark,
    Light,
    Slate,
}

/// The theme that follows `theme` when cycling: dark, light, slate, dark...
pub open spec fn theme_after(theme: ViewTheme) -> ViewTheme {
    match theme {
        ViewTheme::Dark => ViewTheme::Light,
        ViewTheme::Light => ViewTheme::Slate,
        ViewTheme::Slate => ViewTheme::Dark,
    }
}

/// The canvas background that goes with a theme.
pub open spec fn theme_background(theme: ViewTheme) -> Rgba {
    match theme {
        ViewTheme::Dark => Rgba { r: 0, g: 0, b: 0, a: 255 },
        ViewTheme::Light => Rgba { r: 240, g: 242, b: 245, a: 255 },
        ViewTheme::Slate => Rgba { r: 22, g: 27, b: 39, a: 255 },
    }
}

impl ViewTheme {
    /// The glyph on the theme button.
    pub fn icon(self) -> (s: &'static str)
        ensures
            s@ == match self {
                ViewTheme::Dark => seq!['\u{263e}'],
                ViewTheme::Light => seq!['\u{2600}'],
                ViewTheme::Slate => seq!['\u{25e9}'],
            },
    {
        proof {
            reveal_strlit("\u{263e}");
            reveal_strlit("\u{2600}");
            reveal_strlit("\u{25e9}");
        }
        match self {
            ViewTheme::Dark => "\u{263e}",
            ViewTheme::Light => "\u{2600}",
            ViewTheme::Slate => "\u{25e9}",
        }
    }

    pub fn next(self) -> (t: Self)
        ensures
            t == theme_after(self),
    {
        match self {
            ViewTheme::Dark => ViewTheme::Light,
            ViewTheme::Light => ViewTheme::Slate,
            ViewTheme::Slate => ViewTheme::Dark,
        }
    }

    /// The fill of the floating panels.
    pub fn panel_fill(self) -> (c: Rgba)
        ensures
            c == match self {
                ViewTheme::Dark => Rgba { r: 30, g: 33, b: 42, a: 236 },
                ViewTheme::Light => Rgba { r: 248, g: 248, b: 250, a: 228 },
                ViewTheme::Slate => Rgba { r: 34, g: 41, b: 58, a: 236 },
            },
    {
        match self {
            ViewTheme::Dark => Rgba { r: 30, g: 33, b: 42, a: 236 },
            ViewTheme::Light => Rgba { r: 248, g: 248, b: 250, a: 228 },
            ViewTheme::Slate => Rgba { r: 34, g: 41, b: 58, a: 236 },
        }
    }

    /// The outline of the floating panels: an opaque gray.
    pub fn panel_border(self) -> (c: Rgba)
        ensures
            c == match self {
                ViewTheme::Dark => Rgba { r: 78, g: 78, b: 78, a: 255 },
                ViewTheme::Light => Rgba { r: 185, g: 185, b: 185, a: 255 },
                ViewTheme::Slate => Rgba { r: 92, g: 92, b: 92, a: 255 },
            },
    {
        match self {
            ViewTheme::Dark => Rgba::rgb(78, 78, 78),
            ViewTheme::Light => Rgba::rgb(185, 185, 185),
            ViewTheme::Slate => Rgba::rgb(92, 92, 92),
        }
    }

    /// The highlight of the active tool button.
    pub fn accent(self) -> (c: Rgba)
        ensures
            c == match self {
                ViewTheme::Dark => Rgba { r: 37, g: 125, b: 244, a: 255 },
                ViewTheme::Light => Rgba { r: 29, g: 108, b: 225, a: 255 },
                ViewTheme::Slate => Rgba { r: 70, g: 155, b: 255, a: 255 },
            },
    {
        match self {
            ViewTheme::Dark => Rgba::rgb(37, 125, 244),
            ViewTheme::Light => Rgba::rgb(29, 108, 225),
            ViewTheme::Slate => Rgba::rgb(70, 155, 255),
        }
    }

    /// The background of the other tool buttons.
    pub fn chrome_button_bg(self) -> (c: Rgba)
        ensures
            c == match self {
                ViewTheme::Dark => Rgba { r: 255, g: 255, b: 255, a: 16 },
                ViewTheme::Light => Rgba { r: 0, g: 0, b: 0, a: 14 },
                ViewTheme::Slate => Rgba { r: 255, g: 255, b: 255, a: 18 },
            },
    {
        match self {
            ViewTheme::Dark => Rgba { r: 255, g: 255, b: 255, a: 16 },
            ViewTheme::Light => Rgba { r: 0, g: 0, b: 0, a: 14 },
            ViewTheme::Slate => Rgba { r: 255, g: 255, b: 255, a: 18 },
        }
    }

    /// The color of the canvas grid.
    pub fn grid_color(self) -> (c: Rgba)
        ensures
            c == match self {
                ViewTheme::Dark => Rgba { r: 190, g: 198, b: 214, a: 28 },
                ViewTheme::Light => Rgba { r: 100, g: 110, b: 130, a: 36 },
                ViewTheme::Slate => Rgba { r: 164, g: 199, b: 255, a: 32 },
            },
    {
        match self {
            ViewTheme::Dark => Rgba { r: 190, g: 198, b: 214, a: 28 },
            ViewTheme::Light => Rgba { r: 100, g: 110, b: 130, a: 36 },
            ViewTheme::Slate => Rgba { r: 164, g: 199, b: 255, a: 32 },
        }
    }

    /// The canvas background of a document shown in this theme.
    pub fn background(self) -> (c: Rgba)
        ensures
            c == theme_background(self),
    {
        match self {
            ViewTheme::Dark => Rgba::rgb(0, 0, 0),
            ViewTheme::Light => Rgba::rgb(240, 242, 245),
            ViewTheme::Slate => Rgba::rgb(22, 27, 39),
        }
    }
}

/// How the canvas grid is drawn.
#[derive(Clone, Copy, Debug, PartialEq, Eq, Structural)]
pub enum GridView {
    Lines,
    Dots,
    Off,
}

/// The grid mode that follows `grid` when cycling: lines, dots, off, lines...
pub open spec fn grid_after(grid: GridView) -> GridView {
    match grid {
        GridView::Lines => GridView::Dots,
        GridView::Dots => GridView::Off,
        GridView::Off => GridView::Lines,
    }
}

impl GridView {
    /// The glyph on the grid button.
    pub fn icon(self) -> (s: &'static str)
        ensures
            s@ == match self {
                GridView::Lines => seq!['#'],
                GridView::Dots => seq!['\u{2022}'],
                GridView::Off => seq!['\u{d7}'],
            },
    {
        proof {
            reveal_strlit("#");
            reveal_strlit("\u{2022}");
            reveal_strlit("\u{d7}");
        }
        match self {
            GridView::Lines => "#",
            GridView::Dots => "\u{2022}",
            GridView::Off => "\u{d7}",
        }
    }

    pub fn next(self) -> (g: Self)
        ensures
            g == grid_after(self),
    {
        match self {
            GridView::Lines => GridView::Dots,
            GridView::Dots => GridView::Off,
            GridView::Off => GridView::Lines,
        }
    }
}

/// Cycling the theme visits all three themes and comes back after three steps.
pub proof fn lemma_theme_cycle(theme: ViewTheme)
    ensures
        theme_after(theme) != theme,
        theme_after(theme_after(theme)) != theme,
        theme_after(theme_after(theme_after(theme))) == theme,
{
}

/// Cycling the grid visits lines, dots and off, and comes back after three steps.
pub proof fn lemma_grid_cycle(grid: GridView)
    ensures
        grid_after(grid) != grid,
        grid_after(grid_after(grid)) != grid,
        grid_after(grid_after(grid_after(grid))) == grid,
{
}

/// Each theme has its own background.
pub proof fn lemma_backgrounds_differ(a: ViewTheme, b: ViewTheme)
    ensures
        theme_background(a) == theme_background(b) ==> a == b,
{
}

} // verus!
