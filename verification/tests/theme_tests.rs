use ldraw::model::Rgba;
use ldraw::theme::{GridView, ViewTheme};

#[test]
fn theme_cycle() {
    assert_eq!(ViewTheme::Dark.next(), ViewTheme::Light);
    assert_eq!(ViewTheme::Light.next(), ViewTheme::Slate);
    assert_eq!(ViewTheme::Slate.next(), ViewTheme::Dark);
    for t in [ViewTheme::Dark, ViewTheme::Light, ViewTheme::Slate] {
        assert_eq!(t.next().next().next(), t);
        assert_ne!(t.next(), t);
    }
}

#[test]
fn grid_cycle() {
    assert_eq!(GridView::Lines.next(), GridView::Dots);
    assert_eq!(GridView::Dots.next(), GridView::Off);
    assert_eq!(GridView::Off.next(), GridView::Lines);
    for g in [GridView::Lines, GridView::Dots, GridView::Off] {
        assert_eq!(g.next().next().next(), g);
    }
}

#[test]
fn icons() {
    assert_eq!(ViewTheme::Dark.icon(), "\u{263e}");
    assert_eq!(ViewTheme::Light.icon(), "\u{2600}");
    assert_eq!(ViewTheme::Slate.icon(), "\u{25e9}");
    assert_eq!(GridView::Lines.icon(), "#");
    assert_eq!(GridView::Dots.icon(), "\u{2022}");
    assert_eq!(GridView::Off.icon(), "\u{d7}");
}

#[test]
fn backgrounds() {
    assert_eq!(ViewTheme::Dark.background(), Rgba::rgb(0, 0, 0));
    assert_eq!(ViewTheme::Light.background(), Rgba::rgb(240, 242, 245));
    assert_eq!(ViewTheme::Slate.background(), Rgba::rgb(22, 27, 39));
}

#[test]
fn palettes() {
    assert_eq!(ViewTheme::Dark.panel_fill(), Rgba { r: 30, g: 33, b: 42, a: 236 });
    assert_eq!(ViewTheme::Light.panel_border(), Rgba::rgb(185, 185, 185));
    assert_eq!(ViewTheme::Slate.accent(), Rgba::rgb(70, 155, 255));
    assert_eq!(ViewTheme::Light.chrome_button_bg(), Rgba { r: 0, g: 0, b: 0, a: 14 });
    assert_eq!(ViewTheme::Dark.grid_color(), Rgba { r: 190, g: 198, b: 214, a: 28 });
}
