use ldraw::io::{css_color, xml_escape};
use ldraw::model::{BlendMode, Rgba};

fn reference_css(color: Rgba) -> String {
    let alpha = color.a as f64 / 255.0;
    format!("rgba({}, {}, {}, {:.4})", color.r, color.g, color.b, alpha)
}

fn reference_escape(text: &str) -> String {
    text.replace('&', "&amp;")
        .replace('<', "&lt;")
        .replace('>', "&gt;")
        .replace('"', "&quot;")
        .replace('\'', "&apos;")
}

#[test]
fn css_color_examples() {
    assert_eq!(css_color(Rgba::rgb(33, 37, 41)), "rgba(33, 37, 41, 1.0000)");
    assert_eq!(
        css_color(Rgba { r: 0, g: 0, b: 0, a: 0 }),
        "rgba(0, 0, 0, 0.0000)"
    );
    assert_eq!(
        css_color(Rgba { r: 255, g: 7, b: 100, a: 128 }),
        "rgba(255, 7, 100, 0.5020)"
    );
}

#[test]
fn css_color_matches_float_formatting_for_every_alpha() {
    for a in 0..=255u8 {
        for (r, g, b) in [(0u8, 0u8, 0u8), (9, 10, 99), (100, 200, 255)] {
            let color = Rgba { r, g, b, a };
            assert_eq!(css_color(color), reference_css(color));
        }
    }
}

#[test]
fn xml_escape_examples() {
    assert_eq!(xml_escape("plain text"), "plain text");
    assert_eq!(xml_escape(""), "");
    assert_eq!(xml_escape("a < b && c > \"d\" 'e'"),
        "a &lt; b &amp;&amp; c &gt; &quot;d&quot; &apos;e&apos;");
    assert_eq!(xml_escape("&amp;"), "&amp;amp;");
}

#[test]
fn xml_escape_matches_replace_chain() {
    let samples = [
        "Text",
        "<svg>",
        "fish & chips",
        "\u{9ed1}\u{98ce}<\u{96f7}>",
        "'\"&<>",
        "&&&;;;<<>>",
    ];
    for s in samples {
        let escaped = xml_escape(s);
        assert_eq!(escaped, reference_escape(s));
        assert!(!escaped.contains('<') && !escaped.contains('>'));
        assert!(!escaped.contains('"') && !escaped.contains('\''));
    }
}

#[test]
fn rgba_constructors() {
    assert_eq!(Rgba::rgb(1, 2, 3), Rgba { r: 1, g: 2, b: 3, a: 255 });
    assert_eq!(Rgba::default(), Rgba::rgb(33, 37, 41));
    assert_ne!(BlendMode::Normal, BlendMode::Highlighter);
}

fn decode_entities(text: &str) -> String {
    text.replace("&lt;", "<")
        .replace("&gt;", ">")
        .replace("&quot;", "\"")
        .replace("&apos;", "'")
        .replace("&amp;", "&")
}

#[test]
fn escaping_round_trips_and_ampersands_start_entities() {
    let samples = ["a&b", "&lt;", "<&>\"'", "x'y\"z", "&amp;amp;", ""];
    for s in samples {
        let escaped = xml_escape(s);
        assert_eq!(decode_entities(&escaped), s);
        for (i, c) in escaped.char_indices() {
            if c == '&' {
                let rest = &escaped[i..];
                assert!(["&amp;", "&lt;", "&gt;", "&quot;", "&apos;"]
                    .iter()
                    .any(|e| rest.starts_with(e)));
            }
        }
    }
}
