use ldraw::tools::{Edge, Tool, TransformHandle};

#[test]
fn names_and_hotkeys_match_the_controls() {
    let expected = [
        (Tool::Select, "Select", "V"),
        (Tool::Hand, "Hand", "H"),
        (Tool::Laser, "Laser", "K"),
        (Tool::Pen, "Pen", "P"),
        (Tool::Pencil, "Pencil", "N"),
        (Tool::Highlighter, "Highlighter", "Y"),
        (Tool::Eraser, "Eraser", "E"),
        (Tool::Line, "Line", "L"),
        (Tool::Arrow, "Arrow", "A"),
        (Tool::Rectangle, "Rectangle", "R"),
        (Tool::Ellipse, "Ellipse", "O"),
        (Tool::Diamond, "Diamond", "D"),
        (Tool::Triangle, "Triangle", "T"),
        (Tool::Polygon, "Polygon", "G"),
        (Tool::Star, "Star", "S"),
        (Tool::Text, "Text", "X"),
        (Tool::Image, "Image", "I"),
    ];
    for (tool, name, key) in expected {
        assert_eq!(tool.name(), name);
        assert_eq!(tool.hotkey(), key);
    }
}

#[test]
fn toolbar_lists_every_tool_once_in_order() {
    let bar = Tool::LEFT_TOOLBAR;
    assert_eq!(bar.len(), 17);
    assert_eq!(bar[0], Tool::Select);
    assert_eq!(bar[16], Tool::Image);
    for i in 0..bar.len() {
        for j in 0..bar.len() {
            if i != j {
                assert_ne!(bar[i], bar[j]);
            }
        }
    }
}

#[test]
fn freehand_tools() {
    for tool in Tool::LEFT_TOOLBAR {
        let expected = matches!(tool, Tool::Pen | Tool::Pencil | Tool::Highlighter);
        assert_eq!(tool.is_freehand(), expected);
    }
}

#[test]
fn every_hotkey_selects_its_tool() {
    for tool in Tool::LEFT_TOOLBAR {
        let key = tool.hotkey().chars().next().unwrap();
        assert_eq!(Tool::for_shortcut(key, false), Some(tool));
    }
}

#[test]
fn command_keys_are_left_to_commands() {
    assert_eq!(Tool::for_shortcut('N', true), None);
    assert_eq!(Tool::for_shortcut('O', true), None);
    assert_eq!(Tool::for_shortcut('D', true), None);
    assert_eq!(Tool::for_shortcut('T', true), None);
    assert_eq!(Tool::for_shortcut('S', true), None);
    assert_eq!(Tool::for_shortcut('V', true), Some(Tool::Select));
    assert_eq!(Tool::for_shortcut('G', true), Some(Tool::Polygon));
    assert_eq!(Tool::for_shortcut('Z', false), None);
    assert_eq!(Tool::for_shortcut('v', false), None);
}

#[test]
fn default_tool_is_select() {
    assert_eq!(Tool::default(), Tool::Select);
    assert_ne!(TransformHandle::Top, TransformHandle::Rotate);
}

#[test]
fn resize_handles_anchor_opposite_their_pivot() {
    assert_eq!(TransformHandle::TopLeft.anchor(), (Edge::Max, Edge::Max));
    assert_eq!(TransformHandle::TopLeft.pivot(), (Edge::Min, Edge::Min));
    assert_eq!(TransformHandle::Top.anchor(), (Edge::Center, Edge::Max));
    assert_eq!(TransformHandle::Top.pivot(), (Edge::Center, Edge::Min));
    assert_eq!(TransformHandle::TopRight.anchor(), (Edge::Min, Edge::Max));
    assert_eq!(TransformHandle::Right.anchor(), (Edge::Min, Edge::Center));
    assert_eq!(TransformHandle::BottomRight.anchor(), (Edge::Min, Edge::Min));
    assert_eq!(TransformHandle::Bottom.anchor(), (Edge::Center, Edge::Min));
    assert_eq!(TransformHandle::BottomLeft.anchor(), (Edge::Max, Edge::Min));
    assert_eq!(TransformHandle::Left.pivot(), (Edge::Min, Edge::Center));
    assert_eq!(TransformHandle::Rotate.anchor(), (Edge::Center, Edge::Center));
    assert_eq!(TransformHandle::Rotate.pivot(), (Edge::Center, Edge::Center));
    assert_eq!(TransformHandle::Rotate.placement(), (Edge::Center, Edge::Min));
}

#[test]
fn scaled_axes_per_handle() {
    assert_eq!(TransformHandle::Top.scaled_axes(), (false, true));
    assert_eq!(TransformHandle::Bottom.scaled_axes(), (false, true));
    assert_eq!(TransformHandle::Left.scaled_axes(), (true, false));
    assert_eq!(TransformHandle::Right.scaled_axes(), (true, false));
    assert_eq!(TransformHandle::Rotate.scaled_axes(), (false, false));
    assert_eq!(TransformHandle::TopLeft.scaled_axes(), (true, true));
    assert_eq!(TransformHandle::BottomLeft.scaled_axes(), (true, true));
}
