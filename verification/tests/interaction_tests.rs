use ldraw::interaction::{
    command_for_key, finish_draw, press_outcome, Command, DrawFinish, PressAction, PressOutcome,
    PressTarget, SelectionChange,
};
use ldraw::tools::{Tool, TransformHandle};

fn outcome(
    action: PressAction,
    selection: SelectionChange,
    checkpoint: bool,
    tool_after: Tool,
) -> PressOutcome {
    PressOutcome { action, selection, checkpoint, tool_after }
}

#[test]
fn grabbed_handle_rotates_or_resizes() {
    let target = PressTarget::Empty;
    assert_eq!(
        press_outcome(Tool::Select, Some(TransformHandle::Rotate), target, true),
        outcome(PressAction::Rotate, SelectionChange::Keep, true, Tool::Select)
    );
    assert_eq!(
        press_outcome(Tool::Select, Some(TransformHandle::Left), target, true),
        outcome(PressAction::Resize(TransformHandle::Left), SelectionChange::Keep, true, Tool::Select)
    );
}

#[test]
fn handle_of_locked_selection_falls_through_to_hit() {
    let target = PressTarget::Shape { selected: true, locked: true };
    assert_eq!(
        press_outcome(Tool::Select, Some(TransformHandle::Top), target, false),
        outcome(PressAction::SelectOnly, SelectionChange::Keep, false, Tool::Select)
    );
    assert_eq!(
        press_outcome(Tool::Select, Some(TransformHandle::Top), PressTarget::Empty, false),
        outcome(PressAction::Marquee, SelectionChange::Clear, false, Tool::Select)
    );
}

#[test]
fn hit_shapes_are_selected_and_moved_unless_locked() {
    assert_eq!(
        press_outcome(Tool::Select, None, PressTarget::Shape { selected: false, locked: false }, false),
        outcome(PressAction::Move, SelectionChange::OnlyHit, true, Tool::Select)
    );
    assert_eq!(
        press_outcome(Tool::Select, None, PressTarget::Shape { selected: true, locked: false }, true),
        outcome(PressAction::Move, SelectionChange::Keep, true, Tool::Select)
    );
    assert_eq!(
        press_outcome(Tool::Select, None, PressTarget::Shape { selected: false, locked: true }, true),
        outcome(PressAction::SelectOnly, SelectionChange::OnlyHit, false, Tool::Select)
    );
}

#[test]
fn empty_canvas_starts_marquee() {
    assert_eq!(
        press_outcome(Tool::Select, None, PressTarget::Empty, true),
        outcome(PressAction::Marquee, SelectionChange::Clear, false, Tool::Select)
    );
}

#[test]
fn other_tools() {
    let t = PressTarget::Empty;
    assert_eq!(
        press_outcome(Tool::Eraser, None, t, false),
        outcome(PressAction::Erase, SelectionChange::Keep, true, Tool::Eraser)
    );
    assert_eq!(
        press_outcome(Tool::Laser, None, t, false),
        outcome(PressAction::Laser, SelectionChange::Keep, false, Tool::Laser)
    );
    assert_eq!(
        press_outcome(Tool::Text, None, t, false),
        outcome(PressAction::PlaceText, SelectionChange::OnlyNew, true, Tool::Select)
    );
    assert_eq!(
        press_outcome(Tool::Image, None, t, false),
        outcome(PressAction::PlaceImage, SelectionChange::OnlyNew, true, Tool::Select)
    );
    for tool in [Tool::Pen, Tool::Rectangle, Tool::Star, Tool::Line] {
        assert_eq!(
            press_outcome(tool, Some(TransformHandle::Top), PressTarget::Shape { selected: true, locked: false }, true),
            outcome(PressAction::Draw(tool), SelectionChange::Keep, false, tool)
        );
    }
}

#[test]
fn finishing_a_drawing() {
    assert_eq!(
        finish_draw(Tool::Rectangle, true),
        DrawFinish { add_shape: true, selection: SelectionChange::OnlyNew, tool_after: Tool::Select }
    );
    assert_eq!(
        finish_draw(Tool::Pen, true),
        DrawFinish { add_shape: true, selection: SelectionChange::Keep, tool_after: Tool::Pen }
    );
    assert_eq!(
        finish_draw(Tool::Line, false),
        DrawFinish { add_shape: false, selection: SelectionChange::Keep, tool_after: Tool::Line }
    );
}

#[test]
fn command_shortcuts_match_the_controls() {
    assert_eq!(command_for_key('Z', true, false), Some(Command::Undo));
    assert_eq!(command_for_key('Z', true, true), Some(Command::Redo));
    assert_eq!(command_for_key('S', true, false), Some(Command::Save));
    assert_eq!(command_for_key('O', true, false), Some(Command::Open));
    assert_eq!(command_for_key('N', true, false), Some(Command::New));
    assert_eq!(command_for_key('D', true, false), Some(Command::Duplicate));
    assert_eq!(command_for_key('\u{7f}', false, false), Some(Command::Delete));
    assert_eq!(command_for_key('\u{8}', true, false), Some(Command::Delete));
    assert_eq!(command_for_key('0', false, false), Some(Command::ResetZoom));
    assert_eq!(command_for_key('=', false, false), Some(Command::ZoomIn));
    assert_eq!(command_for_key('-', false, true), Some(Command::ZoomOut));
    assert_eq!(command_for_key('Z', false, false), None);
    assert_eq!(command_for_key('S', false, false), None);
    assert_eq!(command_for_key('V', true, false), None);
}

#[test]
fn no_key_both_selects_a_tool_and_runs_a_command() {
    let keys = "ABCDEFGHIJKLMNOPQRSTUVWXYZ0=-\u{7f}\u{8}";
    for key in keys.chars() {
        for command in [false, true] {
            for shift in [false, true] {
                assert!(
                    !(Tool::for_shortcut(key, command).is_some()
                        && command_for_key(key, command, shift).is_some())
                );
            }
        }
    }
}
