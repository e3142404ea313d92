use vstd::prelude::*;

use crate::tools::{Tool, TransformHandle};

verus! {

/// What lies under the pointer when the primary button goes down.
#[derive(Clone, Copy, Debug, PartialEq, Eq, Structural)]
pub enum PressTarget {
    /// The topmost shape hit, whether it is already selected and whether it
    /// is locked.
    Shape { selected: bool, locked: bool },
    /// Empty canvas.
    Empty,
}

/// How the selection changes.
#[derive(Clone, Copy, Debug, PartialEq, Eq, Structural)]
pub enum SelectionChange {
    /// Left as it is.
    Keep,
    /// Replaced by the shape under the pointer alone.
    OnlyHit,
    /// Replaced by the shape that was just added alone.
    OnlyNew,
    /// Emptied.
    Clear,
}

/// The interaction that a press starts.
#[derive(Clone, Copy, Debug, PartialEq, Eq, Structural)]
pub enum PressAction {
    /// Rotate the movable selected shapes about the selection's center.
    Rotate,
    /// Scale the movable selected shapes by dragging this handle.
    Resize(TransformHandle),
    /// Drag the movable selected shapes.
    Move,
    /// Only select; nothing is dragged.
    SelectOnly,
    /// Drag out a selection rectangle.
    Marquee,
    /// Erase the shapes under the pointer while dragging.
    Erase,
    /// Draw a fading laser trail.
    Laser,
    /// Place a text shape at the pointer.
    PlaceText,
    /// Place an image frame at the pointer.
    PlaceImage,
    /// Drag out a new shape or stroke with this tool.
    Draw(Tool),
}

/// Everything a press decides.
#[derive(Clone, Copy, Debug, PartialEq, Eq, Structural)]
pub struct PressOutcome {
    pub action: PressAction,
    pub selection: SelectionChange,
    /// Whether the document is recorded in the undo history first.
    pub checkpoint: bool,
    /// The tool that is active afterwards.
    pub tool_after: Tool,
}

/// What a press does, given the active tool, the transform handle under the
/// pointer (looked for only when there is a selection), what shape lies
/// under the pointer, and whether any selected shape is unlocked.
///
/// With the select tool, a grabbed handle rotates or resizes when some
/// selected shape can move; otherwise a hit shape becomes (or stays part of)
/// the selection and is dragged unless it is locked, and empty canvas clears
/// the selection and starts a marquee. The eraser records the document and
/// erases; the laser draws a trail; text and image tools record the
/// document, place their shape, select it and hand back to the select tool;
/// every other tool starts drawing.
pub open spec fn press_spec(
    tool: Tool,
    handle: Option<TransformHandle>,
    target: PressTarget,
    movable_selected: bool,
) -> PressOutcome {
    match tool {
        Tool::Select => {
            if handle is Some && movable_selected {
                PressOutcome {
                    action: if handle->0 is Rotate {
                        PressAction::Rotate
                    } else {
                        PressAction::Resize(handle->0)
                    },
                    selection: SelectionChange::Keep,
                    checkpoint: true,
                    tool_after: Tool::Select,
                }
            } else {
                match target {
                    PressTarget::Shape { selected, locked } => PressOutcome {
                        action: if locked {
                            PressAction::SelectOnly
                        } else {
                            PressAction::Move
                        },
                        selection: if selected {
                            SelectionChange::Keep
                        } else {
                            SelectionChange::OnlyHit
                        },
                        checkpoint: !locked,
                        tool_after: Tool::Select,
                    },
                    PressTarget::Empty => PressOutcome {
                        action: PressAction::Marquee,
                        selection: SelectionChange::Clear,
                        checkpoint: false,
                        tool_after: Tool::Select,
                    },
                }
            }
        },
        Tool::Eraser => PressOutcome {
            action: PressAction::Erase,
            selection: SelectionChange::Keep,
            checkpoint: true,
            tool_after: Tool::Eraser,
        },
        Tool::Laser => PressOutcome {
            action: PressAction::Laser,
            selection: SelectionChange::Keep,
            checkpoint: false,
            tool_after: Tool::Laser,
        },
        Tool::Text => PressOutcome {
            action: PressAction::PlaceText,
            selection: SelectionChange::OnlyNew,
            checkpoint: true,
            tool_after: Tool::Select,
        },
        Tool::Image => PressOutcome {
            action: PressAction::PlaceImage,
            selection: SelectionChange::OnlyNew,
            checkpoint: true,
            tool_after: Tool::Select,
        },
        _ => PressOutcome {
            action: PressAction::Draw(tool),
            selection: SelectionChange::Keep,
            checkpoint: false,
            tool_after: tool,
        },
    }
}

/// Decides what a press of the primary button on the canvas starts.
pub fn press_outcome(
    tool: Tool,
    handle: Option<TransformHandle>,
    target: PressTarget,
    movable_selected: bool,
) -> (o: PressOutcome)
    ensures
        o == press_spec(tool, handle, target, movable_selected),
{
    match tool {
        Tool::Select => {
            if let Some(grabbed) = handle {
                if movable_selected {
                    let action = match grabbed {
                        TransformHandle::Rotate => PressAction::Rotate,
                        _ => PressAction::Resize(grabbed),
                    };
                    return PressOutcome {
                        action,
                        selection: SelectionChange::Keep,
                        checkpoint: true,
                        tool_after: Tool::Select,
                    };
                }
            }
            match target {
                PressTarget::Shape { selected, locked } => PressOutcome {
                    action: if locked {
                        PressAction::SelectOnly
                    } else {
                        PressAction::Move
                    },
                    selection: if selected {
                        SelectionChange::Keep
                    } else {
                        SelectionChange::OnlyHit
                    },
                    checkpoint: !locked,
                    tool_after: Tool::Select,
                },
                PressTarget::Empty => PressOutcome {
                    action: PressAction::Marquee,
                    selection: SelectionChange::Clear,
                    checkpoint: false,
                    tool_after: Tool::Select,
                },
            }
        },
        Tool::Eraser => PressOutcome {
            action: PressAction::Erase,
            selection: SelectionChange::Keep,
            checkpoint: true,
            tool_after: Tool::Eraser,
        },
        Tool::Laser => PressOutcome {
            action: PressAction::Laser,
            selection: SelectionChange::Keep,
            checkpoint: false,
            tool_after: Tool::Laser,
        },
        Tool::Text => PressOutcome {
            action: PressAction::PlaceText,
            selection: SelectionChange::OnlyNew,
            checkpoint: true,
            tool_after: Tool::Select,
        },
        Tool::Image => PressOutcome {
            action: PressAction::PlaceImage,
            selection: SelectionChange::OnlyNew,
            checkpoint: true,
            tool_after: Tool::Select,
        },
        _ => PressOutcome {
            action: PressAction::Draw(tool),
            selection: SelectionChange::Keep,
            checkpoint: false,
            tool_after: tool,
        },
    }
}

/// A press never drags a locked shape: pressing on a locked shape only
/// selects it, taking no checkpoint, unless a transform handle of a movable
/// selection was grabbed (then the selection is rotated or resized).
pub proof fn lemma_locked_shape_is_never_moved(
    tool: Tool,
    handle: Option<TransformHandle>,
    selected: bool,
    movable_selected: bool,
)
    ensures
        ({
            let o = press_spec(
                tool,
                handle,
                PressTarget::Shape { selected, locked: true },
                movable_selected,
            );
            &&& o.action != PressAction::Move
            &&& (tool == Tool::Select && !(handle is Some && movable_selected)) ==> {
                &&& o.action == PressAction::SelectOnly
                &&& !o.checkpoint
            }
        }),
{
}

/// A press records the document in the undo history exactly when it starts
/// an interaction that changes the document.
pub proof fn lemma_checkpoint_before_edits(
    tool: Tool,
    handle: Option<TransformHandle>,
    target: PressTarget,
    movable_selected: bool,
)
    ensures
        ({
            let o = press_spec(tool, handle, target, movable_selected);
            o.checkpoint <==> (o.action is Rotate || o.action is Resize || o.action is Move
                || o.action is Erase || o.action is PlaceText || o.action is PlaceImage)
        }),
{
}

/// Only placing text or an image switches the tool, and then back to select.
pub proof fn lemma_press_keeps_tool(
    tool: Tool,
    handle: Option<TransformHandle>,
    target: PressTarget,
    movable_selected: bool,
)
    ensures
        ({
            let o = press_spec(tool, handle, target, movable_selected);
            &&& (tool is Text || tool is Image) ==> o.tool_after == Tool::Select
            &&& !(tool is Text || tool is Image) ==> o.tool_after == tool
        }),
{
}

/// What releasing the pointer after drawing decides.
#[derive(Clone, Copy, Debug, PartialEq, Eq, Structural)]
pub struct DrawFinish {
    /// Whether the drawn shape is added to the document; the document is
    /// recorded in the undo history first exactly when it is.
    pub add_shape: bool,
    pub selection: SelectionChange,
    /// The tool that is active afterwards.
    pub tool_after: Tool,
}

/// A drawn shape is kept only when it is visible. Freehand tools stay active
/// and leave the selection alone; any other tool selects the new shape alone
/// and hands back to the select tool.
pub open spec fn draw_finish_spec(tool: Tool, visible: bool) -> DrawFinish {
    if !visible {
        DrawFinish { add_shape: false, selection: SelectionChange::Keep, tool_after: tool }
    } else if tool is Pen || tool is Pencil || tool is Highlighter {
        DrawFinish { add_shape: true, selection: SelectionChange::Keep, tool_after: tool }
    } else {
        DrawFinish { add_shape: true, selection: SelectionChange::OnlyNew, tool_after: Tool::Select }
    }
}

/// Decides what happens when a drawing drag with `tool` ends, `visible`
/// telling whether the drawn shape spans more than a pixel of the world.
pub fn finish_draw(tool: Tool, visible: bool) -> (f: DrawFinish)
    ensures
        f == draw_finish_spec(tool, visible),
{
    if !visible {
        DrawFinish { add_shape: false, selection: SelectionChange::Keep, tool_after: tool }
    } else if tool.is_freehand() {
        DrawFinish { add_shape: true, selection: SelectionChange::Keep, tool_after: tool }
    } else {
        DrawFinish { add_shape: true, selection: SelectionChange::OnlyNew, tool_after: Tool::Select }
    }
}

/// The commands that keyboard shortcuts run, besides choosing tools.
#[derive(Clone, Copy, Debug, PartialEq, Eq, Structural)]
pub enum Command {
    Undo,
    Redo,
    Save,
    Open,
    New,
    Duplicate,
    Delete,
    ResetZoom,
    ZoomIn,
    ZoomOut,
}

/// The key character for the Delete key.
pub open spec fn delete_key() -> char {
    '\u{7f}'
}

/// The key character for the Backspace key.
pub open spec fn backspace_key() -> char {
    '\u{8}'
}

/// The command that `key` runs, `command` and `shift` telling which
/// modifiers are held: Ctrl+Z undo, Ctrl+Shift+Z redo, Ctrl+S save, Ctrl+O
/// open, Ctrl+N new, Ctrl+D duplicate, Delete or Backspace delete, 0 reset
/// zoom, = zoom in, - zoom out.
pub open spec fn command_spec(key: char, command: bool, shift: bool) -> Option<Command> {
    if command && key == 'Z' {
        Some(if shift { Command::Redo } else { Command::Undo })
    } else if command && key == 'S' {
        Some(Command::Save)
    } else if command && key == 'O' {
        Some(Command::Open)
    } else if command && key == 'N' {
        Some(Command::New)
    } else if command && key == 'D' {
        Some(Command::Duplicate)
    } else if key == delete_key() || key == backspace_key() {
        Some(Command::Delete)
    } else if key == '0' {
        Some(Command::ResetZoom)
    } else if key == '=' {
        Some(Command::ZoomIn)
    } else if key == '-' {
        Some(Command::ZoomOut)
    } else {
        None
    }
}

/// The command that pressing `key` runs: letters are upper case, Delete is
/// `'\u{7f}'` and Backspace `'\u{8}'`.
pub fn command_for_key(key: char, command: bool, shift: bool) -> (c: Option<Command>)
    ensures
        c == command_spec(key, command, shift),
{
    if command && key == 'Z' {
        if shift {
            Some(Command::Redo)
        } else {
            Some(Command::Undo)
        }
    } else if command && key == 'S' {
        Some(Command::Save)
    } else if command && key == 'O' {
        Some(Command::Open)
    } else if command && key == 'N' {
        Some(Command::New)
    } else if command && key == 'D' {
        Some(Command::Duplicate)
    } else if key == '\u{7f}' || key == '\u{8}' {
        Some(Command::Delete)
    } else if key == '0' {
        Some(Command::ResetZoom)
    } else if key == '=' {
        Some(Command::ZoomIn)
    } else if key == '-' {
        Some(Command::ZoomOut)
    } else {
        None
    }
}

/// No key press both chooses a tool and runs a command.
pub proof fn lemma_shortcuts_do_not_overlap(key: char, command: bool, shift: bool)
    ensures
        !(crate::tools::shortcut_tool(key, command) is Some && command_spec(key, command, shift) is Some),
{
    if crate::tools::shortcut_tool(key, command) is Some {
        let t = choose|t: Tool|
            crate::tools::hotkey_char(t) == key && !(command && crate::tools::yields_to_command(t));
        assert(crate::tools::hotkey_char(t) == key);
    }
}

/// A press with any drawing tool (every tool but select, eraser, laser, text
/// and image) starts drawing with that same tool, leaves the selection and
/// the tool alone, and records nothing yet.
pub proof fn lemma_press_draws_with_active_tool(
    tool: Tool,
    handle: Option<TransformHandle>,
    target: PressTarget,
    movable_selected: bool,
)
    requires
        tool != Tool::Select,
        tool != Tool::Eraser,
        tool != Tool::Laser,
        tool != Tool::Text,
        tool != Tool::Image,
    ensures
        press_spec(tool, handle, target, movable_selected).action == PressAction::Draw(tool),
        press_spec(tool, handle, target, movable_selected).selection == SelectionChange::Keep,
        !press_spec(tool, handle, target, movable_selected).checkpoint,
        press_spec(tool, handle, target, movable_selected).tool_after == tool,
{
}

/// Grabbing a handle of a selection that has a movable shape records the
/// document and transforms by that very handle: the rotate handle rotates,
/// any other handle resizes by itself; the selection and tool stay.
pub proof fn lemma_grabbed_handle_transforms(handle: TransformHandle, target: PressTarget)
    ensures
        handle != TransformHandle::Rotate ==> press_spec(
            Tool::Select,
            Some(handle),
            target,
            true,
        ).action == PressAction::Resize(handle),
        handle == TransformHandle::Rotate ==> press_spec(
            Tool::Select,
            Some(handle),
            target,
            true,
        ).action == PressAction::Rotate,
        press_spec(Tool::Select, Some(handle), target, true).checkpoint,
        press_spec(Tool::Select, Some(handle), target, true).selection == SelectionChange::Keep,
        press_spec(Tool::Select, Some(handle), target, true).tool_after == Tool::Select,
{
}

/// With the select tool and no handle of a movable selection grabbed: an
/// unlocked shape is dragged (after recording the document), becoming the
/// whole selection unless it was already selected; empty canvas clears the
/// selection and starts a marquee without recording anything.
pub proof fn lemma_select_press_without_handle(
    handle: Option<TransformHandle>,
    selected: bool,
    movable_selected: bool,
)
    requires
        !(handle is Some && movable_selected),
    ensures
        press_spec(
            Tool::Select,
            handle,
            PressTarget::Shape { selected, locked: false },
            movable_selected,
        ) == (PressOutcome {
            action: PressAction::Move,
            selection: if selected {
                SelectionChange::Keep
            } else {
                SelectionChange::OnlyHit
            },
            checkpoint: true,
            tool_after: Tool::Select,
        }),
        press_spec(Tool::Select, handle, PressTarget::Empty, movable_selected) == (PressOutcome {
            action: PressAction::Marquee,
            selection: SelectionChange::Clear,
            checkpoint: false,
            tool_after: Tool::Select,
        }),
{
}

/// The eraser records the document and erases; the laser only draws its
/// trail; text and image tools record the document, place their shape,
/// select it alone and switch to the select tool. None of this depends on
/// what lies under the pointer.
pub proof fn lemma_special_tool_presses(
    handle: Option<TransformHandle>,
    target: PressTarget,
    movable_selected: bool,
)
    ensures
        press_spec(Tool::Eraser, handle, target, movable_selected) == (PressOutcome {
            action: PressAction::Erase,
            selection: SelectionChange::Keep,
            checkpoint: true,
            tool_after: Tool::Eraser,
        }),
        press_spec(Tool::Laser, handle, target, movable_selected) == (PressOutcome {
            action: PressAction::Laser,
            selection: SelectionChange::Keep,
            checkpoint: false,
            tool_after: Tool::Laser,
        }),
        press_spec(Tool::Text, handle, target, movable_selected) == (PressOutcome {
            action: PressAction::PlaceText,
            selection: SelectionChange::OnlyNew,
            checkpoint: true,
            tool_after: Tool::Select,
        }),
        press_spec(Tool::Image, handle, target, movable_selected) == (PressOutcome {
            action: PressAction::PlaceImage,
            selection: SelectionChange::OnlyNew,
            checkpoint: true,
            tool_after: Tool::Select,
        }),
{
}

/// Ending a drawing: an invisible shape is dropped and nothing changes; a
/// visible stroke of the pen, pencil or highlighter is added while that tool
/// stays active and the selection is left alone; a visible shape of any
/// other tool is added, becomes the whole selection, and the select tool
/// takes over.
pub proof fn lemma_finish_draw_outcomes(tool: Tool)
    ensures
        draw_finish_spec(tool, false) == (DrawFinish {
            add_shape: false,
            selection: SelectionChange::Keep,
            tool_after: tool,
        }),
        (tool == Tool::Pen || tool == Tool::Pencil || tool == Tool::Highlighter)
            ==> draw_finish_spec(tool, true) == (DrawFinish {
            add_shape: true,
            selection: SelectionChange::Keep,
            tool_after: tool,
        }),
        !(tool == Tool::Pen || tool == Tool::Pencil || tool == Tool::Highlighter)
            ==> draw_finish_spec(tool, true) == (DrawFinish {
            add_shape: true,
            selection: SelectionChange::OnlyNew,
            tool_after: Tool::Select,
        }),
{
}

/// Delete and Backspace delete, and 0, = and - reset, raise and lower the
/// zoom, whatever modifiers are held.
pub proof fn lemma_unmodified_command_keys(command: bool, shift: bool)
    ensures
        command_spec('\u{7f}', command, shift) == Some(Command::Delete),
        command_spec('\u{8}', command, shift) == Some(Command::Delete),
        command_spec('0', command, shift) == Some(Command::ResetZoom),
        command_spec('=', command, shift) == Some(Command::ZoomIn),
        command_spec('-', command, shift) == Some(Command::ZoomOut),
{
}

/// With the command modifier, Z undoes (redoes with shift), S saves, O
/// opens, N starts a new document and D duplicates; without it no letter
/// runs a command.
pub proof fn lemma_command_letters(key: char, shift: bool)
    ensures
        command_spec('Z', true, false) == Some(Command::Undo),
        command_spec('Z', true, true) == Some(Command::Redo),
        command_spec('S', true, shift) == Some(Command::Save),
        command_spec('O', true, shift) == Some(Command::Open),
        command_spec('N', true, shift) == Some(Command::New),
        command_spec('D', true, shift) == Some(Command::Duplicate),
        ('A' <= key <= 'Z') ==> command_spec(key, false, shift) is None,
        ('A' <= key <= 'Z' && key != 'Z' && key != 'S' && key != 'O' && key != 'N' && key != 'D')
            ==> command_spec(key, true, shift) is None,
{
}

} // verus!
