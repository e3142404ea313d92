use vstd::prelude::*;

verus! {

/// The drawing tools of the whiteboard.
#[derive(Clone, Copy, Debug, Default, PartialEq, Eq, Hash, Structural)]
pub enum Tool {
    #[default]
    Select,
    Hand,
    Laser,
    Pen,
    Pencil,
    Highlighter,
    Eraser,
    Line,
    Arrow,
    Rectangle,
    Ellipse,
    Diamond,
    Triangle,
    Polygon,
    Star,
    Text,
    Image,
}

/// The label shown for a tool.
pub open spec fn tool_name(tool: Tool) -> Seq<char> {
    match tool {
        Tool::Select => "Select"@,
        Tool::Hand => "Hand"@,
        Tool::Laser => "Laser"@,
        Tool::Pen => "Pen"@,
        Tool::Pencil => "Pencil"@,
        Tool::Highlighter => "Highlighter"@,
        Tool::Eraser => "Eraser"@,
        Tool::Line => "Line"@,
        Tool::Arrow => "Arrow"@,
        Tool::Rectangle => "Rectangle"@,
        Tool::Ellipse => "Ellipse"@,
        Tool::Diamond => "Diamond"@,
        Tool::Triangle => "Triangle"@,
        Tool::Polygon => "Polygon"@,
        Tool::Star => "Star"@,
        Tool::Text => "Text"@,
        Tool::Image => "Image"@,
    }
}

/// The key (an upper-case letter) that selects a tool.
pub open spec fn hotkey_char(tool: Tool) -> char {
    match tool {
        Tool::Select => 'V',
        Tool::Hand => 'H',
        Tool::Laser => 'K',
        Tool::Pen => 'P',
        Tool::Pencil => 'N',
        Tool::Highlighter => 'Y',
        Tool::Eraser => 'E',
        Tool::Line => 'L',
        Tool::Arrow => 'A',
        Tool::Rectangle => 'R',
        Tool::Ellipse => 'O',
        Tool::Diamond => 'D',
        Tool::Triangle => 'T',
        Tool::Polygon => 'G',
        Tool::Star => 'S',
        Tool::Text => 'X',
        Tool::Image => 'I',
    }
}

/// Tools whose key, pressed together with the command modifier, is left to
/// a command (new, open, duplicate, save) instead of selecting the tool.
pub open spec fn yields_to_command(tool: Tool) -> bool {
    tool is Pencil || tool is Ellipse || tool is Diamond || tool is Triangle || tool is Star
}

/// The tool that pressing `key` selects, with or without the command modifier.
pub open spec fn shortcut_tool(key: char, command: bool) -> Option<Tool> {
    if exists|t: Tool| hotkey_char(t) == key && !(command && yields_to_command(t)) {
        Some(choose|t: Tool| hotkey_char(t) == key && !(command && yields_to_command(t)))
    } else {
        None
    }
}

impl Tool {
    /// Every tool, in the order of the toolbar.
    pub const LEFT_TOOLBAR: [Tool; 17] = [
        Tool::Select,
        Tool::Hand,
        Tool::Laser,
        Tool::Pen,
        Tool::Pencil,
        Tool::Highlighter,
        Tool::Eraser,
        Tool::Line,
        Tool::Arrow,
        Tool::Rectangle,
        Tool::Ellipse,
        Tool::Diamond,
        Tool::Triangle,
        Tool::Polygon,
        Tool::Star,
        Tool::Text,
        Tool::Image,
    ];

    pub fn name(self) -> (s: &'static str)
        ensures
            s@ == tool_name(self),
    {
        match self {
            Tool::Select => "Select",
            Tool::Hand => "Hand",
            Tool::Laser => "Laser",
            Tool::Pen => "Pen",
            Tool::Pencil => "Pencil",
            Tool::Highlighter => "Highlighter",
            Tool::Eraser => "Eraser",
            Tool::Line => "Line",
            Tool::Arrow => "Arrow",
            Tool::Rectangle => "Rectangle",
            Tool::Ellipse => "Ellipse",
            Tool::Diamond => "Diamond",
            Tool::Triangle => "Triangle",
            Tool::Polygon => "Polygon",
            Tool::Star => "Star",
            Tool::Text => "Text",
            Tool::Image => "Image",
        }
    }

    pub fn hotkey(self) -> (s: &'static str)
        ensures
            s@ == seq![hotkey_char(self)],
    {
        match self {
            Tool::Select => {
                proof {
                    reveal_strlit("V");
                }
                "V"
            },
            Tool::Hand => {
                proof {
                    reveal_strlit("H");
                }
                "H"
            },
            Tool::Laser => {
                proof {
                    reveal_strlit("K");
                }
                "K"
            },
            Tool::Pen => {
                proof {
                    reveal_strlit("P");
                }
                "P"
            },
            Tool::Pencil => {
                proof {
                    reveal_strlit("N");
                }
                "N"
            },
            Tool::Highlighter => {
                proof {
                    reveal_strlit("Y");
                }
                "Y"
            },
            Tool::Eraser => {
                proof {
                    reveal_strlit("E");
                }
                "E"
            },
            Tool::Line => {
                proof {
                    reveal_strlit("L");
                }
                "L"
            },
            Tool::Arrow => {
                proof {
                    reveal_strlit("A");
                }
                "A"
            },
            Tool::Rectangle => {
                proof {
                    reveal_strlit("R");
                }
                "R"
            },
            Tool::Ellipse => {
                proof {
                    reveal_strlit("O");
                }
                "O"
            },
            Tool::Diamond => {
                proof {
                    reveal_strlit("D");
                }
                "D"
            },
            Tool::Triangle => {
                proof {
                    reveal_strlit("T");
                }
                "T"
            },
            Tool::Polygon => {
                proof {
                    reveal_strlit("G");
                }
                "G"
            },
            Tool::Star => {
                proof {
                    reveal_strlit("S");
                }
                "S"
            },
            Tool::Text => {
                proof {
                    reveal_strlit("X");
                }
                "X"
            },
            Tool::Image => {
                proof {
                    reveal_strlit("I");
                }
                "I"
            },
        }
    }

    /// Pen, pencil and highlighter draw free strokes.
    pub fn is_freehand(self) -> (b: bool)
        ensures
            b == (self is Pen || self is Pencil || self is Highlighter),
    {
        match self {
            Tool::Pen | Tool::Pencil | Tool::Highlighter => true,
            _ => false,
        }
    }

    /// The tool that the key `key` (an upper-case letter) selects, `command`
    /// telling whether the command modifier is held.
    pub fn for_shortcut(key: char, command: bool) -> (t: Option<Tool>)
        ensures
            t == shortcut_tool(key, command),
    {
        let found = match key {
            'V' => Some(Tool::Select),
            'H' => Some(Tool::Hand),
            'K' => Some(Tool::Laser),
            'P' => Some(Tool::Pen),
            'N' => Some(Tool::Pencil),
            'Y' => Some(Tool::Highlighter),
            'E' => Some(Tool::Eraser),
            'L' => Some(Tool::Line),
            'A' => Some(Tool::Arrow),
            'R' => Some(Tool::Rectangle),
            'O' => Some(Tool::Ellipse),
            'D' => Some(Tool::Diamond),
            'T' => Some(Tool::Triangle),
            'G' => Some(Tool::Polygon),
            'S' => Some(Tool::Star),
            'X' => Some(Tool::Text),
            'I' => Some(Tool::Image),
            _ => None,
        };
        let result = match found {
            Some(tool) => {
                if command && matches!(tool, Tool::Pencil | Tool::Ellipse | Tool::Diamond | Tool::Triangle | Tool::Star) {
                    None
                } else {
                    Some(tool)
                }
            },
            None => None,
        };
        proof {
            lemma_hotkey_injective_all();
            match found {
                Some(tool) => {
                    assert(hotkey_char(tool) == key);
                },
                None => {
                    assert forall|t: Tool| hotkey_char(t) != key by {
                        match t {
                            _ => {},
                        }
                    }
                },
            }
        }
        result
    }
}

/// No two tools share a key.
pub proof fn lemma_hotkey_injective(a: Tool, b: Tool)
    ensures
        hotkey_char(a) == hotkey_char(b) ==> a == b,
{
}

proof fn lemma_hotkey_injective_all()
    ensures
        forall|a: Tool, b: Tool| #[trigger] hotkey_char(a) == #[trigger] hotkey_char(b) ==> a == b,
{
    assert forall|a: Tool, b: Tool| #[trigger] hotkey_char(a) == #[trigger] hotkey_char(b) implies a == b by {
        lemma_hotkey_injective(a, b);
    }
}

/// Each tool's key selects that tool when no modifier is held.
pub proof fn lemma_hotkey_selects_tool(tool: Tool)
    ensures
        shortcut_tool(hotkey_char(tool), false) == Some(tool),
{
    lemma_hotkey_injective_all();
    assert(hotkey_char(tool) == hotkey_char(tool) && !(false && yields_to_command(tool)));
}

/// The toolbar lists every tool, each exactly once.
pub proof fn lemma_toolbar_lists_every_tool_once()
    ensures
        forall|t: Tool| #[trigger] Tool::LEFT_TOOLBAR@.contains(t),
        Tool::LEFT_TOOLBAR@.no_duplicates(),
{
    let bar = Tool::LEFT_TOOLBAR@;
    assert(bar =~= seq![
        Tool::Select,
        Tool::Hand,
        Tool::Laser,
        Tool::Pen,
        Tool::Pencil,
        Tool::Highlighter,
        Tool::Eraser,
        Tool::Line,
        Tool::Arrow,
        Tool::Rectangle,
        Tool::Ellipse,
        Tool::Diamond,
        Tool::Triangle,
        Tool::Polygon,
        Tool::Star,
        Tool::Text,
        Tool::Image,
    ]);
    assert forall|t: Tool| #[trigger] bar.contains(t) by {
        match t {
            Tool::Select => assert(bar[0] == t),
            Tool::Hand => assert(bar[1] == t),
            Tool::Laser => assert(bar[2] == t),
            Tool::Pen => assert(bar[3] == t),
            Tool::Pencil => assert(bar[4] == t),
            Tool::Highlighter => assert(bar[5] == t),
            Tool::Eraser => assert(bar[6] == t),
            Tool::Line => assert(bar[7] == t),
            Tool::Arrow => assert(bar[8] == t),
            Tool::Rectangle => assert(bar[9] == t),
            Tool::Ellipse => assert(bar[10] == t),
            Tool::Diamond => assert(bar[11] == t),
            Tool::Triangle => assert(bar[12] == t),
            Tool::Polygon => assert(bar[13] == t),
            Tool::Star => assert(bar[14] == t),
            Tool::Text => assert(bar[15] == t),
            Tool::Image => assert(bar[16] == t),
        }
    }
    assert forall|i: int, j: int|
        0 <= i < bar.len() && 0 <= j < bar.len() && i != j implies #[trigger] bar[i] != #[trigger] bar[j] by {
        lemma_hotkey_injective(bar[i], bar[j]);
    }
}

/// How a selection's bounding box is being transformed.
#[derive(Clone, Copy, Debug, PartialEq, Eq, Structural)]
pub enum TransformHandle {
    TopLeft,
    Top,
    TopRight,
    Right,
    BottomRight,
    Bottom,
    BottomLeft,
    Left,
    Rotate,
}

/// A position along one axis of a box: its low edge, its middle or its high edge.
#[derive(Clone, Copy, Debug, PartialEq, Eq, Structural)]
pub enum Edge {
    Min,
    Center,
    Max,
}

/// The position across the middle of the box from `edge`.
pub open spec fn opposite(edge: Edge) -> Edge {
    match edge {
        Edge::Min => Edge::Max,
        Edge::Center => Edge::Center,
        Edge::Max => Edge::Min,
    }
}

/// Where a resize handle sits on the selection box, as (x, y); y grows downward,
/// so `Min` along y is the top. The rotate handle's base is the top middle.
pub open spec fn handle_placement(handle: TransformHandle) -> (Edge, Edge) {
    match handle {
        TransformHandle::TopLeft => (Edge::Min, Edge::Min),
        TransformHandle::Top => (Edge::Center, Edge::Min),
        TransformHandle::TopRight => (Edge::Max, Edge::Min),
        TransformHandle::Right => (Edge::Max, Edge::Center),
        TransformHandle::BottomRight => (Edge::Max, Edge::Max),
        TransformHandle::Bottom => (Edge::Center, Edge::Max),
        TransformHandle::BottomLeft => (Edge::Min, Edge::Max),
        TransformHandle::Left => (Edge::Min, Edge::Center),
        TransformHandle::Rotate => (Edge::Center, Edge::Min),
    }
}

/// The point a drag on `handle` moves: the handle itself, or the middle of the
/// box for the rotate handle.
pub open spec fn handle_pivot(handle: TransformHandle) -> (Edge, Edge) {
    if handle is Rotate {
        (Edge::Center, Edge::Center)
    } else {
        handle_placement(handle)
    }
}

/// The point that stays fixed while `handle` is dragged: across the middle of
/// the box from the pivot.
pub open spec fn handle_anchor(handle: TransformHandle) -> (Edge, Edge) {
    (opposite(handle_pivot(handle).0), opposite(handle_pivot(handle).1))
}

/// The axes, (x, y), that a drag on `handle` scales.
pub open spec fn handle_scaled_axes(handle: TransformHandle) -> (bool, bool) {
    if handle is Rotate {
        (false, false)
    } else {
        (handle_placement(handle).0 != Edge::Center, handle_placement(handle).1 != Edge::Center)
    }
}

impl TransformHandle {
    /// Where the handle is drawn on the selection box, as (x, y).
    pub fn placement(self) -> (p: (Edge, Edge))
        ensures
            p == handle_placement(self),
    {
        match self {
            TransformHandle::TopLeft => (Edge::Min, Edge::Min),
            TransformHandle::Top => (Edge::Center, Edge::Min),
            TransformHandle::TopRight => (Edge::Max, Edge::Min),
            TransformHandle::Right => (Edge::Max, Edge::Center),
            TransformHandle::BottomRight => (Edge::Max, Edge::Max),
            TransformHandle::Bottom => (Edge::Center, Edge::Max),
            TransformHandle::BottomLeft => (Edge::Min, Edge::Max),
            TransformHandle::Left => (Edge::Min, Edge::Center),
            TransformHandle::Rotate => (Edge::Center, Edge::Min),
        }
    }

    /// The point a drag on this handle moves, as (x, y): the handle itself,
    /// or the middle of the box for the rotate handle.
    pub fn pivot(self) -> (p: (Edge, Edge))
        ensures
            p == handle_pivot(self),
    {
        match self {
            TransformHandle::Rotate => (Edge::Center, Edge::Center),
            _ => self.placement(),
        }
    }

    /// The point that stays fixed while this handle is dragged, as (x, y):
    /// the point across the middle of the box from the pivot.
    pub fn anchor(self) -> (a: (Edge, Edge))
        ensures
            a == handle_anchor(self),
    {
        match self {
            TransformHandle::TopLeft => (Edge::Max, Edge::Max),
            TransformHandle::Top => (Edge::Center, Edge::Max),
            TransformHandle::TopRight => (Edge::Min, Edge::Max),
            TransformHandle::Right => (Edge::Min, Edge::Center),
            TransformHandle::BottomRight => (Edge::Min, Edge::Min),
            TransformHandle::Bottom => (Edge::Center, Edge::Min),
            TransformHandle::BottomLeft => (Edge::Max, Edge::Min),
            TransformHandle::Left => (Edge::Max, Edge::Center),
            TransformHandle::Rotate => (Edge::Center, Edge::Center),
        }
    }

    /// Which axes, (x, y), a drag on this handle scales: corners scale both,
    /// side handles one, the rotate handle none.
    pub fn scaled_axes(self) -> (axes: (bool, bool))
        ensures
            axes == handle_scaled_axes(self),
    {
        match self {
            TransformHandle::Top | TransformHandle::Bottom => (false, true),
            TransformHandle::Left | TransformHandle::Right => (true, false),
            TransformHandle::Rotate => (false, false),
            _ => (true, true),
        }
    }
}

/// Along each axis a drag scales exactly when its anchor and pivot differ;
/// the pivot of every resize handle is where the handle is drawn.
pub proof fn lemma_scaled_axes_follow_anchor(handle: TransformHandle)
    ensures
        handle_scaled_axes(handle).0 <==> handle_anchor(handle).0 != handle_pivot(handle).0,
        handle_scaled_axes(handle).1 <==> handle_anchor(handle).1 != handle_pivot(handle).1,
        !(handle is Rotate) ==> handle_pivot(handle) == handle_placement(handle),
{
}

/// Every resize handle sits at a different place on the box.
pub proof fn lemma_resize_handles_distinct(h1: TransformHandle, h2: TransformHandle)
    requires
        !(h1 is Rotate),
        !(h2 is Rotate),
        handle_placement(h1) == handle_placement(h2),
    ensures
        h1 == h2,
{
}

/// The controls of the whiteboard: V select, H hand, K laser, P pen,
/// N pencil, Y highlighter, E eraser, L line, A arrow, R rectangle,
/// O ellipse, D diamond, T triangle, G polygon, S star, X text, I image.
pub proof fn lemma_documented_hotkeys()
    ensures
        hotkey_char(Tool::Select) == 'V',
        hotkey_char(Tool::Hand) == 'H',
        hotkey_char(Tool::Laser) == 'K',
        hotkey_char(Tool::Pen) == 'P',
        hotkey_char(Tool::Pencil) == 'N',
        hotkey_char(Tool::Highlighter) == 'Y',
        hotkey_char(Tool::Eraser) == 'E',
        hotkey_char(Tool::Line) == 'L',
        hotkey_char(Tool::Arrow) == 'A',
        hotkey_char(Tool::Rectangle) == 'R',
        hotkey_char(Tool::Ellipse) == 'O',
        hotkey_char(Tool::Diamond) == 'D',
        hotkey_char(Tool::Triangle) == 'T',
        hotkey_char(Tool::Polygon) == 'G',
        hotkey_char(Tool::Star) == 'S',
        hotkey_char(Tool::Text) == 'X',
        hotkey_char(Tool::Image) == 'I',
{
}

} // verus!
