//! Drawing commands: what one tick asks of the rendering surface.
//!
//! The library never touches a surface. It says what is to be drawn, as a list
//! of commands that the caller carries out in order.

use vstd::prelude::*;

verus! {

/// The colours that a frame uses.
#[derive(Clone, Copy, Debug, PartialEq, Eq, Structural)]
pub enum Color {
    Black,
    Yellow,
}

/// An axis-aligned rectangle, by its origin corner and its extent.
#[derive(Clone, Copy, Debug, PartialEq, Eq, Structural)]
pub struct Rect {
    pub x: i64,
    pub y: i64,
    pub width: i64,
    pub height: i64,
}

/// One request to the rendering surface.
#[derive(Clone, Copy, Debug, PartialEq, Eq, Structural)]
pub enum DrawCommand {
    SetStrokeStyle(Color),
    SetFillStyle(Color),
    ClearRect(Rect),
    FillRect(Rect),
    StrokeRect(Rect),
}

impl DrawCommand {
    /// Whether the command sets a style, rather than drawing or wiping.
    pub open spec fn is_style(self) -> bool {
        self is SetStrokeStyle || self is SetFillStyle
    }
}

/// The colours of the entity: a yellow outline round a black body.
pub open spec fn startup_commands() -> Seq<DrawCommand> {
    seq![DrawCommand::SetStrokeStyle(Color::Yellow), DrawCommand::SetFillStyle(Color::Black)]
}

/// The style commands of a run. They are carried out once, before the first
/// tick, and hold from then on: no frame changes the stroke colour, and the
/// only fill colour that a frame sets is the black that is set here.
pub fn startup_style() -> (commands: Vec<DrawCommand>)
    ensures
        commands@ == startup_commands(),
{
    let mut commands: Vec<DrawCommand> = Vec::new();
    commands.push(DrawCommand::SetStrokeStyle(Color::Yellow));
    commands.push(DrawCommand::SetFillStyle(Color::Black));
    assert(commands@ =~= startup_commands());
    commands
}

/// The rectangle that covers a surface of the given extent.
pub open spec fn whole_surface(width: i64, height: i64) -> Rect {
    Rect { x: 0, y: 0, width, height }
}

/// The commands that wipe a surface of the given extent and paint it black.
pub open spec fn clear_commands(width: i64, height: i64) -> Seq<DrawCommand> {
    seq![
        DrawCommand::SetFillStyle(Color::Black),
        DrawCommand::ClearRect(whole_surface(width, height)),
        DrawCommand::FillRect(whole_surface(width, height)),
    ]
}

/// Wipes the whole surface: black fill style, then clear and fill over its
/// full extent.
pub fn clear_screen(width: i64, height: i64) -> (commands: Vec<DrawCommand>)
    ensures
        commands@ == clear_commands(width, height),
{
    let surface = Rect { x: 0, y: 0, width, height };
    let mut commands: Vec<DrawCommand> = Vec::new();
    commands.push(DrawCommand::SetFillStyle(Color::Black));
    commands.push(DrawCommand::ClearRect(surface));
    commands.push(DrawCommand::FillRect(surface));
    assert(commands@ =~= clear_commands(width, height));
    commands
}

} // verus!
