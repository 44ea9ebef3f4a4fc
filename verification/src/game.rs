//! The simulation state: the arena, the entity, and the pending action.
//!
//! The pending action is a single-slot mailbox. Key events overwrite it, a tick
//! reads it and never resets it: a held key moves the entity on every tick,
//! until the key's release writes the idle action.

use vstd::prelude::*;
use crate::action::{key_action, translate, ActionCode};
use crate::entity::{lemma_clamp_invariant, Player};
use crate::render::{clear_commands, clear_screen, startup_commands, Color, DrawCommand};

verus! {

/// A keyboard event, as the input source delivers it.
#[derive(Debug)]
pub enum KeyEvent {
    /// A key went down; the field is its identifier.
    Down(String),
    /// A key was released.
    Up,
}

impl KeyEvent {
    /// The action that the event writes to the mailbox.
    pub open spec fn action(self) -> ActionCode {
        match self {
            KeyEvent::Down(key) => key_action(key@),
            KeyEvent::Up => ActionCode::Idle,
        }
    }
}

/// The arena, the entity it holds, and the action that the next tick applies.
#[derive(Clone, Copy, Debug, PartialEq, Eq, Structural)]
pub struct Game {
    pub width: i64,
    pub height: i64,
    pub player: Player,
    pub keyevent: ActionCode,
}

impl Game {
    /// The state with the pending action overwritten.
    pub open spec fn with_keyevent(self, keyevent: ActionCode) -> Game {
        Game { keyevent, ..self }
    }

    /// The state after one update: the pending action applied to the entity,
    /// and left pending.
    pub open spec fn updated(self) -> Game {
        Game {
            player: self.player.moved(self.keyevent, self.width as int, self.height as int),
            ..self
        }
    }

    /// The state after a keyboard event.
    pub open spec fn after_key(self, event: KeyEvent) -> Game {
        self.with_keyevent(event.action())
    }

    /// The state after a run of ticks, each preceded by one write to the
    /// mailbox: the actions are written and applied first to last.
    pub open spec fn played(self, actions: Seq<ActionCode>) -> Game
        decreases actions.len(),
    {
        if actions.len() == 0 {
            self
        } else {
            self.played(actions.drop_last()).with_keyevent(actions.last()).updated()
        }
    }

    /// Whether the entity lies within the clamp bounds of this arena.
    pub open spec fn player_in_bounds(self) -> bool {
        self.player.in_bounds(self.width as int, self.height as int)
    }

    /// What one frame draws: the surface wiped, then the entity.
    pub open spec fn frame(self, surface_width: i64, surface_height: i64) -> Seq<DrawCommand> {
        clear_commands(surface_width, surface_height) + self.player.draw_commands()
    }

    /// A simulation over an arena of the given size. The pending action starts
    /// idle.
    pub fn new(width: i64, height: i64, player: Player) -> (game: Game)
        ensures
            game == (Game { width, height, player, keyevent: ActionCode::Idle }),
    {
        Game { width, height, player, keyevent: ActionCode::Idle }
    }

    /// The pending action.
    pub fn get_keyevent(&self) -> (keyevent: ActionCode)
        ensures
            keyevent == self.keyevent,
    {
        self.keyevent
    }

    /// Overwrites the pending action. Nothing is queued: the last write before
    /// a tick is the one that the tick sees.
    pub fn set_keyevent(&mut self, keyevent: ActionCode)
        ensures
            *final(self) == old(self).with_keyevent(keyevent),
    {
        self.keyevent = keyevent;
    }

    /// Applies the pending action to the entity, and leaves it pending.
    pub fn update(&mut self)
        ensures
            *final(self) == old(self).updated(),
            final(self).keyevent == old(self).keyevent,
            old(self).keyevent.is_motionless() ==> *final(self) == *old(self),
            old(self).player.speed >= 0 && old(self).player_in_bounds() ==> final(self).player_in_bounds(),
    {
        self.player.update(self.keyevent, self.width, self.height);
    }

    /// One tick: the update first, then the frame of the state that the update
    /// left. The frame wipes a surface of the given extent and draws the
    /// entity, so no tick shows a position older than its own update.
    pub fn tick(&mut self, surface_width: i64, surface_height: i64) -> (frame: Vec<DrawCommand>)
        ensures
            *final(self) == old(self).updated(),
            frame@ == final(self).frame(surface_width, surface_height),
    {
        self.update();
        let mut frame = clear_screen(surface_width, surface_height);
        let mut body = self.player.draw();
        frame.append(&mut body);
        frame
    }
}

/// Handles one keyboard event: a key that goes down writes its action to the
/// mailbox, a release writes the idle action. The entity does not move before
/// the next tick.
pub fn handle_input(game: &mut Game, event: &KeyEvent)
    ensures
        *final(game) == old(game).after_key(*event),
        final(game).player == old(game).player,
{
    match event {
        KeyEvent::Down(key) => {
            let action = translate(key.as_str());
            game.set_keyevent(action);
        },
        KeyEvent::Up => {
            game.set_keyevent(ActionCode::Idle);
        },
    }
}

/// Last write wins. Of two writes to the mailbox with no update between them,
/// the next update sees the second alone: the state is what it would be had the
/// first never been made.
pub proof fn lemma_last_write_wins(game: Game, first: ActionCode, second: ActionCode)
    ensures
        game.with_keyevent(first).with_keyevent(second) == game.with_keyevent(second),
        game.with_keyevent(first).with_keyevent(second).updated() == game.with_keyevent(second).updated(),
        game.with_keyevent(first).with_keyevent(second).updated().player == game.player.moved(
            second,
            game.width as int,
            game.height as int,
        ),
{
}

/// The same of two keyboard events: the second decides what the next update
/// does.
pub proof fn lemma_last_event_wins(game: Game, first: KeyEvent, second: KeyEvent)
    ensures
        game.after_key(first).after_key(second).updated() == game.after_key(second).updated(),
{
}

/// A release after a key went down leaves the mailbox idle, whatever the key
/// was, and the updates that follow do not move the entity.
pub proof fn lemma_release_stops_motion(game: Game, down: KeyEvent)
    ensures
        game.after_key(down).after_key(KeyEvent::Up).keyevent == ActionCode::Idle,
        game.after_key(down).after_key(KeyEvent::Up).updated().player == game.player,
        game.after_key(down).after_key(KeyEvent::Up).updated() == game.after_key(down).after_key(
            KeyEvent::Up,
        ),
{
}

/// A run of ticks moves the entity as the written actions do, one after the
/// other, and changes nothing else but the mailbox. So an entity with a speed
/// that is not negative, once within the clamp bounds of its arena, is within
/// them after every tick.
pub proof fn lemma_played_moves_player(game: Game, actions: Seq<ActionCode>)
    ensures
        game.played(actions).player == game.player.moved_all(
            actions,
            game.width as int,
            game.height as int,
        ),
        game.played(actions).width == game.width,
        game.played(actions).height == game.height,
        game.player.speed >= 0 && game.player_in_bounds() ==> game.played(actions).player_in_bounds(),
    decreases actions.len(),
{
    if actions.len() > 0 {
        lemma_played_moves_player(game, actions.drop_last());
    }
    if game.player.speed >= 0 && game.player_in_bounds() {
        lemma_clamp_invariant(game.player, actions, game.width as int, game.height as int);
    }
}

/// A frame holds the styles of startup. It is five commands; the one style
/// command among them is the first, which sets the fill colour to the black
/// that startup set, and the stroke colour is never set.
pub proof fn lemma_frame_holds_styles(game: Game, surface_width: i64, surface_height: i64)
    ensures
        game.frame(surface_width, surface_height).len() == 5,
        game.frame(surface_width, surface_height)[0] == DrawCommand::SetFillStyle(Color::Black),
        startup_commands().contains(game.frame(surface_width, surface_height)[0]),
        forall|i: int|
            1 <= i < 5 ==> !(#[trigger] game.frame(surface_width, surface_height)[i]).is_style(),
        game.frame(surface_width, surface_height)[3] == DrawCommand::StrokeRect(game.player.bounds()),
        game.frame(surface_width, surface_height)[4] == DrawCommand::FillRect(game.player.bounds()),
{
    assert(startup_commands()[1] == DrawCommand::SetFillStyle(Color::Black));
}

/// An update does not consume the pending action: a second update applies it
/// again.
pub proof fn lemma_update_keeps_pending(game: Game)
    ensures
        game.updated().keyevent == game.keyevent,
        game.updated().updated().player == game.player.moved(
            game.keyevent,
            game.width as int,
            game.height as int,
        ).moved(game.keyevent, game.width as int, game.height as int),
{
}

} // verus!
