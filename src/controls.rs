//! The on-screen controls: their regions, rebuilt every frame, and the
//! dispatch of key presses and pointer clicks to commands.
use vstd::prelude::*;
use crate::cover::CoverArt;
use crate::sync::{MusicPlayer, PlayerCommand, SyncView};

verus! {

/// A rectangle of terminal cells: columns `[x, x + width)`, rows
/// `[y, y + height)`.
#[derive(Debug, Clone, Copy, PartialEq, Eq, Structural)]
pub struct Region {
    pub x: u16,
    pub y: u16,
    pub width: u16,
    pub height: u16,
}

impl Region {
    /// Whether the cell at column `px`, row `py` lies in the region.
    pub open spec fn holds(self, px: u16, py: u16) -> bool {
        &&& self.x <= px
        &&& px < self.x + self.width
        &&& self.y <= py
        &&& py < self.y + self.height
    }

    /// Whether the cell at column `px`, row `py` lies in the region.
    pub fn contains(&self, px: u16, py: u16) -> (r: bool)
        ensures
            r == self.holds(px, py),
    {
        px >= self.x && (px - self.x) < self.width && py >= self.y && (py - self.y) < self.height
    }
}

/// One of the four controls.
#[derive(Debug, Clone, Copy, PartialEq, Eq, Structural)]
pub enum Control {
    Previous,
    PlayPause,
    Next,
    Quit,
}

/// The regions of the four controls in the frame last drawn.
#[derive(Debug, Clone, Copy, PartialEq, Eq, Structural)]
pub struct ButtonMap {
    pub previous: Region,
    pub play_pause: Region,
    pub next: Region,
    pub quit: Region,
}

impl ButtonMap {
    /// The control hit by a click at (`px`, `py`), testing in the fixed order
    /// previous, play/pause, next, quit; the first region that holds it wins.
    pub open spec fn hit(self, px: u16, py: u16) -> Option<Control> {
        if self.previous.holds(px, py) {
            Some(Control::Previous)
        } else if self.play_pause.holds(px, py) {
            Some(Control::PlayPause)
        } else if self.next.holds(px, py) {
            Some(Control::Next)
        } else if self.quit.holds(px, py) {
            Some(Control::Quit)
        } else {
            None
        }
    }

    /// The control hit by a click at (`px`, `py`), if any.
    pub fn hit_test(&self, px: u16, py: u16) -> (r: Option<Control>)
        ensures
            r == self.hit(px, py),
    {
        if self.previous.contains(px, py) {
            Some(Control::Previous)
        } else if self.play_pause.contains(px, py) {
            Some(Control::PlayPause)
        } else if self.next.contains(px, py) {
            Some(Control::Next)
        } else if self.quit.contains(px, py) {
            Some(Control::Quit)
        } else {
            None
        }
    }
}

/// What an input asks for: to quit, or a command for the current player.
#[derive(Debug, Clone, Copy, PartialEq, Eq, Structural)]
pub enum Action {
    Quit,
    Send(PlayerCommand),
}

/// The action of each control; no control has more than one.
pub open spec fn control_action_spec(c: Control) -> Action {
    match c {
        Control::Previous => Action::Send(PlayerCommand::Previous),
        Control::PlayPause => Action::Send(PlayerCommand::PlayPause),
        Control::Next => Action::Send(PlayerCommand::Next),
        Control::Quit => Action::Quit,
    }
}

/// The action of a control.
pub fn control_action(c: Control) -> (r: Action)
    ensures
        r == control_action_spec(c),
{
    match c {
        Control::Previous => Action::Send(PlayerCommand::Previous),
        Control::PlayPause => Action::Send(PlayerCommand::PlayPause),
        Control::Next => Action::Send(PlayerCommand::Next),
        Control::Quit => Action::Quit,
    }
}

/// The action bound to a pressed key: `q` quits, space toggles play/pause,
/// `n` skips ahead, `p` goes back.
pub open spec fn key_action_spec(key: char) -> Option<Action> {
    if key == 'q' {
        Some(Action::Quit)
    } else if key == ' ' {
        Some(Action::Send(PlayerCommand::PlayPause))
    } else if key == 'n' {
        Some(Action::Send(PlayerCommand::Next))
    } else if key == 'p' {
        Some(Action::Send(PlayerCommand::Previous))
    } else {
        None
    }
}

/// The action bound to a pressed key, if any.
pub fn key_action(key: char) -> (r: Option<Action>)
    ensures
        r == key_action_spec(key),
{
    if key == 'q' {
        Some(Action::Quit)
    } else if key == ' ' {
        Some(Action::Send(PlayerCommand::PlayPause))
    } else if key == 'n' {
        Some(Action::Send(PlayerCommand::Next))
    } else if key == 'p' {
        Some(Action::Send(PlayerCommand::Previous))
    } else {
        None
    }
}

/// The command to send for an action, given the synchronizer's state: none
/// for quitting, none where no player is selected.
pub open spec fn command_to_send(player: SyncView, a: Option<Action>) -> Option<PlayerCommand> {
    match a {
        Some(Action::Send(c)) => if player.player is Some {
            Some(c)
        } else {
            None
        },
        _ => None,
    }
}

/// The dashboard's state: the synchronizer, the cover-art resolver, the
/// control regions of the last frame (none before the first) and the quit flag.
pub struct App {
    pub music_player: MusicPlayer,
    pub cover: CoverArt,
    pub buttons: Option<ButtonMap>,
    pub should_quit: bool,
}

impl App {
    /// A dashboard with nothing drawn yet, whose first poll is due one poll
    /// interval after `now_ms`.
    pub fn new(now_ms: u64) -> (r: App)
        ensures
            r.music_player@.player is None,
            r.music_player@.track == crate::track::TrackInfo::blank(),
            r.music_player@.last_poll == now_ms,
            r.cover@.reference is None,
            r.buttons is None,
            !r.should_quit,
    {
        App {
            music_player: MusicPlayer::new(now_ms),
            cover: CoverArt::new(),
            buttons: None,
            should_quit: false,
        }
    }

    /// Replaces the control regions in full with those of the frame just drawn.
    pub fn set_buttons(&mut self, map: ButtonMap)
        ensures
            final(self).buttons == Some(map),
            final(self).music_player == old(self).music_player,
            final(self).cover == old(self).cover,
            final(self).should_quit == old(self).should_quit,
    {
        self.buttons = Some(map);
    }

    /// The control hit by a click at (`x`, `y`) in the last frame drawn.
    pub open spec fn control_at(self, x: u16, y: u16) -> Option<Control> {
        match self.buttons {
            Some(m) => m.hit(x, y),
            None => None,
        }
    }

    /// The action of a click at (`x`, `y`).
    pub open spec fn click_action(self, x: u16, y: u16) -> Option<Action> {
        match self.control_at(x, y) {
            Some(c) => Some(control_action_spec(c)),
            None => None,
        }
    }

    fn perform(&mut self, a: Option<Action>) -> (r: Option<PlayerCommand>)
        ensures
            r == command_to_send(old(self).music_player@, a),
            final(self).should_quit == (old(self).should_quit || a == Some(Action::Quit)),
            final(self).music_player == old(self).music_player,
            final(self).cover == old(self).cover,
            final(self).buttons == old(self).buttons,
    {
        match a {
            Some(Action::Quit) => {
                self.should_quit = true;
                None
            },
            Some(Action::Send(c)) => match c {
                PlayerCommand::PlayPause => self.music_player.toggle_play_pause(),
                PlayerCommand::Next => self.music_player.next(),
                PlayerCommand::Previous => self.music_player.previous(),
            },
            None => None,
        }
    }

    /// Handles a key press: sets the quit flag for `q`, and returns the
    /// command to send to the current player for the others, if one is
    /// selected. Other keys do nothing.
    pub fn on_key(&mut self, key: char) -> (r: Option<PlayerCommand>)
        ensures
            r == command_to_send(old(self).music_player@, key_action_spec(key)),
            final(self).should_quit == (old(self).should_quit || key == 'q'),
            final(self).music_player == old(self).music_player,
            final(self).cover == old(self).cover,
            final(self).buttons == old(self).buttons,
    {
        let a = key_action(key);
        self.perform(a)
    }

    /// Handles a pointer press at (`x`, `y`): the control whose region holds it
    /// fires once (quit sets the flag, the others return their command where a
    /// player is selected); a click outside every region does nothing.
    pub fn handle_button_click(&mut self, x: u16, y: u16) -> (r: Option<PlayerCommand>)
        ensures
            r == command_to_send(old(self).music_player@, old(self).click_action(x, y)),
            final(self).should_quit == (old(self).should_quit || old(self).control_at(x, y)
                == Some(Control::Quit)),
            final(self).music_player == old(self).music_player,
            final(self).cover == old(self).cover,
            final(self).buttons == old(self).buttons,
    {
        let hit = match &self.buttons {
            Some(m) => m.hit_test(x, y),
            None => None,
        };
        let a = match hit {
            Some(c) => Some(control_action(c)),
            None => None,
        };
        self.perform(a)
    }

    /// Whether quitting was asked for.
    pub fn quit_requested(&self) -> (r: bool)
        ensures
            r == self.should_quit,
    {
        self.should_quit
    }
}

/// A click outside all four control regions fires no command and leaves the
/// dashboard as it was, so the playing state is untouched.
pub proof fn lemma_click_outside_does_nothing(app: App, map: ButtonMap, x: u16, y: u16)
    requires
        app.buttons == Some(map),
        !map.previous.holds(x, y),
        !map.play_pause.holds(x, y),
        !map.next.holds(x, y),
        !map.quit.holds(x, y),
    ensures
        app.control_at(x, y) is None,
        command_to_send(app.music_player@, app.click_action(x, y)) is None,
{
}

} // verus!
