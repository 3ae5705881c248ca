//! Turning key presses into moves and menu choices, and the player's settings.
use crate::grid::{Direction, GridConfig};
use vstd::prelude::*;

verus! {

/// A key press, as far as the game tells keys apart.
#[derive(Clone, Copy, Debug, PartialEq, Eq, Structural)]
pub enum Key {
    Up,
    Down,
    Left,
    Right,
    Char(char),
    Other,
}

/// What a key press asks of a running game.
#[derive(Clone, Copy, Debug, PartialEq, Eq, Structural)]
pub enum Command {
    Turn(Direction),
    Quit,
    Ignore,
}

/// A choice on the welcome screen.
#[derive(Clone, Copy, Debug, PartialEq, Eq, Structural)]
pub enum WelcomeAction {
    Start,
    Options,
    Quit,
    Stay,
}

/// A choice on the options screen.
#[derive(Clone, Copy, Debug, PartialEq, Eq, Structural)]
pub enum OptionsAction {
    Stay,
    Back,
}

/// The player's settings.
#[derive(Clone, Copy, Debug, PartialEq, Eq, Structural)]
pub struct Settings {
    /// h, j, k and l steer as well as the arrow keys.
    pub vim_mode: bool,
    /// The grid's edges wrap around.
    pub no_wall_mode: bool,
}

impl Default for Settings {
    /// Both flags off.
    fn default() -> (r: Settings)
        ensures
            r == (Settings { vim_mode: false, no_wall_mode: false }),
    {
        Settings { vim_mode: false, no_wall_mode: false }
    }
}

pub open spec fn command_spec(key: Key, vim_mode: bool) -> Command {
    match key {
        Key::Up => Command::Turn(Direction::Up),
        Key::Down => Command::Turn(Direction::Down),
        Key::Left => Command::Turn(Direction::Left),
        Key::Right => Command::Turn(Direction::Right),
        Key::Char(c) => if c == 'q' {
            Command::Quit
        } else if vim_mode && c == 'k' {
            Command::Turn(Direction::Up)
        } else if vim_mode && c == 'j' {
            Command::Turn(Direction::Down)
        } else if vim_mode && c == 'h' {
            Command::Turn(Direction::Left)
        } else if vim_mode && c == 'l' {
            Command::Turn(Direction::Right)
        } else {
            Command::Ignore
        },
        Key::Other => Command::Ignore,
    }
}

/// What `key` asks of a running game: the arrows steer, `q` quits, and with
/// `vim_mode` so do h (left), j (down), k (up) and l (right); other keys do
/// nothing.
pub fn command_for_key(key: Key, vim_mode: bool) -> (r: Command)
    ensures
        r == command_spec(key, vim_mode),
{
    match key {
        Key::Up => Command::Turn(Direction::Up),
        Key::Down => Command::Turn(Direction::Down),
        Key::Left => Command::Turn(Direction::Left),
        Key::Right => Command::Turn(Direction::Right),
        Key::Char(c) => {
            if c == 'q' {
                Command::Quit
            } else if vim_mode && c == 'k' {
                Command::Turn(Direction::Up)
            } else if vim_mode && c == 'j' {
                Command::Turn(Direction::Down)
            } else if vim_mode && c == 'h' {
                Command::Turn(Direction::Left)
            } else if vim_mode && c == 'l' {
                Command::Turn(Direction::Right)
            } else {
                Command::Ignore
            }
        },
        Key::Other => Command::Ignore,
    }
}

/// The welcome screen's choice for `key`: 0 starts a game, 1 opens the
/// options, 2 quits; other keys leave the screen as it is.
pub fn welcome_choice(key: Key) -> (r: WelcomeAction)
    ensures
        r == (match key {
            Key::Char('0') => WelcomeAction::Start,
            Key::Char('1') => WelcomeAction::Options,
            Key::Char('2') => WelcomeAction::Quit,
            _ => WelcomeAction::Stay,
        }),
{
    match key {
        Key::Char('0') => WelcomeAction::Start,
        Key::Char('1') => WelcomeAction::Options,
        Key::Char('2') => WelcomeAction::Quit,
        _ => WelcomeAction::Stay,
    }
}

impl Settings {
    /// The options screen's handling of `key`: 0 flips vim mode, 1 flips
    /// no-wall mode, 2 goes back; other keys change nothing.
    pub fn options_choice(&mut self, key: Key) -> (r: OptionsAction)
        ensures
            final(self).vim_mode == (old(self).vim_mode != (key == Key::Char('0'))),
            final(self).no_wall_mode == (old(self).no_wall_mode != (key == Key::Char('1'))),
            r == if key == Key::Char('2') { OptionsAction::Back } else { OptionsAction::Stay },
    {
        match key {
            Key::Char('0') => {
                self.vim_mode = !self.vim_mode;
                OptionsAction::Stay
            },
            Key::Char('1') => {
                self.no_wall_mode = !self.no_wall_mode;
                OptionsAction::Stay
            },
            Key::Char('2') => OptionsAction::Back,
            _ => OptionsAction::Stay,
        }
    }

    /// The grid for a terminal of `columns` by `rows` character cells: each
    /// grid cell is drawn two characters wide, so four columns and two rows
    /// of the terminal make one cell; the edges wrap in no-wall mode.
    pub fn grid_for_terminal(&self, columns: u16, rows: u16) -> (r: GridConfig)
        ensures
            r == (GridConfig { width: columns / 4, height: rows / 2, wrap: self.no_wall_mode }),
    {
        GridConfig { width: columns / 4, height: rows / 2, wrap: self.no_wall_mode }
    }
}

} // verus!
