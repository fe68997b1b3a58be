//! The input mapper: raw device events in, viewport commands out.
//!
//! The mapper owns the little state the event loop kept by hand — whether
//! the left button is down and where the pointer was last seen — and
//! translates each event into at most one viewport command plus a redraw
//! or exit request.

use vstd::prelude::*;

use crate::rat::Frac;

verus! {

/// The keys the viewer reacts to.
#[derive(Clone, Copy, PartialEq, Eq, Structural, Debug)]
pub enum Key {
    Minus,
    Equals,
    Space,
    ArrowUp,
    ArrowDown,
    ArrowLeft,
    ArrowRight,
    Other,
}

/// A raw device event, already reduced to plain values.
#[derive(Clone, Copy, Debug)]
pub enum InputEvent {
    /// Left mouse button went down (`true`) or up (`false`).
    LeftButton { pressed: bool },
    /// Pointer moved to the absolute position `(x, y)`.
    CursorMoved { x: Frac, y: Frac },
    /// Scroll wheel moved; `down` is a negative vertical delta.
    Wheel { down: bool },
    /// A key was pressed.
    KeyPressed { key: Key },
    /// The window close button was used.
    CloseRequested,
}

/// A mutation of the viewport requested by an event.
#[derive(Clone, Copy, Debug, PartialEq, Eq)]
pub enum Command {
    /// Drag by a raw screen-space delta.
    Pan { dx: Frac, dy: Frac },
    ZoomIn,
    ZoomOut,
    /// Back to the canonical window of the current mode.
    ResetView,
    /// Shift by whole scroll units.
    Scroll { x: Frac, y: Frac },
}

/// What the event loop should do with one event.
#[derive(Clone, Copy, Debug, PartialEq, Eq)]
pub struct Directive {
    pub command: Option<Command>,
    pub redraw: bool,
    pub exit: bool,
}

/// Pointer bookkeeping between events.
pub struct InputMapper {
    pub mouse_down: bool,
    pub last_x: Frac,
    pub last_y: Frac,
}

/// The position bound the mapper accepts: generous for any real screen,
/// small enough that a pan delta always fits a scroll argument.
pub const POS_LIM: i128 = 1_000_000;

/// A well-formed pointer position: a fraction with a denominator of at
/// most 100 (whole pixels or hundredths) and a bounded magnitude.
pub open spec fn pos_in_range(f: Frac) -> bool {
    0 < f.den <= 100 && -POS_LIM <= f.num <= POS_LIM
}

/// The pan delta of a drag from `a` to `b` (in the orientation the
/// viewer uses on that axis): the exact difference `a - b`, over the
/// common denominator when the two positions share one (they always do
/// in practice, so the delta's denominator does not pick up a square of
/// the position resolution).
pub open spec fn spec_delta(a: Frac, b: Frac) -> Frac {
    if a.den == b.den {
        Frac { num: (a.num - b.num) as i128, den: a.den }
    } else {
        Frac { num: (a.num * b.den - b.num * a.den) as i128, den: (a.den * b.den) as i128 }
    }
}

impl InputMapper {
    pub open spec fn wf(self) -> bool {
        pos_in_range(self.last_x) && pos_in_range(self.last_y)
    }

    pub fn new() -> (m: InputMapper)
        ensures
            m.wf(),
            !m.mouse_down,
            m.last_x.num == 0 && m.last_x.den == 1,
            m.last_y.num == 0 && m.last_y.den == 1,
    {
        InputMapper {
            mouse_down: false,
            last_x: Frac { num: 0, den: 1 },
            last_y: Frac { num: 0, den: 1 },
        }
    }

    /// Map one event to its directive and update the pointer state:
    /// dragging with the button held pans (horizontally reversed),
    /// the wheel and the `-`/`=` keys zoom, space resets, the arrow keys
    /// scroll by one unit, and a close request exits.
    pub fn handle(&mut self, ev: InputEvent) -> (d: Directive)
        requires
            old(self).wf(),
            ev matches InputEvent::CursorMoved { x, y } ==> pos_in_range(x) && pos_in_range(y),
        ensures
            final(self).wf(),
            match ev {
                InputEvent::LeftButton { pressed } => {
                    &&& final(self).mouse_down == pressed
                    &&& final(self).last_x == old(self).last_x
                    &&& final(self).last_y == old(self).last_y
                    &&& d.command is None
                    &&& !d.redraw
                    &&& !d.exit
                },
                InputEvent::CursorMoved { x, y } => {
                    &&& final(self).mouse_down == old(self).mouse_down
                    &&& final(self).last_x == x
                    &&& final(self).last_y == y
                    &&& !d.exit
                    &&& d.redraw == old(self).mouse_down
                    &&& if old(self).mouse_down {
                        d.command matches Some(Command::Pan { dx, dy }) && dx == spec_delta(
                            old(self).last_x,
                            x,
                        ) && dy == spec_delta(y, old(self).last_y)
                    } else {
                        d.command is None
                    }
                },
                InputEvent::Wheel { down } => {
                    &&& *final(self) == *old(self)
                    &&& d.redraw
                    &&& !d.exit
                    &&& d.command == Some(if down {
                        Command::ZoomOut
                    } else {
                        Command::ZoomIn
                    })
                },
                InputEvent::KeyPressed { key } => {
                    &&& *final(self) == *old(self)
                    &&& !d.exit
                    &&& d.redraw == (key != Key::Other)
                    &&& d.command == spec_key_command(key)
                },
                InputEvent::CloseRequested => {
                    &&& *final(self) == *old(self)
                    &&& d.command is None
                    &&& !d.redraw
                    &&& d.exit
                },
            },
    {
        match ev {
            InputEvent::LeftButton { pressed } => {
                self.mouse_down = pressed;
                Directive { command: None, redraw: false, exit: false }
            },
            InputEvent::CursorMoved { x, y } => {
                let was_down = self.mouse_down;
                let lx = self.last_x;
                let ly = self.last_y;
                self.last_x = x;
                self.last_y = y;
                if was_down {
                    proof {
                        crate::rat::lemma_abs_mul_bound(lx.num as int, x.den as int,
                            POS_LIM as int, 100);
                        crate::rat::lemma_abs_mul_bound(x.num as int, lx.den as int,
                            POS_LIM as int, 100);
                        crate::rat::lemma_abs_mul_bound(y.num as int, ly.den as int,
                            POS_LIM as int, 100);
                        crate::rat::lemma_abs_mul_bound(ly.num as int, y.den as int,
                            POS_LIM as int, 100);
                        crate::rat::lemma_abs_mul_bound(lx.den as int, x.den as int, 100, 100);
                        crate::rat::lemma_abs_mul_bound(y.den as int, ly.den as int, 100, 100);
                    }
                    let dx = if lx.den == x.den {
                        Frac { num: lx.num - x.num, den: lx.den }
                    } else {
                        Frac { num: lx.num * x.den - x.num * lx.den, den: lx.den * x.den }
                    };
                    let dy = if y.den == ly.den {
                        Frac { num: y.num - ly.num, den: y.den }
                    } else {
                        Frac { num: y.num * ly.den - ly.num * y.den, den: y.den * ly.den }
                    };
                    Directive {
                        command: Some(Command::Pan { dx, dy }),
                        redraw: true,
                        exit: false,
                    }
                } else {
                    Directive { command: None, redraw: false, exit: false }
                }
            },
            InputEvent::Wheel { down } => Directive {
                command: Some(if down {
                    Command::ZoomOut
                } else {
                    Command::ZoomIn
                }),
                redraw: true,
                exit: false,
            },
            InputEvent::KeyPressed { key } => {
                let command = match key {
                    Key::Minus => Some(Command::ZoomOut),
                    Key::Equals => Some(Command::ZoomIn),
                    Key::Space => Some(Command::ResetView),
                    Key::ArrowUp => Some(
                        Command::Scroll {
                            x: Frac { num: 0, den: 1 },
                            y: Frac { num: -1, den: 1 },
                        },
                    ),
                    Key::ArrowLeft => Some(
                        Command::Scroll {
                            x: Frac { num: -1, den: 1 },
                            y: Frac { num: 0, den: 1 },
                        },
                    ),
                    Key::ArrowRight => Some(
                        Command::Scroll {
                            x: Frac { num: 1, den: 1 },
                            y: Frac { num: 0, den: 1 },
                        },
                    ),
                    Key::ArrowDown => Some(
                        Command::Scroll {
                            x: Frac { num: 0, den: 1 },
                            y: Frac { num: 1, den: 1 },
                        },
                    ),
                    Key::Other => None,
                };
                let redraw = match key {
                    Key::Other => false,
                    _ => true,
                };
                Directive { command, redraw, exit: false }
            },
            InputEvent::CloseRequested => Directive { command: None, redraw: false, exit: true },
        }
    }
}

/// The command each key stands for: `-`/`=` zoom, space resets, the
/// arrows scroll one unit (up and left are negative), anything else is
/// ignored.
pub open spec fn spec_key_command(key: Key) -> Option<Command> {
    match key {
        Key::Minus => Some(Command::ZoomOut),
        Key::Equals => Some(Command::ZoomIn),
        Key::Space => Some(Command::ResetView),
        Key::ArrowUp => Some(
            Command::Scroll { x: Frac { num: 0, den: 1 }, y: Frac { num: -1i128, den: 1 } },
        ),
        Key::ArrowLeft => Some(
            Command::Scroll { x: Frac { num: -1i128, den: 1 }, y: Frac { num: 0, den: 1 } },
        ),
        Key::ArrowRight => Some(
            Command::Scroll { x: Frac { num: 1, den: 1 }, y: Frac { num: 0, den: 1 } },
        ),
        Key::ArrowDown => Some(
            Command::Scroll { x: Frac { num: 0, den: 1 }, y: Frac { num: 1, den: 1 } },
        ),
        Key::Other => None,
    }
}

} // verus!
