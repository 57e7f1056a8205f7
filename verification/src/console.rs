//! The console panel: a widget that slides down from the top of the screen,
//! takes the keyboard while open, and logs each submitted command. Its
//! vertical offset is kept in thousandths of a percent of the screen height,
//! so the slide animation is plain integer arithmetic on the frame delta.

use vstd::prelude::*;

use crate::input_text::InputText;
use crate::item_list::ItemList;

verus! {

/// The panel's full height, in thousandths of a percent of the screen.
pub const CONSOLE_HEIGHT_MILLIPCT: i64 = 80000;

/// How fast the panel slides, in thousandths of a percent per millisecond.
pub const CONSOLE_SPEED_MILLIPCT_PER_MS: i64 = 250;

#[derive(Clone, Copy, Debug, PartialEq, Eq, Structural)]
pub enum SlideDirection {
    Opening,
    Closing,
    Idle,
}

/// What one animation frame asks of the engine: whether the panel's node
/// stays visible, and whether the command input should be handed the focus
/// (which happens on the frame the panel finishes opening).
#[derive(Clone, Copy, Debug, PartialEq, Eq, Structural)]
pub struct SlideFrame {
    pub request_focus: bool,
    pub node_visible: bool,
}

/// The console panel's slide state. `top_millipct` is the panel's top
/// offset: 0 when fully open, `-CONSOLE_HEIGHT_MILLIPCT` when fully hidden.
pub struct Console {
    pub top_millipct: i64,
    pub direction: SlideDirection,
    pub open: bool,
}

impl Console {
    pub open spec fn wf(self) -> bool {
        -CONSOLE_HEIGHT_MILLIPCT <= self.top_millipct <= 0
    }

    /// A console starts fully hidden and at rest.
    pub fn new() -> (c: Console)
        ensures
            c == (Console {
                top_millipct: (-CONSOLE_HEIGHT_MILLIPCT) as i64,
                direction: SlideDirection::Idle,
                open: false,
            }),
            c.wf(),
    {
        Console {
            top_millipct: -CONSOLE_HEIGHT_MILLIPCT,
            direction: SlideDirection::Idle,
            open: false,
        }
    }

    /// The toggle key starts a slide: a console at rest begins closing when
    /// open and opening when closed; one already sliding is left alone.
    pub fn toggle(&mut self)
        ensures
            final(self).top_millipct == old(self).top_millipct,
            final(self).open == old(self).open,
            final(self).direction == (if old(self).direction is Idle {
                if old(self).open {
                    SlideDirection::Closing
                } else {
                    SlideDirection::Opening
                }
            } else {
                old(self).direction
            }),
    {
        match self.direction {
            SlideDirection::Idle => {
                if self.open {
                    self.direction = SlideDirection::Closing;
                } else {
                    self.direction = SlideDirection::Opening;
                }
            },
            _ => {},
        }
    }

    /// One frame of the slide. A console at rest moves nothing; otherwise
    /// the panel advances by the frame delta times the slide speed, clamps
    /// at fully open or fully hidden, and comes to rest there — marking
    /// itself open and requesting focus for the command input when it
    /// finished opening, and closed when it finished hiding. The panel's
    /// node is visible exactly while some part of it is on screen.
    pub fn animate(&mut self, delta_ms: u64) -> (fx: Option<SlideFrame>)
        requires
            old(self).wf(),
            delta_ms * CONSOLE_SPEED_MILLIPCT_PER_MS + CONSOLE_HEIGHT_MILLIPCT <= i64::MAX,
        ensures
            final(self).wf(),
            old(self).direction is Idle ==> *final(self) == *old(self) && fx is None,
            old(self).direction is Opening ==> {
                let raw = old(self).top_millipct + delta_ms * CONSOLE_SPEED_MILLIPCT_PER_MS;
                &&& *final(self) == (if raw >= 0 {
                    Console { top_millipct: 0, direction: SlideDirection::Idle, open: true }
                } else {
                    Console { top_millipct: raw as i64, ..*old(self) }
                })
                &&& fx == Some(SlideFrame {
                    request_focus: raw >= 0,
                    node_visible: raw > -CONSOLE_HEIGHT_MILLIPCT,
                })
            },
            old(self).direction is Closing ==> {
                let raw = old(self).top_millipct - delta_ms * CONSOLE_SPEED_MILLIPCT_PER_MS;
                &&& *final(self) == (if raw <= -CONSOLE_HEIGHT_MILLIPCT {
                    Console {
                        top_millipct: (-CONSOLE_HEIGHT_MILLIPCT) as i64,
                        direction: SlideDirection::Idle,
                        open: false,
                    }
                } else {
                    Console { top_millipct: raw as i64, ..*old(self) }
                })
                &&& fx == Some(SlideFrame {
                    request_focus: false,
                    node_visible: raw > -CONSOLE_HEIGHT_MILLIPCT,
                })
            },
    {
        let step: i64 = (delta_ms as i64) * CONSOLE_SPEED_MILLIPCT_PER_MS;
        match self.direction {
            SlideDirection::Idle => None,
            SlideDirection::Opening => {
                let raw: i64 = self.top_millipct + step;
                if raw >= 0 {
                    self.top_millipct = 0;
                    self.direction = SlideDirection::Idle;
                    self.open = true;
                } else {
                    self.top_millipct = raw;
                }
                Some(
                    SlideFrame {
                        request_focus: raw >= 0,
                        node_visible: raw > -CONSOLE_HEIGHT_MILLIPCT,
                    },
                )
            },
            SlideDirection::Closing => {
                let raw: i64 = self.top_millipct - step;
                if raw <= -CONSOLE_HEIGHT_MILLIPCT {
                    self.top_millipct = -CONSOLE_HEIGHT_MILLIPCT;
                    self.direction = SlideDirection::Idle;
                    self.open = false;
                } else {
                    self.top_millipct = raw;
                }
                Some(
                    SlideFrame {
                        request_focus: false,
                        node_visible: raw > -CONSOLE_HEIGHT_MILLIPCT,
                    },
                )
            },
        }
    }
}

/// The key chord that toggles the console: a fresh grave or apostrophe
/// press while control is held.
pub fn toggle_chord(
    grave_just_pressed: bool,
    apostrophe_just_pressed: bool,
    control_pressed: bool,
) -> (r: bool)
    ensures
        r == ((grave_just_pressed || apostrophe_just_pressed) && control_pressed),
{
    (grave_just_pressed || apostrophe_just_pressed) && control_pressed
}

/// Submitting a command: the input buffer's contents move to the end of the
/// log, and the buffer is left empty.
pub fn apply_command(input: &mut InputText, log: &mut ItemList)
    ensures
        final(input)@ == Seq::<char>::empty(),
        final(log)@ == old(log)@.push(old(input)@),
{
    let cmd = input.take();
    log.push(cmd);
}

} // verus!
