//! The text-input widget: a character buffer edited by typed characters and
//! backspace, a caret that blinks while the widget is focused, and the rules
//! that move keyboard focus with visibility. The engine delivers the typed
//! characters, the key states and the frame delta; everything decided from
//! them stands here.

use vstd::prelude::*;

use crate::timer::Timer;

verus! {

/// How long the caret stays in each blink phase, in milliseconds.
pub const CARET_BLINK_MS: u64 = 500;

/// The delay between repeated deletions while backspace is held, in
/// milliseconds.
pub const BACKSPACE_REPEAT_MS: u64 = 100;

/// The current contents of a text input.
pub struct InputText {
    text: String,
}

impl View for InputText {
    type V = Seq<char>;

    closed spec fn view(&self) -> Seq<char> {
        self.text@
    }
}

/// Relies on String::push: it appends the given character to the end of the
/// string.
#[verifier::external_body]
fn string_push(s: &mut String, c: char)
    ensures
        final(s)@ == old(s)@.push(c),
{
    s.push(c)
}

/// Relies on String::pop: it removes and returns the last character of the
/// string, or returns None and leaves the string unchanged when it is empty.
#[verifier::external_body]
fn string_pop(s: &mut String) -> (r: Option<char>)
    ensures
        old(s)@.len() == 0 ==> r is None && final(s)@ == old(s)@,
        old(s)@.len() > 0 ==> r == Some(old(s)@.last()) && final(s)@ == old(s)@.drop_last(),
{
    s.pop()
}

impl InputText {
    pub fn new() -> (r: InputText)
        ensures
            r@ == Seq::<char>::empty(),
    {
        InputText { text: String::new() }
    }

    /// The buffer as shown in the widget's text node.
    pub fn text(&self) -> (r: &str)
        ensures
            r@ == self@,
    {
        self.text.as_str()
    }

    /// A typed character reaches the buffer only while the widget is
    /// focused.
    pub fn feed_char(&mut self, focused: bool, c: char)
        ensures
            focused ==> final(self)@ == old(self)@.push(c),
            !focused ==> final(self)@ == old(self)@,
    {
        if focused {
            string_push(&mut self.text, c);
        }
    }

    /// Backspace removes the last character; on an empty buffer it does
    /// nothing.
    pub fn backspace(&mut self)
        ensures
            old(self)@.len() == 0 ==> final(self)@ == old(self)@,
            old(self)@.len() > 0 ==> final(self)@ == old(self)@.drop_last(),
    {
        let _ = string_pop(&mut self.text);
    }

    /// Hands the buffer to the caller and leaves the widget empty, as
    /// submitting a command does.
    pub fn take(&mut self) -> (r: String)
        ensures
            r@ == old(self)@,
            final(self)@ == Seq::<char>::empty(),
    {
        let mut out = String::new();
        core::mem::swap(&mut self.text, &mut out);
        out
    }
}

/// The caret's blink state. `visible` is the blink phase the timer flips;
/// `shown` mirrors the caret node's display style, which follows the phase
/// on each flip but can be reset to hidden on its own by a focus change.
pub struct CaretBlink {
    pub visible: bool,
    pub shown: bool,
    pub timer: Timer,
}

impl CaretBlink {
    pub open spec fn wf(self) -> bool {
        self.timer.repeating && self.timer.wf()
    }

    /// The caret starts hidden and blinks with period `CARET_BLINK_MS`.
    pub fn new() -> (c: CaretBlink)
        ensures
            !c.visible,
            !c.shown,
            c.timer == (Timer {
                duration_ms: CARET_BLINK_MS,
                elapsed_ms: 0,
                repeating: true,
                just_finished: false,
            }),
            c.wf(),
    {
        CaretBlink { visible: false, shown: false, timer: Timer::from_millis(CARET_BLINK_MS, true) }
    }

    /// Advances the blink timer by one frame. The timer only runs while the
    /// widget is focused; each time it runs out the blink phase flips and
    /// the caret node is shown or hidden with it. Returns whether the phase
    /// flipped this frame.
    pub fn tick(&mut self, focused: bool, delta_ms: u64) -> (toggled: bool)
        requires
            old(self).wf(),
            focused ==> old(self).timer.elapsed_ms + delta_ms <= u64::MAX,
        ensures
            final(self).wf(),
            !focused ==> *final(self) == *old(self) && !toggled,
            focused ==> {
                &&& final(self).timer == old(self).timer.spec_tick(delta_ms)
                &&& toggled == old(self).timer.spec_tick(delta_ms).just_finished
                &&& final(self).visible == (if toggled {
                    !old(self).visible
                } else {
                    old(self).visible
                })
                &&& final(self).shown == (if toggled {
                    !old(self).visible
                } else {
                    old(self).shown
                })
            },
    {
        if !focused {
            return false;
        }
        self.timer.tick(delta_ms);
        if self.timer.just_finished() {
            self.visible = !self.visible;
            self.shown = self.visible;
            true
        } else {
            false
        }
    }

    /// When focus moves away from the widget while the caret node is shown,
    /// the node's style is reset to hidden; the blink phase keeps running
    /// where it was.
    pub fn hide_on_focus_change(&mut self, focused: bool) -> (hidden: bool)
        ensures
            hidden == (!focused && old(self).shown),
            final(self).shown == (if hidden {
                false
            } else {
                old(self).shown
            }),
            final(self).visible == old(self).visible,
            final(self).timer == old(self).timer,
    {
        if !focused && self.shown {
            self.shown = false;
            true
        } else {
            false
        }
    }
}

/// The key-repeat state for backspace: a one-shot timer that gates repeated
/// deletions while the key is held.
pub struct BackspaceRepeat {
    pub timer: Timer,
}

impl BackspaceRepeat {
    pub open spec fn wf(self) -> bool {
        !self.timer.repeating && self.timer.wf()
    }

    /// The repeat timer starts with zero duration, so a held key erases on
    /// the first frame it is seen.
    pub fn new() -> (r: BackspaceRepeat)
        ensures
            r.timer == (Timer {
                duration_ms: 0,
                elapsed_ms: 0,
                repeating: false,
                just_finished: false,
            }),
            r.wf(),
    {
        BackspaceRepeat { timer: Timer::default() }
    }

    /// One frame of the backspace key. While the widget is focused the
    /// repeat timer advances; a held key erases each time the timer runs
    /// out, rearming it for `BACKSPACE_REPEAT_MS`, and a fresh press erases
    /// at once.
    pub fn poll(&mut self, focused: bool, pressed: bool, just_pressed: bool, delta_ms: u64) -> (erase:
        bool)
        requires
            old(self).wf(),
            focused ==> old(self).timer.elapsed_ms + delta_ms <= u64::MAX,
        ensures
            final(self).wf(),
            !focused ==> *final(self) == *old(self) && !erase,
            focused ==> {
                let ticked = old(self).timer.spec_tick(delta_ms);
                if pressed && ticked.spec_finished() {
                    &&& erase
                    &&& final(self).timer == (Timer {
                        duration_ms: BACKSPACE_REPEAT_MS,
                        elapsed_ms: 0,
                        just_finished: false,
                        ..ticked
                    })
                } else {
                    &&& erase == just_pressed
                    &&& final(self).timer == ticked
                }
            },
    {
        if !focused {
            return false;
        }
        self.timer.tick(delta_ms);
        if pressed && self.timer.finished() {
            self.timer.set_duration(BACKSPACE_REPEAT_MS);
            self.timer.reset();
            true
        } else {
            just_pressed
        }
    }
}

/// What the focus system does to a widget whose computed visibility just
/// changed.
#[derive(Clone, Copy, Debug, PartialEq, Eq, Structural)]
pub enum FocusChange {
    /// The widget became visible while not focusable: make it focusable.
    Grant,
    /// The widget was hidden while focusable: strip focus from it.
    Revoke,
    /// Nothing to do.
    Keep,
}

pub open spec fn spec_focus_on_visibility_change(focusable: bool, visible: bool) -> FocusChange {
    if focusable && !visible {
        FocusChange::Revoke
    } else if !focusable && visible {
        FocusChange::Grant
    } else {
        FocusChange::Keep
    }
}

/// A widget that is hidden loses its ability to hold focus, and a widget
/// that is shown gains it back.
pub fn focus_on_visibility_change(focusable: bool, visible: bool) -> (c: FocusChange)
    ensures
        c == spec_focus_on_visibility_change(focusable, visible),
{
    if focusable && !visible {
        FocusChange::Revoke
    } else if !focusable && visible {
        FocusChange::Grant
    } else {
        FocusChange::Keep
    }
}

} // verus!
