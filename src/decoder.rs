//! The shift tracker: turns a stream of records into the text of the key
//! presses, choosing the shifted table while a shift key is held.
use vstd::prelude::*;
use crate::event::{
    decode, is_key_event, is_key_press, is_key_release, is_shift, record_of, DecodeError,
    InputEvent, EVENT_SIZE, EV_KEY, KEY_LEFTSHIFT, KEY_PRESS, KEY_RELEASE, KEY_RIGHTSHIFT,
};
use crate::keys::{get_key_text, key_name};

verus! {

/// Whether `code` is one of the two shift keys.
pub open spec fn is_shift_code(code: u16) -> bool {
    code == KEY_LEFTSHIFT || code == KEY_RIGHTSHIFT
}

/// The shift count after event `e`, from count `c`.
///
/// A shift press adds one and a shift release takes one away; every other
/// event leaves the count alone. The count stops at zero when more releases
/// than presses arrive, and at `u8::MAX`.
pub open spec fn next_shift_count(c: u8, e: InputEvent) -> u8 {
    if e.type_ == EV_KEY && is_shift_code(e.code) {
        if e.value == KEY_PRESS {
            if c < u8::MAX {
                (c + 1) as u8
            } else {
                c
            }
        } else if e.value == KEY_RELEASE {
            if c > 0 {
                (c - 1) as u8
            } else {
                c
            }
        } else {
            c
        }
    } else {
        c
    }
}

/// Whether event `e` prints text: a key press of a key other than shift.
pub open spec fn emits(e: InputEvent) -> bool {
    e.type_ == EV_KEY && e.value == KEY_PRESS && !is_shift_code(e.code)
}

/// The text that event `e` prints, with count `c` before it, where it prints.
pub open spec fn emitted_text(c: u8, e: InputEvent) -> Seq<char> {
    key_name(e.code, c != 0)
}

/// One decoding session: the count of shift keys held.
pub struct KeyDecoder {
    shift_pressed: u8,
}

impl KeyDecoder {
    /// The number of shift keys held.
    pub closed spec fn count(&self) -> u8 {
        self.shift_pressed
    }

    /// A session with no shift key held.
    pub fn new() -> (r: KeyDecoder)
        ensures
            r.count() == 0,
    {
        KeyDecoder { shift_pressed: 0 }
    }

    /// The number of shift keys held.
    pub fn shift_count(&self) -> (r: u8)
        ensures
            r == self.count(),
    {
        self.shift_pressed
    }

    /// Takes one record: updates the shift count and returns the text of a
    /// key press, or `None` where the record prints nothing.
    pub fn step(&mut self, e: &InputEvent) -> (r: Option<&'static str>)
        ensures
            final(self).count() == next_shift_count(old(self).count(), *e),
            r.is_some() == emits(*e),
            r.is_some() ==> r.unwrap()@ == emitted_text(old(self).count(), *e),
            e.type_ != EV_KEY ==> r.is_none() && final(self).count() == old(self).count(),
    {
        if !is_key_event(e.type_) {
            return None;
        }
        if is_key_press(e.value) {
            if is_shift(e.code) {
                if self.shift_pressed < u8::MAX {
                    self.shift_pressed = self.shift_pressed + 1;
                }
                None
            } else {
                Some(get_key_text(e.code, self.shift_pressed))
            }
        } else if is_key_release(e.value) {
            if is_shift(e.code) && self.shift_pressed > 0 {
                self.shift_pressed = self.shift_pressed - 1;
            }
            None
        } else {
            None
        }
    }

    /// Decodes one record from `buf` and takes it as `step` does. A buffer
    /// that does not hold exactly one record is refused and changes nothing.
    pub fn feed(&mut self, buf: &[u8]) -> (r: Result<Option<&'static str>, DecodeError>)
        ensures
            buf@.len() != EVENT_SIZE ==> r == Err::<Option<&'static str>, DecodeError>(
                DecodeError::ShortRead,
            ) && final(self).count() == old(self).count(),
            buf@.len() == EVENT_SIZE ==> {
                let e = record_of(buf@);
                &&& r.is_ok()
                &&& final(self).count() == next_shift_count(old(self).count(), e)
                &&& r.unwrap().is_some() == emits(e)
                &&& r.unwrap().is_some() ==> r.unwrap().unwrap()@ == emitted_text(
                    old(self).count(),
                    e,
                )
            },
    {
        match decode(buf) {
            Ok(e) => Ok(self.step(&e)),
            Err(err) => Err(err),
        }
    }
}

/// With both shift keys pressed from a count of zero, releasing either one
/// leaves the session shifted.
pub proof fn lemma_one_shift_still_held(
    press_left: InputEvent,
    press_right: InputEvent,
    release: InputEvent,
)
    requires
        press_left.type_ == EV_KEY && press_left.code == KEY_LEFTSHIFT && press_left.value
            == KEY_PRESS,
        press_right.type_ == EV_KEY && press_right.code == KEY_RIGHTSHIFT && press_right.value
            == KEY_PRESS,
        release.type_ == EV_KEY && is_shift_code(release.code) && release.value == KEY_RELEASE,
    ensures
        next_shift_count(
            next_shift_count(next_shift_count(0, press_left), press_right),
            release,
        ) > 0,
{
}

/// A record that is not a key event prints nothing and leaves the count as
/// it was, whatever the count.
pub proof fn lemma_non_key_event_ignored(c: u8, e: InputEvent)
    requires
        e.type_ != EV_KEY,
    ensures
        next_shift_count(c, e) == c,
        !emits(e),
{
}

} // verus!
