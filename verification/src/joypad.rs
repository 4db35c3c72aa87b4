/*
    Bit 7 - Not used
    Bit 6 - Not used
    Bit 5 - P15 Select Action buttons    (0=Select)
    Bit 4 - P14 Select Direction buttons (0=Select)
    Bit 3 - P13 Input: Down  or Start    (0=Pressed) (Read Only)
    Bit 2 - P12 Input: Up    or Select   (0=Pressed) (Read Only)
    Bit 1 - P11 Input: Left  or B        (0=Pressed) (Read Only)
    Bit 0 - P10 Input: Right or A        (0=Pressed) (Read Only)
*/
//! The joypad register P1 and the keyboard keys that drive it.
use vstd::prelude::*;

verus! {

pub const JOYP_REG: u16 = 0xFF00;

/// The keyboard keys the emulator listens to: the arrow keys are the
/// D-pad, F is A, D is B, Enter is Select and Right Shift is Start.
#[derive(Clone, Copy, PartialEq, Eq, Structural, Debug)]
pub enum Key {
    Right,
    Left,
    Up,
    Down,
    F,
    D,
    Return,
    RShift,
    Escape,
    Other,
}

/// A window event, as far as the joypad cares about it.
#[derive(Clone, Copy, PartialEq, Eq, Structural, Debug)]
pub enum InputEvent {
    Quit,
    KeyDown(Key),
    KeyUp(Key),
    Other,
}

pub struct Joypad {
    pub joyp: u8,
    pub directs: u8,
    pub actions: u8,
    pub high_to_low: bool,
    pub something_selected: bool,
}

/// The line a key drives: `(true, bit)` for a direction, `(false, bit)`
/// for an action button; `None` for keys that are no button.
pub open spec fn key_line(key: Key) -> Option<(bool, u8)> {
    match key {
        Key::Right => Some((true, 0u8)),
        Key::F => Some((false, 0u8)),
        Key::Left => Some((true, 1u8)),
        Key::D => Some((false, 1u8)),
        Key::Up => Some((true, 2u8)),
        Key::Return => Some((false, 2u8)),
        Key::Down => Some((true, 3u8)),
        Key::RShift => Some((false, 3u8)),
        _ => None,
    }
}

/// The single bit of line `bit`.
pub open spec fn bit_mask(bit: u8) -> u8 {
    if bit == 0 {
        1
    } else if bit == 1 {
        2
    } else if bit == 2 {
        4
    } else {
        8
    }
}

/// The button lines of P1 (bits 0 - 3) after the selected groups are
/// copied in: directions when bit 4 is clear, then actions when bit 5 is.
pub open spec fn lines_copied(joyp: u8, directs: u8, actions: u8) -> u8 {
    let j = if joyp & 0x10 == 0 {
        (joyp & 0xF0) | directs
    } else {
        joyp
    };
    if j & 0x20 == 0 {
        (j & 0xF0) | actions
    } else {
        j
    }
}

impl Joypad {
    /// The joypad after a write of `data` to P1: only the two select bits
    /// (4 and 5) take it.
    pub open spec fn after_write(self, data: u8) -> Joypad {
        let joyp = (data & 0x30) | (self.joyp & 0xCF);
        Joypad {
            joyp,
            something_selected: (joyp & 0x20) == 0x20 || (joyp & 0x10) == 0x10,
            ..self
        }
    }

    /// The joypad after the window event `event` (if any): a key press
    /// clears its button's line and flags a high to low edge, a release
    /// sets the line; then the selected groups are copied into P1.
    pub open spec fn after_event(self, event: Option<InputEvent>) -> Joypad {
        let o = self;
        let (directs, actions, high_to_low) = match event {
            Some(InputEvent::KeyDown(k)) => match key_line(k) {
                Some((true, b)) => ((o.directs & !bit_mask(b)) as u8, o.actions, true),
                Some((false, b)) => (o.directs, (o.actions & !bit_mask(b)) as u8, true),
                None => (o.directs, o.actions, if k == Key::Escape {
                    o.high_to_low
                } else {
                    false
                }),
            },
            Some(InputEvent::KeyUp(k)) => match key_line(k) {
                Some((true, b)) => ((o.directs | bit_mask(b)) as u8, o.actions, false),
                Some((false, b)) => (o.directs, (o.actions | bit_mask(b)) as u8, false),
                None => (o.directs, o.actions, false),
            },
            Some(InputEvent::Other) => (o.directs, o.actions, false),
            _ => (o.directs, o.actions, o.high_to_low),
        };
        Joypad { joyp: lines_copied(o.joyp, directs, actions), directs, actions, high_to_low, ..o }
    }

    pub fn new() -> (j: Joypad)
        ensures
            j == (Joypad {
                joyp: 0xCF,
                directs: 0x0F,
                actions: 0x0F,
                high_to_low: false,
                something_selected: false,
            }),
    {
        Joypad {
            joyp: 0xCF,
            directs: 0x0F,
            actions: 0x0F,
            high_to_low: false,
            something_selected: false,
        }
    }

    pub fn dmg_init(&mut self)
        ensures
            *final(self) == (Joypad { joyp: 0xCF, ..*old(self) }),
    {
        self.joyp = 0xCF;
    }

    pub fn read_byte(&self, addr: u16) -> (b: u8)
        requires
            addr == JOYP_REG,
        ensures
            b == self.joyp,
    {
        self.joyp
    }

    /// Only the two select bits (4 and 5) take writes.
    pub fn write_byte(&mut self, addr: u16, data: u8)
        requires
            addr == JOYP_REG,
        ensures
            *final(self) == old(self).after_write(data),
    {
        self.joyp = (data & 0x30) | (self.joyp & 0xCF);
        self.something_selected = (self.joyp & 0x20 == 0x20) || (self.joyp & 0x10 == 0x10);
    }

    pub fn is_joypad_interrupt(&self) -> (b: bool)
        ensures
            b == (self.something_selected && self.high_to_low),
    {
        self.something_selected && self.high_to_low
    }

    /// Takes the next window event, if any, then copies the selected button
    /// group into P1. Returns whether the emulator should quit (window
    /// closed or Escape pressed).
    pub fn update_input(&mut self, event: Option<InputEvent>) -> (should_exit: bool)
        ensures
            should_exit == (event == Some(InputEvent::Quit) || event == Some(
                InputEvent::KeyDown(Key::Escape),
            )),
            *final(self) == old(self).after_event(event),
    {
        let mut should_exit = false;
        match event {
            Some(InputEvent::Quit) | Some(InputEvent::KeyDown(Key::Escape)) => {
                should_exit = true;
            },
            Some(InputEvent::KeyDown(x)) => {
                self.handle_keydown_event(x);
            },
            Some(InputEvent::KeyUp(x)) => {
                self.handle_keyup_event(x);
            },
            Some(InputEvent::Other) => self.high_to_low = false,
            None => {},
        }
        if self.joyp & 0x10 == 0x00 {
            self.joyp = (self.joyp & 0xF0) | self.directs;
        }
        if self.joyp & 0x20 == 0x00 {
            self.joyp = (self.joyp & 0xF0) | self.actions;
        }
        should_exit
    }

    fn handle_keydown_event(&mut self, key: Key)
        requires
            key != Key::Escape,
        ensures
            ({
                let o = *old(self);
                *final(self) == match key_line(key) {
                    Some((true, b)) => Joypad {
                        directs: (o.directs & !bit_mask(b)) as u8,
                        high_to_low: true,
                        ..o
                    },
                    Some((false, b)) => Joypad {
                        actions: (o.actions & !bit_mask(b)) as u8,
                        high_to_low: true,
                        ..o
                    },
                    None => Joypad { high_to_low: false, ..o },
                }
            }),
    {
        self.high_to_low = true;
        match key {
            Key::Right => self.directs = self.directs & !1u8,
            Key::F => self.actions = self.actions & !1u8,
            Key::Left => self.directs = self.directs & !2u8,
            Key::D => self.actions = self.actions & !2u8,
            Key::Up => self.directs = self.directs & !4u8,
            Key::Return => self.actions = self.actions & !4u8,
            Key::Down => self.directs = self.directs & !8u8,
            Key::RShift => self.actions = self.actions & !8u8,
            _ => self.high_to_low = false,
        }
    }

    fn handle_keyup_event(&mut self, key: Key)
        ensures
            ({
                let o = *old(self);
                *final(self) == match key_line(key) {
                    Some((true, b)) => Joypad {
                        directs: (o.directs | bit_mask(b)) as u8,
                        high_to_low: false,
                        ..o
                    },
                    Some((false, b)) => Joypad {
                        actions: (o.actions | bit_mask(b)) as u8,
                        high_to_low: false,
                        ..o
                    },
                    None => Joypad { high_to_low: false, ..o },
                }
            }),
    {
        self.high_to_low = false;
        match key {
            Key::Right => self.directs = self.directs | 1u8,
            Key::F => self.actions = self.actions | 1u8,
            Key::Left => self.directs = self.directs | 2u8,
            Key::D => self.actions = self.actions | 2u8,
            Key::Up => self.directs = self.directs | 4u8,
            Key::Return => self.actions = self.actions | 4u8,
            Key::Down => self.directs = self.directs | 8u8,
            Key::RShift => self.actions = self.actions | 8u8,
            _ => self.high_to_low = false,
        }
    }
}

/// The lines of P1 (Pan Docs: bit 0 Right/A, bit 1 Left/B, bit 2 Up/Select,
/// bit 3 Down/Start): pressing an arrow key pulls exactly its direction
/// line low (Right bit 0, Left bit 1, Up bit 2, Down bit 3), and while the
/// direction group alone is selected P1 reads that line as 0.
pub proof fn law_direction_keys(j: Joypad, k: Key)
    requires
        k == Key::Right || k == Key::Left || k == Key::Up || k == Key::Down,
    ensures
        ({
            let bit: u8 = if k == Key::Right {
                0x01
            } else if k == Key::Left {
                0x02
            } else if k == Key::Up {
                0x04
            } else {
                0x08
            };
            let n = j.after_event(Some(InputEvent::KeyDown(k)));
            &&& n.directs == j.directs & !bit
            &&& n.actions == j.actions
            &&& j.joyp & 0x30 == 0x20 ==> n.joyp & bit == 0 && n.joyp & 0x0F == (j.directs
                & !bit) & 0x0F
        }),
{
    let d = j.directs;
    let p = j.joyp;
    let m: u8 = if k == Key::Right {
        0x01
    } else if k == Key::Left {
        0x02
    } else if k == Key::Up {
        0x04
    } else {
        0x08
    };
    assert(p & 0x30 == 0x20 ==> p & 0x10 == 0 && ((p & 0xF0) | (d & !m)) & 0x20 == 0x20 && (((p
        & 0xF0) | (d & !m)) & 0x0F) == (d & !m) & 0x0F && ((p & 0xF0) | (d & !m)) & m == 0)
        by (bit_vector)
        requires
            m == 1 || m == 2 || m == 4 || m == 8,
    ;
}

/// Pressing a button key pulls exactly its button line low (F is A on
/// bit 0, D is B on bit 1, Return is Select on bit 2, Right Shift is Start
/// on bit 3), and while the button group alone is selected P1 reads that
/// line as 0.
pub proof fn law_button_keys(j: Joypad, k: Key)
    requires
        k == Key::F || k == Key::D || k == Key::Return || k == Key::RShift,
    ensures
        ({
            let bit: u8 = if k == Key::F {
                0x01
            } else if k == Key::D {
                0x02
            } else if k == Key::Return {
                0x04
            } else {
                0x08
            };
            let n = j.after_event(Some(InputEvent::KeyDown(k)));
            &&& n.actions == j.actions & !bit
            &&& n.directs == j.directs
            &&& j.joyp & 0x30 == 0x10 ==> n.joyp & bit == 0 && n.joyp & 0x0F == (j.actions
                & !bit) & 0x0F
        }),
{
    let a = j.actions;
    let p = j.joyp;
    let m: u8 = if k == Key::F {
        0x01
    } else if k == Key::D {
        0x02
    } else if k == Key::Return {
        0x04
    } else {
        0x08
    };
    assert(p & 0x30 == 0x10 ==> p & 0x10 != 0 && p & 0x20 == 0 && (((p & 0xF0) | (a & !m))
        & 0x0F) == (a & !m) & 0x0F && ((p & 0xF0) | (a & !m)) & m == 0) by (bit_vector)
        requires
            m == 1 || m == 2 || m == 4 || m == 8,
    ;
}

/// Pressing a released button and letting it go leaves its button lines
/// as they were; while it is held, its line reads 0 (pressed).
pub proof fn lemma_press_release(j: Joypad, k: Key)
    requires
        key_line(k) is Some,
        ({
            let (dir, b) = key_line(k).unwrap();
            if dir {
                j.directs & bit_mask(b) != 0
            } else {
                j.actions & bit_mask(b) != 0
            }
        }),
    ensures
        ({
            let (dir, b) = key_line(k).unwrap();
            let held = j.after_event(Some(InputEvent::KeyDown(k)));
            let back = held.after_event(Some(InputEvent::KeyUp(k)));
            &&& (if dir {
                held.directs & bit_mask(b) == 0
            } else {
                held.actions & bit_mask(b) == 0
            })
            &&& back.directs == j.directs
            &&& back.actions == j.actions
        }),
{
    let (dir, b) = key_line(k).unwrap();
    let m = bit_mask(b);
    let (d, a) = (j.directs, j.actions);
    assert((d & !m) & m == 0 && (a & !m) & m == 0) by (bit_vector);
    assert(d & m != 0 && (m == 1 || m == 2 || m == 4 || m == 8) ==> (d & !m) | m == d) by (bit_vector);
    assert(a & m != 0 && (m == 1 || m == 2 || m == 4 || m == 8) ==> (a & !m) | m == a) by (bit_vector);
}

} // verus!
