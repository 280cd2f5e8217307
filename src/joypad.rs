use vstd::prelude::*;

verus! {

/// Eight buttons and the two group selects of the joypad register (0xFF00).
/// A `true` button is held down; a `true` select means that group is selected.
#[derive(Debug, Clone, Copy, PartialEq, Eq, Structural)]
pub struct Joypad {
    pub left: bool,
    pub right: bool,
    pub up: bool,
    pub down: bool,
    pub a: bool,
    pub b: bool,
    pub select: bool,
    pub start: bool,
    pub select_dpad: bool,
    pub select_buttons: bool,
}

/// 0 for a held, selected line; the line's weight otherwise (lines are active low).
pub open spec fn line(held: bool, weight: u8) -> u8 {
    if held {
        0
    } else {
        weight
    }
}

impl Joypad {
    /// Button state by host bit: 0=Right 1=Left 2=Up 3=Down 4=A 5=B 6=Select 7=Start.
    pub open spec fn button(self, bit: u8) -> bool {
        if bit == 0 {
            self.right
        } else if bit == 1 {
            self.left
        } else if bit == 2 {
            self.up
        } else if bit == 3 {
            self.down
        } else if bit == 4 {
            self.a
        } else if bit == 5 {
            self.b
        } else if bit == 6 {
            self.select
        } else if bit == 7 {
            self.start
        } else {
            false
        }
    }

    /// Whether input line `i` (0..4) is pulled low by a selected, held key.
    pub open spec fn line_low(self, i: u8) -> bool {
        (self.select_dpad && self.button(i)) || (self.select_buttons && self.button(
            (i + 4) as u8,
        ))
    }

    /// The joypad register value: bits 6,7 read 1, bits 4,5 are the inverted selects and
    /// bits 0..3 the wired-OR of the selected keys (0 = pressed).
    pub open spec fn reg_value(self) -> u8 {
        (0xC0 + line(self.select_buttons, 0x20) + line(self.select_dpad, 0x10) + line(
            self.line_low(3),
            0x08,
        ) + line(self.line_low(2), 0x04) + line(self.line_low(1), 0x02) + line(
            self.line_low(0),
            0x01,
        )) as u8
    }

    /// Whether a release-to-press edge of `bit` raises the Joypad interrupt.
    pub open spec fn group_selected(self, bit: u8) -> bool {
        if bit >= 4 {
            self.select_buttons
        } else {
            self.select_dpad
        }
    }

    pub fn new() -> (r: Joypad)
        ensures
            forall|i: u8| !#[trigger] r.button(i),
            !r.select_dpad,
            !r.select_buttons,
    {
        Joypad {
            left: false,
            right: false,
            up: false,
            down: false,
            a: false,
            b: false,
            select: false,
            start: false,
            select_dpad: false,
            select_buttons: false,
        }
    }

    pub fn read(&self) -> (r: u8)
        ensures
            r == self.reg_value(),
    {
        let dpad_sel = self.select_dpad;
        let btn_sel = self.select_buttons;
        let mut state: u8 = 0xC0;
        if !btn_sel {
            state = state + 0x20;
        }
        if !dpad_sel {
            state = state + 0x10;
        }
        if !((dpad_sel && self.down) || (btn_sel && self.start)) {
            state = state + 0x08;
        }
        if !((dpad_sel && self.up) || (btn_sel && self.select)) {
            state = state + 0x04;
        }
        if !((dpad_sel && self.left) || (btn_sel && self.b)) {
            state = state + 0x02;
        }
        if !((dpad_sel && self.right) || (btn_sel && self.a)) {
            state = state + 0x01;
        }
        state
    }

    /// Only the two select bits (4: directions, 5: actions; 0 = selected) are writable.
    pub fn write(&mut self, byte: u8)
        ensures
            *final(self) == (Joypad {
                select_buttons: byte & 0x20 == 0,
                select_dpad: byte & 0x10 == 0,
                ..*old(self)
            }),
    {
        self.select_buttons = (byte & 0x20) == 0;
        self.select_dpad = (byte & 0x10) == 0;
    }

    /// Sets the state of host button `bit`; returns whether the Joypad interrupt
    /// is to be requested (a newly pressed key of a selected group).
    pub fn set_button(&mut self, bit: u8, pressed: bool) -> (irq: bool)
        ensures
            forall|i: u8|
                #[trigger] final(self).button(i) == (if i == bit && bit < 8 {
                    pressed
                } else {
                    old(self).button(i)
                }),
            final(self).select_dpad == old(self).select_dpad,
            final(self).select_buttons == old(self).select_buttons,
            irq == (bit < 8 && !old(self).button(bit) && pressed && old(self).group_selected(bit)),
    {
        let previously_pressed = match bit {
            0 => self.right,
            1 => self.left,
            2 => self.up,
            3 => self.down,
            4 => self.a,
            5 => self.b,
            6 => self.select,
            7 => self.start,
            _ => false,
        };
        match bit {
            0 => self.right = pressed,
            1 => self.left = pressed,
            2 => self.up = pressed,
            3 => self.down = pressed,
            4 => self.a = pressed,
            5 => self.b = pressed,
            6 => self.select = pressed,
            7 => self.start = pressed,
            _ => {},
        }
        let mut request_interrupt = false;
        if !previously_pressed && pressed {
            let is_action = bit >= 4;
            let is_direction = bit < 4;
            if (is_action && bit < 8 && self.select_buttons) || (is_direction
                && self.select_dpad) {
                request_interrupt = true;
            }
        }
        request_interrupt
    }
}

} // verus!
