//! The two game controllers: eight buttons latched in parallel and
//! shifted out one bit per read, in the order A, B, Select, Start, Up,
//! Down, Left, Right.

use vstd::prelude::*;
use crate::error::{MemoryError, MemoryResult};

verus! {

/// One of the eight buttons of a standard pad.
#[derive(Clone, Copy, Debug, PartialEq, Eq, Structural)]
pub enum Button {
    A,
    B,
    Select,
    Start,
    Up,
    Down,
    Left,
    Right,
}

impl Button {
    /// The bit this button occupies in the latched byte.
    pub open spec fn spec_mask(self) -> u8 {
        match self {
            Button::A => 0x01,
            Button::B => 0x02,
            Button::Select => 0x04,
            Button::Start => 0x08,
            Button::Up => 0x10,
            Button::Down => 0x20,
            Button::Left => 0x40,
            Button::Right => 0x80,
        }
    }
}

/// One controller: the current button switches, the strobe line, the
/// read index, and the latched shift register.
#[derive(Debug, Clone)]
pub struct Controller {
    pub a: bool,
    pub b: bool,
    pub select: bool,
    pub start: bool,
    pub up: bool,
    pub down: bool,
    pub left: bool,
    pub right: bool,
    /// While high, the latch follows the buttons and reads return the
    /// first bit again and again.
    pub strobe: bool,
    /// Which bit the next read returns; past the eighth, reads give one.
    pub index: u8,
    /// The button states packed into one byte.
    pub buttons: u8,
}

/// The byte that packs the current button switches.
pub open spec fn packed_buttons(c: Controller) -> u8 {
    ((if c.a { 0x01u8 } else { 0u8 }) | (if c.b { 0x02u8 } else { 0u8 })
        | (if c.select { 0x04u8 } else { 0u8 }) | (if c.start { 0x08u8 } else { 0u8 })
        | (if c.up { 0x10u8 } else { 0u8 }) | (if c.down { 0x20u8 } else { 0u8 })
        | (if c.left { 0x40u8 } else { 0u8 })) | (if c.right { 0x80u8 } else { 0u8 })
}

impl Controller {
    /// A controller with no button held and the latch idle.
    pub fn new() -> (r: Controller)
        ensures
            !r.a && !r.b && !r.select && !r.start && !r.up && !r.down && !r.left && !r.right,
            !r.strobe,
            r.index == 0,
            r.buttons == 0,
    {
        Controller {
            a: false,
            b: false,
            select: false,
            start: false,
            up: false,
            down: false,
            left: false,
            right: false,
            strobe: false,
            index: 0,
            buttons: 0,
        }
    }

    /// Press or release one button and refresh the packed byte.
    pub fn set_button(&mut self, button: Button, pressed: bool)
        ensures
            final(self).a == (if button == Button::A { pressed } else { old(self).a }),
            final(self).b == (if button == Button::B { pressed } else { old(self).b }),
            final(self).select == (if button == Button::Select { pressed } else {
                old(self).select
            }),
            final(self).start == (if button == Button::Start { pressed } else { old(self).start }),
            final(self).up == (if button == Button::Up { pressed } else { old(self).up }),
            final(self).down == (if button == Button::Down { pressed } else { old(self).down }),
            final(self).left == (if button == Button::Left { pressed } else { old(self).left }),
            final(self).right == (if button == Button::Right { pressed } else { old(self).right }),
            final(self).buttons == packed_buttons(*final(self)),
            final(self).strobe == old(self).strobe,
            final(self).index == old(self).index,
    {
        match button {
            Button::A => self.a = pressed,
            Button::B => self.b = pressed,
            Button::Select => self.select = pressed,
            Button::Start => self.start = pressed,
            Button::Up => self.up = pressed,
            Button::Down => self.down = pressed,
            Button::Left => self.left = pressed,
            Button::Right => self.right = pressed,
        }

        self.update_buttons();
    }

    /// Drive the strobe line from bit 0 of a `0x4016` write: while it is
    /// high the read index stays at the first bit, and it also rewinds
    /// on the high-to-low edge that freezes the latch.
    pub fn write(&mut self, value: u8) -> (r: MemoryResult<()>)
        ensures
            r == Ok::<(), MemoryError>(()),
            final(self).strobe == (value & 0x01 != 0),
            final(self).index == (if old(self).strobe || value & 0x01 != 0 {
                0u8
            } else {
                old(self).index
            }),
            final(self).buttons == old(self).buttons,
            final(self).a == old(self).a && final(self).b == old(self).b && final(self).select
                == old(self).select && final(self).start == old(self).start && final(self).up
                == old(self).up && final(self).down == old(self).down && final(self).left
                == old(self).left && final(self).right == old(self).right,
    {
        let new_strobe = (value & 0x01) != 0;

        if self.strobe && !new_strobe {
            self.index = 0;
        }

        self.strobe = new_strobe;

        if self.strobe {
            self.index = 0;
        }

        Ok(())
    }

    /// Shift out one button bit: reads walk the eight latched bits in
    /// order, then return one; while the strobe is high the index stays
    /// put, so every read returns the first bit.
    pub fn read(&mut self) -> (r: MemoryResult<u8>)
        ensures
            old(self).index < 8 ==> r == Ok::<u8, MemoryError>(
                (old(self).buttons >> old(self).index) & 0x01,
            ) && final(self).index == (if old(self).strobe {
                old(self).index
            } else {
                (old(self).index + 1) as u8
            }),
            old(self).index >= 8 ==> r == Ok::<u8, MemoryError>(1u8) && final(self).index
                == old(self).index,
            final(self).buttons == old(self).buttons,
            final(self).strobe == old(self).strobe,
            final(self).a == old(self).a && final(self).b == old(self).b && final(self).select
                == old(self).select && final(self).start == old(self).start && final(self).up
                == old(self).up && final(self).down == old(self).down && final(self).left
                == old(self).left && final(self).right == old(self).right,
    {
        let result = if self.index < 8 {
            proof {
                let i = self.index;
                assert(i < 8 ==> i < 64) by (bit_vector);
            }
            let result = (self.buttons >> self.index) & 0x01;
            if !self.strobe {
                self.index = self.index + 1;
            }
            result
        } else {
            // Past the last button the pad reports lines held high.
            1
        };

        Ok(result)
    }

    /// Repack the button switches into the latched byte.
    fn update_buttons(&mut self)
        ensures
            final(self).buttons == packed_buttons(*old(self)),
            final(self).a == old(self).a && final(self).b == old(self).b && final(self).select
                == old(self).select && final(self).start == old(self).start && final(self).up
                == old(self).up && final(self).down == old(self).down && final(self).left
                == old(self).left && final(self).right == old(self).right,
            final(self).strobe == old(self).strobe,
            final(self).index == old(self).index,
    {
        self.buttons = (if self.a {
            0x01u8
        } else {
            0
        }) | (if self.b {
            0x02
        } else {
            0
        }) | (if self.select {
            0x04
        } else {
            0
        }) | (if self.start {
            0x08
        } else {
            0
        }) | (if self.up {
            0x10
        } else {
            0
        }) | (if self.down {
            0x20
        } else {
            0
        }) | (if self.left {
            0x40
        } else {
            0
        }) | (if self.right {
            0x80
        } else {
            0
        });
    }
}

/// The two controller ports, addressed by index.
pub struct InputManager {
    pub controller1: Controller,
    pub controller2: Controller,
}

impl InputManager {
    /// Two idle controllers.
    pub fn new() -> (r: InputManager)
        ensures
            r.controller1.index == 0 && !r.controller1.strobe && r.controller1.buttons == 0,
            r.controller2.index == 0 && !r.controller2.strobe && r.controller2.buttons == 0,
    {
        InputManager { controller1: Controller::new(), controller2: Controller::new() }
    }

    /// Read one bit from the selected controller port: the selected pad
    /// shifts out its next button bit exactly as `Controller::read`
    /// says, and the other pad is untouched.
    pub fn read_controller(&mut self, controller: u8) -> (r: MemoryResult<u8>)
        ensures
            controller >= 2 ==> r == Err::<u8, MemoryError>(MemoryError::InvalidRegion(
                controller as u16)) && *final(self) == *old(self),
            controller < 2 ==> ({
                let pre = if controller == 0 {
                    old(self).controller1
                } else {
                    old(self).controller2
                };
                let post = if controller == 0 {
                    final(self).controller1
                } else {
                    final(self).controller2
                };
                &&& (pre.index < 8 ==> r == Ok::<u8, MemoryError>((pre.buttons >> pre.index)
                    & 0x01) && post.index == (if pre.strobe {
                    pre.index
                } else {
                    (pre.index + 1) as u8
                }))
                &&& (pre.index >= 8 ==> r == Ok::<u8, MemoryError>(1u8) && post.index == pre.index)
                &&& post.buttons == pre.buttons && post.strobe == pre.strobe
                &&& (controller == 0 ==> final(self).controller2 == old(self).controller2)
                &&& (controller != 0 ==> final(self).controller1 == old(self).controller1)
            }),
    {
        if controller == 0 {
            self.controller1.read()
        } else if controller == 1 {
            self.controller2.read()
        } else {
            Err(MemoryError::InvalidRegion(controller as u16))
        }
    }

    /// Drive the selected controller port's strobe line: the selected
    /// pad follows `Controller::write`, and the other pad is untouched.
    pub fn write_controller(&mut self, controller: u8, value: u8) -> (r: MemoryResult<()>)
        ensures
            controller >= 2 ==> r == Err::<(), MemoryError>(MemoryError::InvalidRegion(
                controller as u16)) && *final(self) == *old(self),
            controller < 2 ==> r == Ok::<(), MemoryError>(()) && ({
                let pre = if controller == 0 {
                    old(self).controller1
                } else {
                    old(self).controller2
                };
                let post = if controller == 0 {
                    final(self).controller1
                } else {
                    final(self).controller2
                };
                &&& post.strobe == (value & 0x01 != 0)
                &&& post.index == (if pre.strobe || value & 0x01 != 0 {
                    0u8
                } else {
                    pre.index
                })
                &&& post.buttons == pre.buttons
                &&& post.a == pre.a && post.b == pre.b && post.select == pre.select && post.start
                    == pre.start && post.up == pre.up && post.down == pre.down && post.left
                    == pre.left && post.right == pre.right
                &&& (controller == 0 ==> final(self).controller2 == old(self).controller2)
                &&& (controller != 0 ==> final(self).controller1 == old(self).controller1)
            }),
    {
        if controller == 0 {
            self.controller1.write(value)
        } else if controller == 1 {
            self.controller2.write(value)
        } else {
            Err(MemoryError::InvalidRegion(controller as u16))
        }
    }
}

} // verus!
