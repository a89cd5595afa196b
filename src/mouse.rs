use vstd::prelude::*;

verus! {

/// Mouse Button
#[derive(Debug, Clone, Copy, PartialEq, Eq, Structural)]
pub enum MouseButton {
    /// Left
    Left,
    /// Right
    Right,
    /// Middle
    Middle,
}

impl MouseButton {
    /// The bit of the button field that stands for this button.
    pub open spec fn button_bit(self) -> u8 {
        match self {
            MouseButton::Left => 0x01,
            MouseButton::Right => 0x02,
            MouseButton::Middle => 0x04,
        }
    }

    /// Mouse button to byte
    pub fn to_byte(&self) -> (r: u8)
        ensures
            r == self.button_bit(),
    {
        match self {
            MouseButton::Left => 0x01,
            MouseButton::Right => 0x02,
            MouseButton::Middle => 0x04,
        }
    }
}

/// Mouse movement direction
#[derive(Debug, Clone, Copy, PartialEq, Eq, Structural)]
pub enum MouseDir {
    /// X
    X,
    /// Y
    Y,
}

/// Bytes of a mouse report: buttons, X delta, Y delta, wheel delta, reserved.
pub const MOUSE_PACKET_LEN: usize = 5;

const MOUSE_DATA_BUT_IDX: usize = 0;

const MOUSE_DATA_X_IDX: usize = 1;

const MOUSE_DATA_Y_IDX: usize = 2;

const MOUSE_DATA_WHEL_IDX: usize = 3;

/// The byte that carries a signed delta: its two's complement.
pub open spec fn delta_byte(d: i8) -> u8 {
    if d >= 0 {
        d as u8
    } else {
        (d + 256) as u8
    }
}

/// The report byte that a direction's delta occupies.
pub open spec fn dir_index(dir: MouseDir) -> int {
    match dir {
        MouseDir::X => 1,
        MouseDir::Y => 2,
    }
}

/// The mouse report that asserts nothing.
pub open spec fn empty_mouse_report() -> Seq<u8> {
    seq![0u8, 0u8, 0u8, 0u8, 0u8]
}

/// The report that ends a flush: the held buttons, no motion, no wheel.
pub open spec fn hold_report(hold: u8) -> Seq<u8> {
    seq![hold, 0u8, 0u8, 0u8, 0u8]
}

fn to_delta_byte(d: i8) -> (r: u8)
    ensures
        r == delta_byte(d),
{
    if d >= 0 {
        d as u8
    } else {
        (d as i16 + 256) as u8
    }
}

/// Virtual Mouse: one pending report, and the buttons held across flushes.
pub struct Mouse {
    data: [u8; MOUSE_PACKET_LEN],
    hold: u8,
}

impl Mouse {
    /// The pending report.
    pub closed spec fn pending(&self) -> Seq<u8> {
        self.data@
    }

    /// The buttons held across flushes.
    pub closed spec fn hold_mask(&self) -> u8 {
        self.hold
    }

    /// The pending report has 5 bytes.
    pub proof fn lemma_pending_len(&self)
        ensures
            self.pending().len() == MOUSE_PACKET_LEN,
    {
    }

    /// New
    pub fn new() -> (r: Mouse)
        ensures
            r.pending() == empty_mouse_report(),
            r.hold_mask() == 0,
    {
        let r = Mouse { data: [0;MOUSE_PACKET_LEN], hold: 0x00 };
        assert(r.pending() =~= empty_mouse_report());
        r
    }

    /// Click mouse button: its bit is set in the pending report.
    pub fn press_button(&mut self, button: &MouseButton)
        ensures
            final(self).pending() == old(self).pending().update(
                0,
                old(self).pending()[0] | button.button_bit(),
            ),
            final(self).hold_mask() == old(self).hold_mask(),
    {
        self.data[MOUSE_DATA_BUT_IDX] = self.data[MOUSE_DATA_BUT_IDX] | button.to_byte();
        assert(self.pending() =~= old(self).pending().update(
            0,
            old(self).pending()[0] | button.button_bit(),
        ));
    }

    /// Hold mouse button
    pub fn hold_button(&mut self, button: &MouseButton)
        ensures
            final(self).hold_mask() == old(self).hold_mask() | button.button_bit(),
            final(self).pending() == old(self).pending(),
    {
        self.hold = self.hold | button.to_byte();
    }

    /// Release mouse button
    pub fn release_button(&mut self, button: &MouseButton)
        ensures
            final(self).hold_mask() == old(self).hold_mask() & !button.button_bit(),
            final(self).pending() == old(self).pending(),
    {
        self.hold = self.hold & !button.to_byte();
    }

    /// Move mouse a relative amount in a direction
    pub fn move_mouse(&mut self, displacement: &i8, dir: &MouseDir)
        ensures
            final(self).pending() == old(self).pending().update(
                dir_index(*dir),
                delta_byte(*displacement),
            ),
            final(self).hold_mask() == old(self).hold_mask(),
    {
        let byte = to_delta_byte(*displacement);
        match dir {
            MouseDir::X => self.data[MOUSE_DATA_X_IDX] = byte,
            MouseDir::Y => self.data[MOUSE_DATA_Y_IDX] = byte,
        }
        assert(self.pending() =~= old(self).pending().update(
            dir_index(*dir),
            delta_byte(*displacement),
        ));
    }

    /// Scroll the scroll wheel
    pub fn scroll_wheel(&mut self, displacement: &i8)
        ensures
            final(self).pending() == old(self).pending().update(
                3,
                delta_byte(*displacement),
            ),
            final(self).hold_mask() == old(self).hold_mask(),
    {
        self.data[MOUSE_DATA_WHEL_IDX] = to_delta_byte(*displacement);
        assert(self.pending() =~= old(self).pending().update(
            MOUSE_DATA_WHEL_IDX as int,
            delta_byte(*displacement),
        ));
    }

    /// The pending report as it stands.
    pub fn pending_report(&self) -> (r: [u8; MOUSE_PACKET_LEN])
        ensures
            r@ == self.pending(),
    {
        self.data
    }

    /// First half of a flush: the held buttons are merged into the pending report,
    /// and the two reports to write are returned, in order: the pending report, then
    /// the held buttons alone with no motion (all zero when nothing is held).
    pub fn prepare_send(&mut self) -> (r: ([u8; MOUSE_PACKET_LEN], [u8; MOUSE_PACKET_LEN]))
        ensures
            final(self).pending() == if old(self).hold_mask() == 0 {
                old(self).pending()
            } else {
                old(self).pending().update(0, old(self).pending()[0] | old(self).hold_mask())
            },
            final(self).hold_mask() == old(self).hold_mask(),
            r.0@ == final(self).pending(),
            r.1@ == hold_report(old(self).hold_mask()),
            old(self).hold_mask() == 0 ==> r.1@ == empty_mouse_report(),
    {
        if self.hold != 0x00 {
            self.data[MOUSE_DATA_BUT_IDX] = self.data[MOUSE_DATA_BUT_IDX] | self.hold;
            assert(self.pending() =~= old(self).pending().update(
                0,
                old(self).pending()[0] | old(self).hold_mask(),
            ));
        }
        let last = [self.hold, 0, 0, 0, 0];
        assert(last@ =~= hold_report(self.hold));
        (self.data, last)
    }

    /// Second half of a flush, once the first report was written: the pending report
    /// is cleared; the held buttons stay held.
    pub fn finish_send(&mut self)
        ensures
            final(self).pending() == empty_mouse_report(),
            final(self).hold_mask() == old(self).hold_mask(),
    {
        self.data = [0;MOUSE_PACKET_LEN];
        assert(self.pending() =~= empty_mouse_report());
    }
}

} // verus!
