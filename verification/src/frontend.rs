//! The computational half of the SDL frontend: the geometry that turns
//! the framebuffer into window rectangles, and the folding of host key
//! events into the sixteen key states. The windowing, event pump and
//! canvas live with the binary; they hand plain values in and out.

use vstd::prelude::*;

verus! {

/// Window width in pixels.
pub const WINDOW_WIDTH: u32 = 640;

/// Window height in pixels.
pub const WINDOW_HEIGHT: u32 = 320;

/// Side length of one framebuffer cell on screen.
pub const PIXEL_SCALE: u32 = 10;

/// One filled square on the window, in window coordinates.
#[derive(Clone, Copy, Debug, PartialEq, Eq, Structural)]
pub struct PixelRect {
    pub x: i32,
    pub y: i32,
    pub w: u32,
    pub h: u32,
}

/// The rectangle for framebuffer cell `idx`.
pub open spec fn rect_at(idx: int) -> PixelRect {
    PixelRect {
        x: ((idx % 64) * PIXEL_SCALE) as i32,
        y: ((idx / 64) * PIXEL_SCALE) as i32,
        w: PIXEL_SCALE,
        h: PIXEL_SCALE,
    }
}

/// The rectangles of the lit cells among the first `upto`, in cell order.
pub open spec fn lit_rects(g: Seq<u8>, upto: int) -> Seq<PixelRect>
    decreases upto,
{
    if upto <= 0 {
        Seq::empty()
    } else {
        let rest = lit_rects(g, upto - 1);
        if g[upto - 1] == 1 {
            rest.push(rect_at(upto - 1))
        } else {
            rest
        }
    }
}

/// The drawing half of the SDL frontend: maps a framebuffer to the
/// rectangles the canvas fills.
pub struct SdlGraphics {}

impl SdlGraphics {
    /// A fresh drawing frontend.
    pub fn new() -> SdlGraphics {
        SdlGraphics {}
    }

    /// One rectangle per lit framebuffer cell, scaled to the window, in
    /// cell order.
    pub fn pixel_rects(&self, graphics: &[u8; 2048]) -> (rects: Vec<PixelRect>)
        ensures
            rects@ == lit_rects(graphics@, 2048),
    {
        let mut rects: Vec<PixelRect> = Vec::new();
        let mut i: usize = 0;
        while i < 2048
            invariant
                i <= 2048,
                rects@ == lit_rects(graphics@, i as int),
            decreases 2048 - i,
        {
            if graphics[i] == 1 {
                let col = (i as u32 % 64) * PIXEL_SCALE;
                let row = (i as u32 / 64) * PIXEL_SCALE;
                rects.push(PixelRect { x: col as i32, y: row as i32, w: PIXEL_SCALE, h: PIXEL_SCALE });
            }
            i = i + 1;
        }
        rects
    }
}

/// A key on the host keyboard that maps to one of the sixteen machine
/// keys.
#[derive(Clone, Copy, Debug, PartialEq, Eq, Structural)]
pub enum HostKey {
    Key1,
    Key2,
    Key3,
    Key4,
    KeyQ,
    KeyW,
    KeyE,
    KeyR,
    KeyA,
    KeyS,
    KeyD,
    KeyF,
    KeyZ,
    KeyX,
    KeyC,
    KeyV,
}

/// A host event the keyboard frontend reacts to. Closing the window and
/// pressing escape both arrive as `Quit`.
#[derive(Clone, Copy, Debug, PartialEq, Eq, Structural)]
pub enum HostEvent {
    Quit,
    KeyDown(HostKey),
    KeyUp(HostKey),
}

/// The key-state slot a host key mirrors into.
pub open spec fn key_slot(key: HostKey) -> int {
    match key {
        HostKey::Key1 => 0,
        HostKey::Key2 => 1,
        HostKey::Key3 => 2,
        HostKey::Key4 => 3,
        HostKey::KeyQ => 4,
        HostKey::KeyW => 5,
        HostKey::KeyE => 6,
        HostKey::KeyR => 7,
        HostKey::KeyA => 8,
        HostKey::KeyS => 9,
        HostKey::KeyD => 10,
        HostKey::KeyF => 11,
        HostKey::KeyZ => 12,
        HostKey::KeyX => 13,
        HostKey::KeyC => 14,
        HostKey::KeyV => 15,
    }
}

/// The machine key code a host key stands for when a wait-for-key
/// instruction asks which key was pressed.
pub open spec fn key_code(key: HostKey) -> u8 {
    match key {
        HostKey::Key1 => 0x1,
        HostKey::Key2 => 0x2,
        HostKey::Key3 => 0x3,
        HostKey::Key4 => 0xC,
        HostKey::KeyQ => 0x4,
        HostKey::KeyW => 0x5,
        HostKey::KeyE => 0x6,
        HostKey::KeyR => 0xD,
        HostKey::KeyA => 0x7,
        HostKey::KeyS => 0x8,
        HostKey::KeyD => 0x9,
        HostKey::KeyF => 0xE,
        HostKey::KeyZ => 0xA,
        HostKey::KeyX => 0x0,
        HostKey::KeyC => 0xB,
        HostKey::KeyV => 0xF,
    }
}

/// Key states and the quit verdict after folding a stream of host
/// events, in order. A `Quit` ends the fold at once: later events are
/// not applied, and the verdict is true.
pub open spec fn fold_events(kb: Seq<u8>, events: Seq<HostEvent>) -> (Seq<u8>, bool)
    decreases events.len(),
{
    if events.len() == 0 {
        (kb, false)
    } else {
        match events[0] {
            HostEvent::Quit => (kb, true),
            HostEvent::KeyDown(k) => fold_events(kb.update(key_slot(k), 1u8), events.drop_first()),
            HostEvent::KeyUp(k) => fold_events(kb.update(key_slot(k), 0u8), events.drop_first()),
        }
    }
}

/// The event half of the SDL frontend: folds the host's pending events
/// into the machine's key states.
pub struct SdlKeyboard {}

impl SdlKeyboard {
    /// A fresh keyboard frontend.
    pub fn new() -> SdlKeyboard {
        SdlKeyboard {}
    }

    /// Applies the pending host events to the key states, in order,
    /// stopping at a quit request. Returns whether the host asked to
    /// quit.
    pub fn update_state(
        &mut self,
        keyboard: &mut [u8; 16],
        events: &Vec<HostEvent>,
    ) -> (quit: bool)
        ensures
            final(keyboard)@ == fold_events(old(keyboard)@, events@).0,
            quit == fold_events(old(keyboard)@, events@).1,
            *final(self) == *old(self),
    {
        let mut i: usize = 0;
        proof {
            assert(events@.subrange(0, events@.len() as int) =~= events@);
        }
        while i < events.len()
            invariant
                i <= events@.len(),
                fold_events(old(keyboard)@, events@) == fold_events(
                    keyboard@,
                    events@.subrange(i as int, events@.len() as int),
                ),
            decreases events@.len() - i,
        {
            let ghost remaining = events@.subrange(i as int, events@.len() as int);
            proof {
                assert(remaining.drop_first() =~= events@.subrange(
                    i as int + 1,
                    events@.len() as int,
                ));
            }
            match events[i] {
                HostEvent::Quit => {
                    return true;
                },
                HostEvent::KeyDown(k) => {
                    let slot = Self::key_slot_of(k);
                    keyboard[slot] = 1;
                },
                HostEvent::KeyUp(k) => {
                    let slot = Self::key_slot_of(k);
                    keyboard[slot] = 0;
                },
            }
            i = i + 1;
        }
        false
    }

    /// The key-state slot for a host key.
    pub fn key_slot_of(key: HostKey) -> (slot: usize)
        ensures
            slot == key_slot(key),
            slot < 16,
    {
        match key {
            HostKey::Key1 => 0,
            HostKey::Key2 => 1,
            HostKey::Key3 => 2,
            HostKey::Key4 => 3,
            HostKey::KeyQ => 4,
            HostKey::KeyW => 5,
            HostKey::KeyE => 6,
            HostKey::KeyR => 7,
            HostKey::KeyA => 8,
            HostKey::KeyS => 9,
            HostKey::KeyD => 10,
            HostKey::KeyF => 11,
            HostKey::KeyZ => 12,
            HostKey::KeyX => 13,
            HostKey::KeyC => 14,
            HostKey::KeyV => 15,
        }
    }

    /// The machine key code the wait-for-key instruction stores when
    /// this host key is pressed.
    pub fn key_press_code(&self, key: HostKey) -> (code: u8)
        ensures
            code == key_code(key),
            code < 16,
    {
        match key {
            HostKey::Key1 => 0x1,
            HostKey::Key2 => 0x2,
            HostKey::Key3 => 0x3,
            HostKey::Key4 => 0xC,
            HostKey::KeyQ => 0x4,
            HostKey::KeyW => 0x5,
            HostKey::KeyE => 0x6,
            HostKey::KeyR => 0xD,
            HostKey::KeyA => 0x7,
            HostKey::KeyS => 0x8,
            HostKey::KeyD => 0x9,
            HostKey::KeyF => 0xE,
            HostKey::KeyZ => 0xA,
            HostKey::KeyX => 0x0,
            HostKey::KeyC => 0xB,
            HostKey::KeyV => 0xF,
        }
    }
}

} // verus!
