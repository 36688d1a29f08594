//! Dimming below the hardware floor: one black, translucent window per screen,
//! whose opacity stands for the darkness asked for.

use vstd::prelude::*;
use crate::brightness::round_div;

verus! {

/// Window message that asks a window to repaint itself.
pub const WM_PAINT: u32 = 15;

/// Window message that ends the message loop.
pub const WM_QUIT: u32 = 18;

/// Requests that the command channel holds before a sender has to wait.
pub const OVERLAY_CHANNEL_CAPACITY: usize = 32;

/// Pause, in milliseconds, between two rounds of the overlay loop.
pub const OVERLAY_TICK_MILLIS: u64 = 16;

/// A request to set the opacity of the overlay on one screen:
/// `level` 0 is transparent, 255 is black.
#[derive(Debug, PartialEq, Eq)]
pub struct Overlay {
    pub level: u8,
    pub device_name: String,
}

/// What an `Overlay` stands for.
pub struct OverlayView {
    pub level: u8,
    pub device_name: Seq<char>,
}

impl View for Overlay {
    type V = OverlayView;

    open spec fn view(&self) -> OverlayView {
        OverlayView { level: self.level, device_name: self.device_name@ }
    }
}

impl Clone for Overlay {
    fn clone(&self) -> (copy: Self)
        ensures
            copy@ == self@,
    {
        Overlay { level: self.level, device_name: self.device_name.clone() }
    }
}

/// The opacity for a slider position: each step below zero adds 2.55 to the
/// opacity, rounded to the nearest integer. Positions from -100 downwards are
/// fully black, and positions from zero upwards leave the screen clear.
pub open spec fn overlay_alpha(value: int) -> int {
    if value <= -100 {
        255
    } else if value >= 0 {
        0
    } else {
        round_div(255 * (-value), 100)
    }
}

/// Computes `overlay_alpha`.
pub fn alpha_for(value: i32) -> (alpha: u8)
    ensures
        alpha == overlay_alpha(value as int),
{
    if value <= -100 {
        255
    } else if value >= 0 {
        0
    } else {
        let depth: u32 = (-value) as u32;
        let rounded: u32 = (2 * (255 * depth) + 100) / 200;
        rounded as u8
    }
}

/// The overlay windows, each under the device name of the screen it covers.
/// No device name occurs twice.
#[derive(Debug)]
pub struct OverlayWindows {
    names: Vec<String>,
    windows: Vec<isize>,
}

impl OverlayWindows {
    /// The device names that have a window, in the order of registration.
    pub closed spec fn names(&self) -> Seq<Seq<char>> {
        Seq::new(self.names@.len(), |i: int| self.names@[i]@)
    }

    /// The window handles, each at the index of its device name.
    pub closed spec fn windows(&self) -> Seq<isize> {
        self.windows@
    }

    /// Each name has its window, and no name occurs twice.
    pub open spec fn well_formed(&self) -> bool {
        &&& self.names().len() == self.windows().len()
        &&& forall|i: int, j: int|
            0 <= i < j < self.names().len() ==> self.names()[i] != self.names()[j]
    }

    /// The window registered under `device_name`, if there is one.
    pub open spec fn window_of(&self, device_name: Seq<char>) -> Option<isize> {
        if exists|i: int| 0 <= i < self.names().len() && self.names()[i] == device_name {
            let i = choose|i: int| 0 <= i < self.names().len() && self.names()[i] == device_name;
            Some(self.windows()[i])
        } else {
            None
        }
    }

    /// A table without windows.
    pub fn new() -> (table: Self)
        ensures
            table.well_formed(),
            table.names().len() == 0,
    {
        OverlayWindows { names: Vec::new(), windows: Vec::new() }
    }

    /// The number of windows.
    pub fn len(&self) -> (n: usize)
        requires
            self.well_formed(),
        ensures
            n == self.names().len(),
    {
        self.names.len()
    }

    fn position(&self, device_name: &String) -> (found: Option<usize>)
        requires
            self.well_formed(),
        ensures
            match found {
                Some(i) => i < self.names().len() && self.names()[i as int] == device_name@,
                None => forall|i: int|
                    0 <= i < self.names().len() ==> self.names()[i] != device_name@,
            },
    {
        let mut i: usize = 0;
        while i < self.names.len()
            invariant
                i <= self.names.len(),
                self.names().len() == self.names@.len(),
                forall|k: int| 0 <= k < i ==> self.names()[k] != device_name@,
            decreases self.names.len() - i,
        {
            if self.names[i] == *device_name {
                return Some(i);
            }
            i = i + 1;
        }
        None
    }

    /// Puts `window` under `device_name`. A window that stood under that name
    /// before is replaced and returned; the other entries stay as they are.
    pub fn insert(&mut self, device_name: String, window: isize) -> (previous: Option<isize>)
        requires
            old(self).well_formed(),
        ensures
            final(self).well_formed(),
            previous == old(self).window_of(device_name@),
            final(self).window_of(device_name@) == Some(window),
            forall|other: Seq<char>|
                other != device_name@ ==> final(self).window_of(other) == old(self).window_of(
                    other,
                ),
            final(self).names().len() == old(self).names().len() + if previous.is_some() {
                0int
            } else {
                1int
            },
    {
        let ghost before = *self;
        match self.position(&device_name) {
            Some(i) => {
                let previous = self.windows[i];
                self.windows.set(i, window);
                proof {
                    assert(self.names() =~= before.names());
                    before.lemma_window_at(i as int);
                    self.lemma_window_at(i as int);
                    assert forall|other: Seq<char>| other != device_name@ implies self.window_of(
                        other,
                    ) == before.window_of(other) by {
                        if exists|k: int| 0 <= k < self.names().len() && self.names()[k] == other {
                            let k = choose|k: int|
                                0 <= k < self.names().len() && self.names()[k] == other;
                            before.lemma_window_at(k);
                            self.lemma_window_at(k);
                        }
                    }
                }
                Some(previous)
            },
            None => {
                let ghost n = self.names().len() as int;
                self.names.push(device_name);
                self.windows.push(window);
                proof {
                    assert(self.names() =~= before.names().push(device_name@));
                    assert(self.names()[n] == device_name@);
                    self.lemma_window_at(n);
                    assert forall|other: Seq<char>| other != device_name@ implies self.window_of(
                        other,
                    ) == before.window_of(other) by {
                        if exists|k: int| 0 <= k < self.names().len() && self.names()[k] == other {
                            let k = choose|k: int|
                                0 <= k < self.names().len() && self.names()[k] == other;
                            assert(before.names()[k] == other);
                            before.lemma_window_at(k);
                            self.lemma_window_at(k);
                        } else {
                            if exists|k: int|
                                0 <= k < before.names().len() && before.names()[k] == other {
                                let k = choose|k: int|
                                    0 <= k < before.names().len() && before.names()[k] == other;
                                assert(self.names()[k] == other);
                            }
                        }
                    }
                }
                None
            },
        }
    }

    /// The window and the opacity that `message` sets. A message for a device
    /// name without a window changes nothing and gives `None`.
    pub fn apply(&self, message: &Overlay) -> (update: Option<(isize, u8)>)
        requires
            self.well_formed(),
        ensures
            update == match self.window_of(message.device_name@) {
                Some(window) => Some((window, message.level)),
                None => None,
            },
    {
        match self.position(&message.device_name) {
            Some(i) => {
                proof {
                    self.lemma_window_at(i as int);
                }
                Some((self.windows[i], message.level))
            },
            None => None,
        }
    }

    /// In a well-formed table the window of the name at index `i` is the window
    /// at index `i`.
    proof fn lemma_window_at(&self, i: int)
        requires
            self.well_formed(),
            0 <= i < self.names().len(),
        ensures
            self.window_of(self.names()[i]) == Some(self.windows()[i]),
    {
        let name = self.names()[i];
        let k = choose|k: int| 0 <= k < self.names().len() && self.names()[k] == name;
        if k < i {
            assert(self.names()[k] != self.names()[i]);
        } else if i < k {
            assert(self.names()[i] != self.names()[k]);
        }
    }
}

/// What the overlay loop learns from the outside between two of its decisions.
#[derive(Debug)]
pub enum OverlayEvent {
    /// The loop starts, or its pause is over.
    Tick,
    /// What the command channel held, without waiting: a request or nothing.
    Received(Option<Overlay>),
    /// Whether the opacity asked for was set.
    AlphaSet(bool),
    /// The next pending window message, or none.
    Peeked(Option<u32>),
    /// The window message was handed to its window.
    Dispatched,
}

/// What the overlay loop asks for next.
#[derive(Debug, Clone, Copy, PartialEq, Eq)]
pub enum OverlayAction {
    /// Take at most one request from the command channel, without waiting.
    TryReceive,
    /// Set the opacity of a window.
    SetAlpha { window: isize, alpha: u8 },
    /// Look for a pending window message.
    Peek,
    /// Hand the window message to its window.
    Dispatch(u32),
    /// Pause for so many milliseconds, then report a tick.
    Sleep(u64),
    /// Leave the loop: after a quit message (`failed` is false) or because an
    /// opacity could not be set.
    Stop { failed: bool },
}

impl OverlayWindows {
    /// One round of the loop takes at most one request and applies it, then
    /// hands every pending window message to its window, then pauses. A
    /// request for an unknown device name is passed over. A quit message ends
    /// the loop, and so does an opacity that could not be set.
    pub open spec fn next_action(&self, event: OverlayEvent) -> OverlayAction {
        match event {
            OverlayEvent::Tick => OverlayAction::TryReceive,
            OverlayEvent::Received(Some(message)) => match self.window_of(message.device_name@) {
                Some(window) => OverlayAction::SetAlpha { window, alpha: message.level },
                None => OverlayAction::Peek,
            },
            OverlayEvent::Received(None) => OverlayAction::Peek,
            OverlayEvent::AlphaSet(done) => if done {
                OverlayAction::Peek
            } else {
                OverlayAction::Stop { failed: true }
            },
            OverlayEvent::Peeked(Some(message)) => if message == WM_QUIT {
                OverlayAction::Stop { failed: false }
            } else {
                OverlayAction::Dispatch(message)
            },
            OverlayEvent::Peeked(None) => OverlayAction::Sleep(OVERLAY_TICK_MILLIS),
            OverlayEvent::Dispatched => OverlayAction::Peek,
        }
    }

    /// The next action of the overlay loop after `event`.
    pub fn overlay_step(&self, event: &OverlayEvent) -> (action: OverlayAction)
        requires
            self.well_formed(),
        ensures
            action == self.next_action(*event),
    {
        match event {
            OverlayEvent::Tick => OverlayAction::TryReceive,
            OverlayEvent::Received(Some(message)) => match self.apply(message) {
                Some((window, alpha)) => OverlayAction::SetAlpha { window, alpha },
                None => OverlayAction::Peek,
            },
            OverlayEvent::Received(None) => OverlayAction::Peek,
            OverlayEvent::AlphaSet(done) => if *done {
                OverlayAction::Peek
            } else {
                OverlayAction::Stop { failed: true }
            },
            OverlayEvent::Peeked(Some(message)) => if *message == WM_QUIT {
                OverlayAction::Stop { failed: false }
            } else {
                OverlayAction::Dispatch(*message)
            },
            OverlayEvent::Peeked(None) => OverlayAction::Sleep(OVERLAY_TICK_MILLIS),
            OverlayEvent::Dispatched => OverlayAction::Peek,
        }
    }
}

/// Where the overlay window of a screen stands: the screen's left and top
/// edge, its width and its height. `None` for a rectangle whose width or
/// height does not fit the native coordinate type.
pub fn overlay_placement(left: i32, top: i32, right: i32, bottom: i32) -> (placement: Option<
    (i32, i32, i32, i32),
>)
    ensures
        placement == if i32::MIN <= right - left <= i32::MAX && i32::MIN <= bottom - top
            <= i32::MAX {
            Some((left, top, (right - left) as i32, (bottom - top) as i32))
        } else {
            None
        },
{
    let width: i64 = right as i64 - left as i64;
    let height: i64 = bottom as i64 - top as i64;
    if width < -2147483648 || width > 2147483647 || height < -2147483648 || height > 2147483647 {
        None
    } else {
        Some((left, top, width as i32, height as i32))
    }
}

/// What a window does with a message: it paints itself black when asked to
/// repaint (`true`), and leaves every other message to the default handling.
pub fn wnd_proc(message: u32) -> (paint: bool)
    ensures
        paint == (message == WM_PAINT),
{
    message == WM_PAINT
}

} // verus!
