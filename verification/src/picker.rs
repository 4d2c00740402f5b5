//! The decisions of the screen colour picker: what a click or a key does to a
//! picking session, which pixel of a capture is the one under the reticle,
//! and which overlay windows need redrawing.
//!
//! Screen capture, drawing and the event loop stay with the platform code,
//! which hands the events in and performs what comes back.

use vstd::prelude::*;
use crate::color::Rgb;

verus! {

/// The default number of screen pixels across the magnifier.
pub const CAPTURED_PIXELS: u32 = 11;

/// The smallest number of captured pixels.
pub const CAPTURED_PIXELS_MIN: u32 = 9;

/// The largest number of captured pixels.
pub const CAPTURED_PIXELS_MAX: u32 = 21;

/// The step by which the number of captured pixels changes.
pub const CAPTURED_PIXELS_STEP: u32 = 2;

/// Pixels moved by an arrow key with Shift held.
pub const SHIFT_MOVE_PIXELS: i32 = 50;

/// The outcome of a picking session.
#[derive(PartialEq, Eq, Debug, Clone, Copy)]
pub struct ColorPickerResult {
    pub foreground: Option<Rgb>,
    pub background: Option<Rgb>,
    pub continue_mode: bool,
}

/// What the platform code sees of a session.
pub struct PickerState {
    /// Picking the foreground colour (else the background one).
    pub fg_mode: bool,
    /// Continue mode: a first click picks one colour and switches to the other.
    pub continue_mode: bool,
    pub foreground: Option<Rgb>,
    pub background: Option<Rgb>,
    /// The number of screen pixels across the magnifier.
    pub captured_pixels: u32,
    /// The session is over.
    pub stopped: bool,
}

/// A picking session.
pub struct PickerSession {
    fg_mode: bool,
    continue_mode: bool,
    foreground: Option<Rgb>,
    background: Option<Rgb>,
    captured_pixels: u32,
    stopped: bool,
}

impl View for PickerSession {
    type V = PickerState;

    closed spec fn view(&self) -> PickerState {
        PickerState {
            fg_mode: self.fg_mode,
            continue_mode: self.continue_mode,
            foreground: self.foreground,
            background: self.background,
            captured_pixels: self.captured_pixels,
            stopped: self.stopped,
        }
    }
}

/// The numbers of captured pixels that a session can have: odd, from the
/// minimum to the maximum, so that the magnifier has one centre pixel.
pub open spec fn valid_captured_pixels(p: u32) -> bool {
    CAPTURED_PIXELS_MIN <= p <= CAPTURED_PIXELS_MAX && p % 2 == 1
}

/// The state after a colour is picked: stored as the foreground or the
/// background colour, by the current mode; nothing stored without a colour.
pub open spec fn with_pick(s: PickerState, hovered: Option<Rgb>) -> PickerState {
    match hovered {
        Some(c) => if s.fg_mode {
            PickerState { foreground: Some(c), ..s }
        } else {
            PickerState { background: Some(c), ..s }
        },
        None => s,
    }
}

/// A mouse click: picks the hovered colour for the current mode; then, in
/// continue mode and while the other colour has not been picked yet, switches
/// to the other colour, and otherwise ends the session.
pub open spec fn spec_mouse_down(s: PickerState, hovered: Option<Rgb>) -> PickerState {
    let picked = with_pick(s, hovered);
    let already_toggled = if s.fg_mode {
        s.background is Some
    } else {
        s.foreground is Some
    };
    if s.continue_mode && !already_toggled {
        PickerState { fg_mode: !s.fg_mode, ..picked }
    } else {
        PickerState { stopped: true, ..picked }
    }
}

/// Enter: picks the hovered colour for the current mode and ends the session.
pub open spec fn spec_confirm(s: PickerState, hovered: Option<Rgb>) -> PickerState {
    PickerState { stopped: true, ..with_pick(s, hovered) }
}

/// Escape: ends the session with neither colour picked.
pub open spec fn spec_cancel(s: PickerState) -> PickerState {
    PickerState { foreground: None, background: None, stopped: true, ..s }
}

/// One more step of captured pixels, up to the maximum.
pub open spec fn spec_grow_capture(s: PickerState) -> PickerState {
    PickerState {
        captured_pixels: if s.captured_pixels + CAPTURED_PIXELS_STEP <= CAPTURED_PIXELS_MAX {
            (s.captured_pixels + CAPTURED_PIXELS_STEP) as u32
        } else {
            CAPTURED_PIXELS_MAX
        },
        ..s
    }
}

/// One step fewer of captured pixels, down to the minimum.
pub open spec fn spec_shrink_capture(s: PickerState) -> PickerState {
    PickerState {
        captured_pixels: if s.captured_pixels - CAPTURED_PIXELS_STEP >= CAPTURED_PIXELS_MIN {
            (s.captured_pixels - CAPTURED_PIXELS_STEP) as u32
        } else {
            CAPTURED_PIXELS_MIN
        },
        ..s
    }
}

impl PickerSession {
    #[verifier::type_invariant]
    closed spec fn inv(self) -> bool {
        valid_captured_pixels(self.captured_pixels)
    }

    /// Starts a session, picking the foreground colour first when `fg` holds:
    /// no colour picked, continue mode off, the default number of captured pixels.
    pub fn start(fg: bool) -> (s: PickerSession)
        ensures
            s@ == (PickerState {
                fg_mode: fg,
                continue_mode: false,
                foreground: None,
                background: None,
                captured_pixels: CAPTURED_PIXELS,
                stopped: false,
            }),
    {
        PickerSession {
            fg_mode: fg,
            continue_mode: false,
            foreground: None,
            background: None,
            captured_pixels: CAPTURED_PIXELS,
            stopped: false,
        }
    }

    /// A mouse click: picks the hovered colour for the current mode; then, in
    /// continue mode and while the other colour has not been picked yet,
    /// switches to the other colour, and otherwise ends the session.
    pub fn mouse_down(&mut self, hovered: Option<Rgb>)
        ensures
            final(self)@ == spec_mouse_down(old(self)@, hovered),
    {
        proof {
            use_type_invariant(&*self);
        }
        let already_toggled = if self.fg_mode {
            self.background.is_some()
        } else {
            self.foreground.is_some()
        };
        self.pick(hovered);
        if self.continue_mode && !already_toggled {
            self.fg_mode = !self.fg_mode;
        } else {
            self.stopped = true;
        }
    }

    fn pick(&mut self, hovered: Option<Rgb>)
        ensures
            final(self)@ == with_pick(old(self)@, hovered),
    {
        proof {
            use_type_invariant(&*self);
        }
        match hovered {
            Some(c) => if self.fg_mode {
                self.foreground = Some(c);
            } else {
                self.background = Some(c);
            },
            None => {},
        }
    }

    /// Enter: picks the hovered colour for the current mode and ends the session.
    pub fn confirm(&mut self, hovered: Option<Rgb>)
        ensures
            final(self)@ == spec_confirm(old(self)@, hovered),
    {
        proof {
            use_type_invariant(&*self);
        }
        self.pick(hovered);
        proof {
            use_type_invariant(&*self);
        }
        self.stopped = true;
    }

    /// Escape: cancels the session; neither colour counts as picked.
    pub fn cancel(&mut self)
        ensures
            final(self)@ == spec_cancel(old(self)@),
    {
        proof {
            use_type_invariant(&*self);
        }
        self.foreground = None;
        self.background = None;
        self.stopped = true;
    }

    /// The `C` key: switches continue mode on or off.
    pub fn toggle_continue(&mut self)
        ensures
            final(self)@ == (PickerState { continue_mode: !old(self)@.continue_mode, ..old(self)@ }),
    {
        proof {
            use_type_invariant(&*self);
        }
        self.continue_mode = !self.continue_mode;
    }

    /// One more step of captured pixels, up to the maximum.
    pub fn grow_capture(&mut self)
        ensures
            final(self)@ == spec_grow_capture(old(self)@),
    {
        proof {
            use_type_invariant(&*self);
        }
        let p = self.captured_pixels + CAPTURED_PIXELS_STEP;
        self.captured_pixels = if p <= CAPTURED_PIXELS_MAX {
            p
        } else {
            CAPTURED_PIXELS_MAX
        };
    }

    /// One step fewer of captured pixels, down to the minimum.
    pub fn shrink_capture(&mut self)
        ensures
            final(self)@ == spec_shrink_capture(old(self)@),
    {
        proof {
            use_type_invariant(&*self);
        }
        let p = self.captured_pixels - CAPTURED_PIXELS_STEP;
        self.captured_pixels = if p >= CAPTURED_PIXELS_MIN {
            p
        } else {
            CAPTURED_PIXELS_MIN
        };
    }

    /// Picking the foreground colour (else the background one).
    pub fn fg_mode(&self) -> (b: bool)
        ensures
            b == self@.fg_mode,
    {
        self.fg_mode
    }

    /// Whether continue mode is on.
    pub fn continue_mode(&self) -> (b: bool)
        ensures
            b == self@.continue_mode,
    {
        self.continue_mode
    }

    /// The number of screen pixels across the magnifier.
    pub fn captured_pixels(&self) -> (p: u32)
        ensures
            p == self@.captured_pixels,
            valid_captured_pixels(p),
    {
        proof {
            use_type_invariant(self);
        }
        self.captured_pixels
    }

    /// Whether the session is over.
    pub fn stopped(&self) -> (b: bool)
        ensures
            b == self@.stopped,
    {
        self.stopped
    }

    /// In continue mode, the colour already picked for the other mode, to be
    /// shown on its own half of the magnifier's border: the background colour
    /// on the bottom half while picking the foreground, the foreground colour
    /// on the top half while picking the background. The flag says whether
    /// the arc is the top one.
    pub fn other_colour_arc(&self) -> (arc: Option<(Rgb, bool)>)
        ensures
            arc == (if !self@.continue_mode {
                None
            } else if self@.fg_mode {
                match self@.background {
                    Some(c) => Some((c, false)),
                    None => None,
                }
            } else {
                match self@.foreground {
                    Some(c) => Some((c, true)),
                    None => None,
                }
            }),
    {
        if !self.continue_mode {
            None
        } else if self.fg_mode {
            match self.background {
                Some(c) => Some((c, false)),
                None => None,
            }
        } else {
            match self.foreground {
                Some(c) => Some((c, true)),
                None => None,
            }
        }
    }

    /// The colours picked, and whether continue mode was on.
    pub fn result(&self) -> (r: ColorPickerResult)
        ensures
            r == (ColorPickerResult {
                foreground: self@.foreground,
                background: self@.background,
                continue_mode: self@.continue_mode,
            }),
    {
        ColorPickerResult {
            foreground: self.foreground,
            background: self.background,
            continue_mode: self.continue_mode,
        }
    }
}


// ---------------------------------------------------------------------------
// Keys
// ---------------------------------------------------------------------------

/// What a key press asks of the picker.
#[derive(PartialEq, Eq, Structural, Debug, Clone, Copy)]
pub enum KeyAction {
    /// Escape: end the session.
    Cancel,
    /// Enter: pick the hovered colour and end the session.
    Confirm,
    /// `C`: switch continue mode.
    ToggleContinue,
    /// `I`: zoom in.
    ZoomIn,
    /// `O`: zoom out.
    ZoomOut,
    /// Shift+`I`: capture more pixels.
    GrowCapture,
    /// Shift+`O`: capture fewer pixels.
    ShrinkCapture,
    /// An arrow: move the cursor by this many screen pixels (y up).
    Move { dx: i32, dy: i32 },
    /// Any other key.
    Nothing,
}

/// The action of the key with macOS virtual key code `key_code`.
pub open spec fn spec_key_action(key_code: u16, shift: bool) -> KeyAction {
    let step: i32 = if shift { SHIFT_MOVE_PIXELS } else { 1 };
    if key_code == 53 {
        KeyAction::Cancel
    } else if key_code == 36 {
        KeyAction::Confirm
    } else if key_code == 8 {
        KeyAction::ToggleContinue
    } else if key_code == 34 {
        if shift { KeyAction::GrowCapture } else { KeyAction::ZoomIn }
    } else if key_code == 31 {
        if shift { KeyAction::ShrinkCapture } else { KeyAction::ZoomOut }
    } else if key_code == 123 {
        KeyAction::Move { dx: (-step) as i32, dy: 0 }
    } else if key_code == 124 {
        KeyAction::Move { dx: step, dy: 0 }
    } else if key_code == 125 {
        KeyAction::Move { dx: 0, dy: (-step) as i32 }
    } else if key_code == 126 {
        KeyAction::Move { dx: 0, dy: step }
    } else {
        KeyAction::Nothing
    }
}

/// Decides what a key press asks: Escape (53), Return (36), `C` (8), `I`
/// (34) and `O` (31), Shift changing `I` and `O` from zoom to capture size,
/// and the arrows (123 to 126), which move one pixel, or fifty with Shift.
pub fn key_action(key_code: u16, shift: bool) -> (a: KeyAction)
    ensures
        a == spec_key_action(key_code, shift),
{
    let step: i32 = if shift { SHIFT_MOVE_PIXELS } else { 1 };
    if key_code == 53 {
        KeyAction::Cancel
    } else if key_code == 36 {
        KeyAction::Confirm
    } else if key_code == 8 {
        KeyAction::ToggleContinue
    } else if key_code == 34 {
        if shift { KeyAction::GrowCapture } else { KeyAction::ZoomIn }
    } else if key_code == 31 {
        if shift { KeyAction::ShrinkCapture } else { KeyAction::ZoomOut }
    } else if key_code == 123 {
        KeyAction::Move { dx: -step, dy: 0 }
    } else if key_code == 124 {
        KeyAction::Move { dx: step, dy: 0 }
    } else if key_code == 125 {
        KeyAction::Move { dx: 0, dy: -step }
    } else if key_code == 126 {
        KeyAction::Move { dx: 0, dy: step }
    } else {
        KeyAction::Nothing
    }
}

// ---------------------------------------------------------------------------
// The pixel under the reticle
// ---------------------------------------------------------------------------

/// The column of the centre pixel of a capture `width` pixels wide, when the
/// magnifier shows `target` pixels across (the capture cropped to its middle).
pub open spec fn center_column(width: int, target: int) -> int {
    let crop = if width > target { (width - target) / 2 } else { 0 };
    let used = if width > target { target } else { width };
    crop + used / 2
}

/// The row, counted from the top, of the centre pixel of a capture `height`
/// pixels high: the magnifier's centre counted from the bottom, turned over.
pub open spec fn center_row(height: int, target: int) -> int {
    let crop = if height > target { (height - target) / 2 } else { 0 };
    let used = if height > target { target } else { height };
    height - crop - (used + 1) / 2
}

/// The byte offset of the centre pixel in the image data.
pub open spec fn center_offset(
    width: int,
    height: int,
    bytes_per_row: int,
    bits_per_pixel: int,
    target: int,
) -> int {
    center_row(height, target) * bytes_per_row + center_column(width, target) * (bits_per_pixel
        / 8)
}

/// The colour of the centre pixel of a capture whose pixels are stored as
/// blue, green, red (and alpha) bytes, or `None` when the data stops short.
pub open spec fn spec_center_pixel(
    data: Seq<u8>,
    width: int,
    height: int,
    bytes_per_row: int,
    bits_per_pixel: int,
    target: int,
) -> Option<Rgb> {
    let offset = center_offset(width, height, bytes_per_row, bits_per_pixel, target);
    if offset + bits_per_pixel / 8 <= data.len() {
        Some((data[offset + 2], data[offset + 1], data[offset]))
    } else {
        None
    }
}

/// The captures whose centre pixel can be read without going past the end
/// of the arithmetic or of the data: the offset and the pixel's end fit in a
/// `usize`, and a pixel that fits in the data has its three colour bytes there.
pub open spec fn center_pixel_readable(
    data_len: int,
    width: int,
    height: int,
    bytes_per_row: int,
    bits_per_pixel: int,
    target: int,
) -> bool {
    let offset = center_offset(width, height, bytes_per_row, bits_per_pixel, target);
    &&& offset + bits_per_pixel / 8 <= usize::MAX
    &&& offset + bits_per_pixel / 8 <= data_len ==> offset + 2 < data_len
}

proof fn lemma_offset_parts(row: int, bytes_per_row: int, column: int, bytes_per_pixel: int)
    requires
        row >= 0,
        column >= 0,
        bytes_per_row >= 0,
        bytes_per_pixel >= 0,
    ensures
        0 <= row * bytes_per_row,
        0 <= column * bytes_per_pixel,
{
    assert(0 <= row * bytes_per_row) by (nonlinear_arith)
        requires
            row >= 0,
            bytes_per_row >= 0,
    ;
    assert(0 <= column * bytes_per_pixel) by (nonlinear_arith)
        requires
            column >= 0,
            bytes_per_pixel >= 0,
    ;
}

/// Whether `center_pixel` can read the capture (see `center_pixel_readable`);
/// the caller tests this first.
pub fn center_pixel_is_readable(
    data_len: usize,
    width: usize,
    height: usize,
    bytes_per_row: usize,
    bits_per_pixel: usize,
    target: usize,
) -> (b: bool)
    ensures
        b == center_pixel_readable(
            data_len as int,
            width as int,
            height as int,
            bytes_per_row as int,
            bits_per_pixel as int,
            target as int,
        ),
{
    let crop_x = if width > target { (width - target) / 2 } else { 0 };
    let used_w = if width > target { target } else { width };
    let column = crop_x + used_w / 2;
    let crop_y = if height > target { (height - target) / 2 } else { 0 };
    let used_h = if height > target { target } else { height };
    let row = height - crop_y - (used_h - used_h / 2);
    let bytes_per_pixel = bits_per_pixel / 8;
    let ghost offset = center_offset(
        width as int,
        height as int,
        bytes_per_row as int,
        bits_per_pixel as int,
        target as int,
    );
    assert(offset == row * bytes_per_row + column * bytes_per_pixel);
    proof {
        lemma_offset_parts(row as int, bytes_per_row as int, column as int, bytes_per_pixel as int);
    }
    let row_bytes = match row.checked_mul(bytes_per_row) {
        Some(x) => x,
        None => return false,
    };
    let column_bytes = match column.checked_mul(bytes_per_pixel) {
        Some(x) => x,
        None => return false,
    };
    let offset_exec = match row_bytes.checked_add(column_bytes) {
        Some(x) => x,
        None => return false,
    };
    let end = match offset_exec.checked_add(bytes_per_pixel) {
        Some(x) => x,
        None => return false,
    };
    !(end <= data_len) || (offset_exec < data_len && data_len - offset_exec > 2)
}

/// Reads the colour of the pixel under the reticle from captured image data
/// (blue, green, red, alpha bytes per pixel), the magnifier showing `target`
/// pixels across.
pub fn center_pixel(
    data: &[u8],
    width: usize,
    height: usize,
    bytes_per_row: usize,
    bits_per_pixel: usize,
    target: usize,
) -> (c: Option<Rgb>)
    requires
        center_pixel_readable(
            data@.len() as int,
            width as int,
            height as int,
            bytes_per_row as int,
            bits_per_pixel as int,
            target as int,
        ),
    ensures
        c == spec_center_pixel(
            data@,
            width as int,
            height as int,
            bytes_per_row as int,
            bits_per_pixel as int,
            target as int,
        ),
{
    let crop_x = if width > target { (width - target) / 2 } else { 0 };
    let used_w = if width > target { target } else { width };
    let column = crop_x + used_w / 2;
    let crop_y = if height > target { (height - target) / 2 } else { 0 };
    let used_h = if height > target { target } else { height };
    assert(crop_y + (used_h as int + 1) / 2 <= height);
    let row = height - crop_y - (used_h - used_h / 2);
    assert(row == center_row(height as int, target as int));
    assert(column == center_column(width as int, target as int));
    let bytes_per_pixel = bits_per_pixel / 8;
    let ghost offset = center_offset(
        width as int,
        height as int,
        bytes_per_row as int,
        bits_per_pixel as int,
        target as int,
    );
    proof {
        lemma_offset_parts(row as int, bytes_per_row as int, column as int, bytes_per_pixel as int);
    }
    let offset_exec = row * bytes_per_row + column * bytes_per_pixel;
    if offset_exec + bytes_per_pixel <= data.len() {
        Some((data[offset_exec + 2], data[offset_exec + 1], data[offset_exec]))
    } else {
        None
    }
}

// ---------------------------------------------------------------------------
// Redrawing
// ---------------------------------------------------------------------------

/// The overlay windows (by screen index) to redraw when the cursor moves from
/// the screen `old` to the screen `new` (`None` where it is on no screen): the
/// one screen when it stays on it, else both, the old one first.
pub open spec fn spec_windows_to_refresh(old: Option<usize>, new: Option<usize>) -> Seq<usize> {
    if old == new {
        match new {
            Some(i) => seq![i],
            None => Seq::empty(),
        }
    } else {
        let first: Seq<usize> = match old {
            Some(i) => seq![i],
            None => Seq::empty(),
        };
        match new {
            Some(i) => first.push(i),
            None => first,
        }
    }
}

/// The screens whose overlay window needs redrawing after the cursor moved.
pub fn windows_to_refresh(old: Option<usize>, new: Option<usize>) -> (w: Vec<usize>)
    ensures
        w@ == spec_windows_to_refresh(old, new),
{
    let mut w: Vec<usize> = Vec::new();
    let same = match (old, new) {
        (Some(a), Some(b)) => a == b,
        (None, None) => true,
        _ => false,
    };
    if !same {
        if let Some(i) = old {
            w.push(i);
        }
    }
    if let Some(i) = new {
        w.push(i);
    }
    assert(w@ =~= spec_windows_to_refresh(old, new));
    w
}

/// Every arrow key moves by one pixel in its own direction, and Shift moves
/// it by `SHIFT_MOVE_PIXELS` pixels the same way: Left is the opposite of
/// Right, which moves along positive x, Down the opposite of Up, which moves
/// along positive y.
pub proof fn law_arrows_move_by_step(shift: bool)
    ensures
        ({
            let n: i32 = if shift { SHIFT_MOVE_PIXELS } else { 1 };
            &&& spec_key_action(124, shift) == KeyAction::Move { dx: n, dy: 0 }
            &&& spec_key_action(123, shift) == KeyAction::Move { dx: (-n) as i32, dy: 0 }
            &&& spec_key_action(126, shift) == KeyAction::Move { dx: 0, dy: n }
            &&& spec_key_action(125, shift) == KeyAction::Move { dx: 0, dy: (-n) as i32 }
        }),
{
}

/// Shift scales each arrow's move: for every arrow key, the move with Shift
/// is the move without it multiplied by `SHIFT_MOVE_PIXELS`.
pub proof fn law_shift_scales_arrows(code: u16)
    requires
        123 <= code <= 126,
    ensures
        match (spec_key_action(code, false), spec_key_action(code, true)) {
            (KeyAction::Move { dx: a, dy: b }, KeyAction::Move { dx: c, dy: d }) => {
                &&& c == SHIFT_MOVE_PIXELS * a
                &&& d == SHIFT_MOVE_PIXELS * b
                &&& (a == 0) != (b == 0)
            },
            _ => false,
        },
{
    law_arrows_move_by_step(false);
    law_arrows_move_by_step(true);
}

/// Shift changes only `I`, `O` and the arrows: every other key does the same
/// with and without it; `I` and `O` change from zoom to capture size.
pub proof fn law_shift_changes_only_zoom_keys_and_arrows(code: u16)
    ensures
        code != 31 && code != 34 && !(123 <= code <= 126) ==> spec_key_action(code, true)
            == spec_key_action(code, false),
        spec_key_action(34, false) == KeyAction::ZoomIn,
        spec_key_action(34, true) == KeyAction::GrowCapture,
        spec_key_action(31, false) == KeyAction::ZoomOut,
        spec_key_action(31, true) == KeyAction::ShrinkCapture,
{
}

/// The windows to redraw are those of the screen left and of the screen
/// reached, each once, the one left first.
pub proof fn law_refresh_left_and_reached(old: Option<usize>, new: Option<usize>)
    ensures
        forall|i: usize| spec_windows_to_refresh(old, new).contains(i) <==> (old == Some(i) || new
            == Some(i)),
        spec_windows_to_refresh(old, new).no_duplicates(),
        forall|a: usize, b: usize|
            old == Some(a) && new == Some(b) && a != b ==> spec_windows_to_refresh(old, new) == seq![
                a,
                b,
            ],
{
    let w = spec_windows_to_refresh(old, new);
    assert forall|i: usize| w.contains(i) <==> (old == Some(i) || new == Some(i)) by {
        if old == Some(i) && old != new {
            assert(w[0] == i);
        }
        if new == Some(i) {
            assert(w[w.len() - 1] == i);
        }
    }
    match (old, new) {
        (Some(a), Some(b)) => {
            if a != b {
                assert(w =~= seq![a, b]);
            }
        },
        _ => {},
    }
}

/// For an odd magnifier width `target` and a capture at least that large, the
/// reticle pixel is the middle one of the centred `target` x `target` window:
/// as many pixels of the window left of it as right of it, and as many below
/// as above.
pub proof fn law_center_is_middle_of_window(width: int, height: int, target: int)
    requires
        target > 0,
        target % 2 == 1,
        width >= target,
        height >= target,
    ensures
        ({
            let crop_x = (width - target) / 2;
            let crop_y = (height - target) / 2;
            let col = center_column(width, target);
            let from_bottom = height - 1 - center_row(height, target);
            &&& col - crop_x == crop_x + target - 1 - col
            &&& from_bottom - crop_y == crop_y + target - 1 - from_bottom
        }),
{
}

/// The colour of the centre pixel is read from blue, green, red bytes: red
/// is the pixel's third byte, green its second, blue its first.
pub proof fn law_center_pixel_bgr(
    data: Seq<u8>,
    width: int,
    height: int,
    bytes_per_row: int,
    bits_per_pixel: int,
    target: int,
)
    ensures
        ({
            let o = center_offset(width, height, bytes_per_row, bits_per_pixel, target);
            forall|c: Rgb|
                spec_center_pixel(data, width, height, bytes_per_row, bits_per_pixel, target)
                    == Some(c) ==> c.0 == data[o + 2] && c.1 == data[o + 1] && c.2 == data[o]
        }),
{
}

/// Outside continue mode, the first click ends the session with the hovered
/// colour picked for the current mode.
pub proof fn law_click_ends_session(s: PickerState, hovered: Rgb)
    requires
        !s.continue_mode,
    ensures
        spec_mouse_down(s, Some(hovered)).stopped,
        s.fg_mode ==> spec_mouse_down(s, Some(hovered)).foreground == Some(hovered),
        s.fg_mode ==> spec_mouse_down(s, Some(hovered)).background == s.background,
        !s.fg_mode ==> spec_mouse_down(s, Some(hovered)).background == Some(hovered),
        !s.fg_mode ==> spec_mouse_down(s, Some(hovered)).foreground == s.foreground,
        spec_mouse_down(s, Some(hovered)).fg_mode == s.fg_mode,
        spec_mouse_down(s, Some(hovered)).continue_mode == s.continue_mode,
        spec_mouse_down(s, Some(hovered)).captured_pixels == s.captured_pixels,
{
}

/// Enter picks the hovered colour into the slot of the current mode (the
/// foreground while picking the foreground, the background otherwise),
/// leaves the other slot, the modes and the capture size as they were, and
/// ends the session; with no colour under the reticle it picks nothing.
/// Outside continue mode it does what a click does.
pub proof fn law_confirm_picks_for_current_mode(s: PickerState, hovered: Option<Rgb>)
    ensures
        spec_confirm(s, hovered).stopped,
        spec_confirm(s, hovered).fg_mode == s.fg_mode,
        spec_confirm(s, hovered).continue_mode == s.continue_mode,
        spec_confirm(s, hovered).captured_pixels == s.captured_pixels,
        hovered is None ==> spec_confirm(s, hovered).foreground == s.foreground
            && spec_confirm(s, hovered).background == s.background,
        forall|c: Rgb|
            hovered == Some(c) && s.fg_mode ==> spec_confirm(s, hovered).foreground == Some(c)
                && spec_confirm(s, hovered).background == s.background,
        forall|c: Rgb|
            hovered == Some(c) && !s.fg_mode ==> spec_confirm(s, hovered).background == Some(c)
                && spec_confirm(s, hovered).foreground == s.foreground,
        !s.continue_mode ==> spec_confirm(s, hovered) == spec_mouse_down(s, hovered),
{
}

/// In continue mode with nothing picked yet, the first click picks the colour
/// of the current mode and switches to the other one; the second click picks
/// that other colour and ends the session, with both colours picked.
pub proof fn law_continue_mode_picks_both(s: PickerState, first: Rgb, second: Rgb)
    requires
        s.continue_mode,
        s.foreground is None,
        s.background is None,
        !s.stopped,
    ensures
        !spec_mouse_down(s, Some(first)).stopped,
        spec_mouse_down(s, Some(first)).fg_mode == !s.fg_mode,
        ({
            let end = spec_mouse_down(spec_mouse_down(s, Some(first)), Some(second));
            &&& end.stopped
            &&& end.foreground == Some(if s.fg_mode { first } else { second })
            &&& end.background == Some(if s.fg_mode { second } else { first })
        }),
{
}

/// A cancelled session has picked nothing.
pub proof fn law_cancel_picks_nothing(s: PickerState)
    ensures
        spec_cancel(s).foreground is None,
        spec_cancel(s).background is None,
        spec_cancel(s).stopped,
{
}

/// Shrinking the capture undoes growing it, short of the maximum, and growing
/// undoes shrinking, short of the minimum.
pub proof fn law_grow_shrink_undo(s: PickerState)
    requires
        valid_captured_pixels(s.captured_pixels),
    ensures
        s.captured_pixels < CAPTURED_PIXELS_MAX ==> spec_shrink_capture(spec_grow_capture(s)) == s,
        s.captured_pixels > CAPTURED_PIXELS_MIN ==> spec_grow_capture(spec_shrink_capture(s)) == s,
        valid_captured_pixels(spec_grow_capture(s).captured_pixels),
        valid_captured_pixels(spec_shrink_capture(s).captured_pixels),
{
}

} // verus!
