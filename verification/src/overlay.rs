//! The selection overlay: what each frame of the overlay window does, given
//! what the window remembers and what happened since the last frame; the
//! reactions to the global hotkey and to the tray menu; and how a finished
//! selection is cut out of the frozen desktop.

use vstd::prelude::*;
use crate::imaging::{RgbaBuffer, crop_len, crop_rgba, crop_start, is_crop_of};
use crate::text::str_equal;

verus! {

/// After this many milliseconds an open overlay closes by itself.
pub const OVERLAY_TIMEOUT_MS: u64 = 30_000;

/// What the overlay window remembers from one frame to the next. `P` is
/// the type of a pointer position; positions are only stored and handed
/// back, never computed on.
#[derive(Clone, Copy, Debug)]
pub struct OverlayState<P> {
    /// The first frame (tray icon set-up) has run.
    pub initialized: bool,
    /// The settings panel was shown in the previous frame.
    pub was_settings_open: bool,
    /// The selection overlay was shown in the previous frame.
    pub was_active: bool,
    /// When (in milliseconds) the overlay was last brought up.
    pub activated_at: Option<u64>,
    /// Where the primary button was pressed.
    pub start_pos: Option<P>,
    /// Where the pointer was while the primary button was last held.
    pub current_pos: Option<P>,
}

/// What a frame sees: the two request flags that the background thread
/// sets, the time, and the pointer and keyboard input of the frame.
#[derive(Clone, Copy, Debug)]
pub struct FrameInput<P> {
    /// The hotkey asked for the overlay (and no dismissal has cleared it).
    pub overlay_requested: bool,
    /// The tray menu asked for the settings panel.
    pub settings_requested: bool,
    /// Monotonic time in milliseconds.
    pub now_ms: u64,
    /// Escape was pressed or the secondary button was clicked.
    pub cancel: bool,
    pub primary_pressed: bool,
    pub primary_down: bool,
    pub primary_released: bool,
    /// The pointer's position, if it is over the window.
    pub pointer: Option<P>,
}

/// What a frame does, in this order: set up the tray icon and hide the
/// window (first frame only); or show the settings panel (placing the window
/// for it first when `open_settings`); otherwise hide the window after the
/// settings panel closed, bring the overlay up (capture the desktop, cover
/// it with the window, show it) or hide it, paint the frozen desktop, dim it
/// with the outline of the current selection, and finally, when the button
/// is let go, hand the box that was dragged on (see `prepare_ocr_input`, which
/// cancels a box without area) and dismiss the overlay.
#[derive(Clone, Copy, Debug)]
pub struct FrameOutput<P> {
    pub init_tray: bool,
    pub open_settings: bool,
    pub show_settings: bool,
    pub close_settings: bool,
    pub activate: bool,
    pub deactivate: bool,
    pub paint_frozen: bool,
    pub paint_dim: bool,
    /// The corners of the selection rectangle to outline.
    pub outline: Option<(P, P)>,
    /// The corners of the box when the button is let go. The corners are
    /// window coordinates; the box is measured in physical pixels by the
    /// caller, and a box without area (letting go without dragging) is then
    /// dropped by `crop_selection` / `prepare_ocr_input`, so that it only
    /// cancels.
    pub finished_box: Option<(P, P)>,
    /// Clear the overlay request, drop the frozen desktop and hide the window.
    pub dismiss: bool,
}

/// A frame that does nothing.
pub open spec fn quiet_output<P>() -> FrameOutput<P> {
    FrameOutput {
        init_tray: false,
        open_settings: false,
        show_settings: false,
        close_settings: false,
        activate: false,
        deactivate: false,
        paint_frozen: false,
        paint_dim: false,
        outline: None,
        finished_box: None,
        dismiss: false,
    }
}

/// Both corners, when both are known.
pub open spec fn corners<P>(a: Option<P>, b: Option<P>) -> Option<(P, P)> {
    match (a, b) {
        (Some(p), Some(q)) => Some((p, q)),
        _ => None,
    }
}

impl<P> OverlayState<P> {
    /// The state before the first frame.
    pub open spec fn initial() -> Self {
        OverlayState {
            initialized: false,
            was_settings_open: false,
            was_active: false,
            activated_at: None,
            start_pos: None,
            current_pos: None,
        }
    }

    /// The state after the overlay is dismissed: no selection, not active,
    /// no running timer.
    pub open spec fn dismissed(self) -> Self {
        OverlayState {
            was_active: false,
            activated_at: None,
            start_pos: None,
            current_pos: None,
            ..self
        }
    }

    /// The overlay has been up for at least `OVERLAY_TIMEOUT_MS`.
    pub open spec fn timed_out(self, now_ms: u64) -> bool {
        match self.activated_at {
            Some(t) => now_ms >= t && now_ms - t >= OVERLAY_TIMEOUT_MS,
            None => false,
        }
    }

    /// The state after the frame's pointer input: a press records the start
    /// corner, a held button the current corner.
    pub open spec fn with_pointer(self, i: FrameInput<P>) -> Self {
        OverlayState {
            start_pos: if i.primary_pressed {
                i.pointer
            } else {
                self.start_pos
            },
            current_pos: if i.primary_down {
                i.pointer
            } else {
                self.current_pos
            },
            ..self
        }
    }

    /// The overlay is shown only with a running timer.
    pub open spec fn inv(self) -> bool {
        self.was_active ==> self.activated_at is Some
    }
}

/// The state after a frame and what the frame does.
pub open spec fn frame_result<P>(s: OverlayState<P>, i: FrameInput<P>) -> (
    OverlayState<P>,
    FrameOutput<P>,
) {
    if !s.initialized {
        (OverlayState { initialized: true, ..s }, FrameOutput { init_tray: true, ..quiet_output() })
    } else if i.settings_requested {
        (
            OverlayState { was_settings_open: true, ..s },
            FrameOutput {
                open_settings: !s.was_settings_open,
                show_settings: true,
                ..quiet_output()
            },
        )
    } else {
        let activate = i.overlay_requested && !s.was_active;
        let s1 = OverlayState {
            was_settings_open: false,
            was_active: i.overlay_requested,
            activated_at: if activate {
                Some(i.now_ms)
            } else {
                s.activated_at
            },
            ..s
        };
        let base = FrameOutput {
            close_settings: s.was_settings_open,
            activate,
            deactivate: !i.overlay_requested && s.was_active,
            ..quiet_output()
        };
        if !i.overlay_requested {
            (s1, base)
        } else if s1.timed_out(i.now_ms) {
            (s1.dismissed(), FrameOutput { dismiss: true, ..base })
        } else if i.cancel {
            (s1.dismissed(), FrameOutput { paint_frozen: true, dismiss: true, ..base })
        } else {
            let s2 = s1.with_pointer(i);
            let painted = FrameOutput {
                paint_frozen: true,
                paint_dim: true,
                outline: corners(s1.start_pos, s1.current_pos),
                ..base
            };
            let finished = corners(s2.start_pos, s2.current_pos);
            if i.primary_released && finished is Some {
                (s2.dismissed(), FrameOutput { finished_box: finished, dismiss: true, ..painted })
            } else {
                (s2, painted)
            }
        }
    }
}

impl<P: Copy> OverlayState<P> {
    /// The state before the first frame.
    pub fn new() -> (r: Self)
        ensures
            r == Self::initial(),
    {
        OverlayState {
            initialized: false,
            was_settings_open: false,
            was_active: false,
            activated_at: None,
            start_pos: None,
            current_pos: None,
        }
    }

    /// Dismisses the overlay: drops the selection, marks the overlay
    /// inactive and stops its timer.
    pub fn dismiss(&mut self)
        ensures
            *final(self) == old(self).dismissed(),
    {
        self.was_active = false;
        self.activated_at = None;
        self.start_pos = None;
        self.current_pos = None;
    }

    /// Runs the decisions of one frame: updates the state and returns what
    /// the frame must do.
    pub fn on_frame(&mut self, input: &FrameInput<P>) -> (r: FrameOutput<P>)
        ensures
            (*final(self), r) == frame_result(*old(self), *input),
            old(self).initialized && !input.settings_requested && input.overlay_requested
                && !input.cancel && (old(self).was_active ==> (old(self).activated_at matches Some(t)
                ==> input.now_ms < t + OVERLAY_TIMEOUT_MS)) ==> {
                &&& r.paint_frozen
                &&& r.paint_dim
                &&& r.outline == match (old(self).start_pos, old(self).current_pos) {
                    (Some(p), Some(q)) => Some((p, q)),
                    _ => None,
                }
            },
    {
        proof {
            if old(self).initialized && !input.settings_requested && input.overlay_requested
                && !input.cancel {
                if old(self).was_active ==> (old(self).activated_at matches Some(t) ==> input.now_ms < t
                    + OVERLAY_TIMEOUT_MS) {
                    lemma_active_frame_paints_selection(*old(self), *input);
                }
            }
        }
        let mut out = FrameOutput {
            init_tray: false,
            open_settings: false,
            show_settings: false,
            close_settings: false,
            activate: false,
            deactivate: false,
            paint_frozen: false,
            paint_dim: false,
            outline: None,
            finished_box: None,
            dismiss: false,
        };
        if !self.initialized {
            self.initialized = true;
            out.init_tray = true;
            return out;
        }
        if input.settings_requested {
            out.open_settings = !self.was_settings_open;
            out.show_settings = true;
            self.was_settings_open = true;
            return out;
        }
        if self.was_settings_open {
            out.close_settings = true;
            self.was_settings_open = false;
        }
        let requested = input.overlay_requested;
        if requested && !self.was_active {
            self.was_active = true;
            self.activated_at = Some(input.now_ms);
            out.activate = true;
        } else if !requested && self.was_active {
            self.was_active = false;
            out.deactivate = true;
        }
        if !requested {
            return out;
        }
        if let Some(t) = self.activated_at {
            if input.now_ms >= t && input.now_ms - t >= OVERLAY_TIMEOUT_MS {
                self.dismiss();
                out.dismiss = true;
                return out;
            }
        }
        out.paint_frozen = true;
        if input.cancel {
            self.dismiss();
            out.dismiss = true;
            return out;
        }
        out.paint_dim = true;
        out.outline = match (self.start_pos, self.current_pos) {
            (Some(p), Some(q)) => Some((p, q)),
            _ => None,
        };
        if input.primary_pressed {
            self.start_pos = input.pointer;
        }
        if input.primary_down {
            self.current_pos = input.pointer;
        }
        if input.primary_released {
            match (self.start_pos, self.current_pos) {
                (Some(p), Some(q)) => {
                    out.finished_box = Some((p, q));
                    self.dismiss();
                    out.dismiss = true;
                },
                _ => {},
            }
        }
        out
    }
}

/// Letting go of a dragged box always closes the overlay and resets it: it only
/// comes on a release of the primary button while the overlay is up and
/// not cancelled, and its corners are where the button went down and where
/// the pointer was while it was held.
pub proof fn lemma_selection_closes_overlay<P>(s: OverlayState<P>, i: FrameInput<P>)
    requires
        frame_result(s, i).1.finished_box is Some,
    ensures
        ({
            let (next, out) = frame_result(s, i);
            &&& out.dismiss
            &&& out.paint_frozen
            &&& next.start_pos is None
            &&& next.current_pos is None
            &&& !next.was_active
            &&& next.activated_at is None
            &&& s.initialized
            &&& !i.settings_requested
            &&& i.overlay_requested
            &&& !i.cancel
            &&& i.primary_released
            &&& out.finished_box == corners(
                if i.primary_pressed {
                    i.pointer
                } else {
                    s.start_pos
                },
                if i.primary_down {
                    i.pointer
                } else {
                    s.current_pos
                },
            )
        }),
{
}

/// Every frame of an overlay that is up, has not timed out and is not
/// cancelled paints the frozen desktop dimmed and outlines the selection
/// made so far (the corners stored before the frame); it closes the overlay
/// exactly when it hands over a finished box, and otherwise keeps the
/// overlay up with the corners updated from the pointer.
pub proof fn lemma_active_frame_paints_selection<P>(s: OverlayState<P>, i: FrameInput<P>)
    requires
        s.initialized,
        !i.settings_requested,
        i.overlay_requested,
        !i.cancel,
        s.was_active ==> (s.activated_at matches Some(t) ==> i.now_ms < t + OVERLAY_TIMEOUT_MS),
    ensures
        ({
            let (next, out) = frame_result(s, i);
            &&& out.paint_frozen
            &&& out.paint_dim
            &&& out.outline == match (s.start_pos, s.current_pos) {
                (Some(p), Some(q)) => Some((p, q)),
                _ => None,
            }
            &&& out.dismiss <==> out.finished_box is Some
            &&& out.finished_box is None ==> {
                &&& next.was_active
                &&& next.start_pos == if i.primary_pressed {
                    i.pointer
                } else {
                    s.start_pos
                }
                &&& next.current_pos == if i.primary_down {
                    i.pointer
                } else {
                    s.current_pos
                }
            }
        }),
{
}

/// Escape or a right-click while the overlay is up dismisses it without
/// recognising anything, and forgets the selection.
pub proof fn lemma_cancel_discards_selection<P>(s: OverlayState<P>, i: FrameInput<P>)
    requires
        s.initialized,
        !i.settings_requested,
        i.overlay_requested,
        i.cancel,
    ensures
        ({
            let (next, out) = frame_result(s, i);
            &&& out.finished_box is None
            &&& out.dismiss
            &&& next.start_pos is None
            &&& next.current_pos is None
            &&& !next.was_active
        }),
{
}

/// An overlay left open for `OVERLAY_TIMEOUT_MS` is dismissed without
/// recognising anything and without being painted.
pub proof fn lemma_overlay_times_out<P>(s: OverlayState<P>, i: FrameInput<P>, t: u64)
    requires
        s.initialized,
        !i.settings_requested,
        i.overlay_requested,
        s.was_active,
        s.activated_at == Some(t),
        i.now_ms >= t + OVERLAY_TIMEOUT_MS,
    ensures
        ({
            let (next, out) = frame_result(s, i);
            &&& out.dismiss
            &&& out.finished_box is None
            &&& !out.paint_frozen
            &&& !next.was_active
            &&& next.activated_at is None
        }),
{
}

/// Bringing the overlay up starts its timer at the current time, and the
/// overlay is then painted; in that frame it only closes again when it is
/// cancelled or the button is let go over a box.
pub proof fn lemma_activation_starts_timer<P>(s: OverlayState<P>, i: FrameInput<P>)
    requires
        s.initialized,
        !i.settings_requested,
        i.overlay_requested,
        !s.was_active,
    ensures
        ({
            let (next, out) = frame_result(s, i);
            &&& out.activate
            &&& out.paint_frozen
            &&& out.dismiss ==> (i.cancel || out.finished_box is Some)
            &&& !out.dismiss ==> next.was_active && next.activated_at == Some(i.now_ms)
        }),
{
}

/// While the overlay is up, a frame never brings it up again: the desktop
/// is captured once per activation.
pub proof fn lemma_no_recapture_while_active<P>(s: OverlayState<P>, i: FrameInput<P>)
    requires
        s.was_active,
    ensures
        !frame_result(s, i).1.activate,
{
}

/// Without a request for the overlay or the settings, a frame paints
/// nothing, recognises nothing and leaves the overlay down.
pub proof fn lemma_idle_frame<P>(s: OverlayState<P>, i: FrameInput<P>)
    requires
        s.initialized,
        !i.settings_requested,
        !i.overlay_requested,
    ensures
        ({
            let (next, out) = frame_result(s, i);
            &&& !out.paint_frozen
            &&& !out.paint_dim
            &&& !out.activate
            &&& !out.dismiss
            &&& out.finished_box is None
            &&& !next.was_active
            &&& out.deactivate == s.was_active
        }),
{
}

/// While the settings panel is shown the overlay state is left alone: no
/// activation, no selection, the stored corners and timer are kept; the
/// window is placed for the panel only on its first frame.
pub proof fn lemma_settings_frame_keeps_overlay<P>(s: OverlayState<P>, i: FrameInput<P>)
    requires
        s.initialized,
        i.settings_requested,
    ensures
        ({
            let (next, out) = frame_result(s, i);
            &&& out.show_settings
            &&& out.open_settings == !s.was_settings_open
            &&& !out.activate
            &&& !out.paint_frozen
            &&& out.finished_box is None
            &&& next.was_active == s.was_active
            &&& next.activated_at == s.activated_at
            &&& next.start_pos == s.start_pos
            &&& next.current_pos == s.current_pos
            &&& next.was_settings_open
        }),
{
}

/// Every frame keeps the invariant that a shown overlay has a running
/// timer, and the initial state has it.
pub proof fn lemma_frame_keeps_invariant<P>(s: OverlayState<P>, i: FrameInput<P>)
    requires
        s.inv(),
    ensures
        frame_result(s, i).0.inv(),
        OverlayState::<P>::initial().inv(),
{
}

/// Whether a hotkey event should bring the overlay up (and wake the
/// window): only a key press, and only when the overlay is not already up.
pub fn hotkey_raises_overlay(pressed: bool, overlay_active: bool) -> (r: bool)
    ensures
        r == (pressed && !overlay_active),
{
    pressed && !overlay_active
}

/// The entries of the tray menu.
#[derive(Clone, Copy, Debug, PartialEq, Eq, Structural)]
pub enum TrayCommand {
    ChangeShortcut,
    Exit,
}

/// The menu identifier of a tray entry.
pub open spec fn menu_id_of(c: TrayCommand) -> Seq<char> {
    match c {
        TrayCommand::ChangeShortcut => "change_shortcut"@,
        TrayCommand::Exit => "exit"@,
    }
}

impl TrayCommand {
    /// The entries, in menu order.
    pub fn all() -> (r: Vec<TrayCommand>)
        ensures
            r@ == seq![TrayCommand::ChangeShortcut, TrayCommand::Exit],
    {
        let mut v: Vec<TrayCommand> = Vec::new();
        v.push(TrayCommand::ChangeShortcut);
        v.push(TrayCommand::Exit);
        v
    }

    /// The identifier the menu item is created with.
    pub fn menu_id(&self) -> (r: &'static str)
        ensures
            r@ == menu_id_of(*self),
    {
        match self {
            TrayCommand::ChangeShortcut => "change_shortcut",
            TrayCommand::Exit => "exit",
        }
    }

    /// The text of the menu item.
    pub fn label(&self) -> (r: &'static str)
        ensures
            r@ == match *self {
                TrayCommand::ChangeShortcut => "Change Shortcut"@,
                TrayCommand::Exit => "Exit"@,
            },
    {
        match self {
            TrayCommand::ChangeShortcut => "Change Shortcut",
            TrayCommand::Exit => "Exit",
        }
    }

    /// The entry a menu event with identifier `id` came from; `None` for an
    /// identifier that is not one of ours.
    pub fn from_menu_id(id: &str) -> (r: Option<TrayCommand>)
        ensures
            r == (if id@ == menu_id_of(TrayCommand::Exit) {
                Some(TrayCommand::Exit)
            } else if id@ == menu_id_of(TrayCommand::ChangeShortcut) {
                Some(TrayCommand::ChangeShortcut)
            } else {
                None
            }),
    {
        if str_equal(id, TrayCommand::Exit.menu_id()) {
            Some(TrayCommand::Exit)
        } else if str_equal(id, TrayCommand::ChangeShortcut.menu_id()) {
            Some(TrayCommand::ChangeShortcut)
        } else {
            None
        }
    }
}

/// A menu event is recognised as the entry whose identifier it carries.
pub proof fn lemma_menu_id_round_trip(c: TrayCommand)
    ensures
        (if menu_id_of(c) == menu_id_of(TrayCommand::Exit) {
            Some(TrayCommand::Exit)
        } else if menu_id_of(c) == menu_id_of(TrayCommand::ChangeShortcut) {
            Some(TrayCommand::ChangeShortcut)
        } else {
            None
        }) == Some(c),
{
    reveal_strlit("exit");
    reveal_strlit("change_shortcut");
    assert("exit"@.len() != "change_shortcut"@.len());
}

/// A rectangle of pixels inside an image.
#[derive(Clone, Copy, Debug, PartialEq, Eq, Structural)]
pub struct CropRect {
    pub x: u32,
    pub y: u32,
    pub width: u32,
    pub height: u32,
}

/// The smaller of `a` and `b`.
pub open spec fn min_u32(a: u32, b: u32) -> u32 {
    if a <= b {
        a
    } else {
        b
    }
}

/// The part of a `pw` by `ph` selection at (`px`, `py`) that is cut out of
/// an image of `img_w` by `img_h`. A selection without area (a click
/// without a drag, or a drag along one line) selects nothing. Otherwise the
/// corner is moved onto the last row or column when it lies beyond them,
/// and the size is cut at the image's edge; `None` when nothing is left.
pub open spec fn clamped_selection(px: u32, py: u32, pw: u32, ph: u32, img_w: u32, img_h: u32) -> Option<
    CropRect,
> {
    let cx = min_u32(px, if img_w > 0 { (img_w - 1) as u32 } else { 0 });
    let cy = min_u32(py, if img_h > 0 { (img_h - 1) as u32 } else { 0 });
    let cw = min_u32(pw, (img_w - cx) as u32);
    let ch = min_u32(ph, (img_h - cy) as u32);
    if cw == 0 || ch == 0 {
        None
    } else {
        Some(CropRect { x: cx, y: cy, width: cw, height: ch })
    }
}

/// Fits a selection given in physical pixels into an image of `img_w` by
/// `img_h` (see `clamped_selection`).
pub fn clamp_selection(px: u32, py: u32, pw: u32, ph: u32, img_w: u32, img_h: u32) -> (r: Option<
    CropRect,
>)
    ensures
        r == clamped_selection(px, py, pw, ph, img_w, img_h),
{
    let last_x = img_w.saturating_sub(1);
    let last_y = img_h.saturating_sub(1);
    let cx = if px <= last_x {
        px
    } else {
        last_x
    };
    let cy = if py <= last_y {
        py
    } else {
        last_y
    };
    let cw = if pw <= img_w - cx {
        pw
    } else {
        img_w - cx
    };
    let ch = if ph <= img_h - cy {
        ph
    } else {
        img_h - cy
    };
    if cw == 0 || ch == 0 {
        None
    } else {
        Some(CropRect { x: cx, y: cy, width: cw, height: ch })
    }
}

/// Dismissing twice is dismissing once.
pub proof fn lemma_dismiss_idempotent<P>(s: OverlayState<P>)
    ensures
        s.dismissed().dismissed() == s.dismissed(),
        s.dismissed().inv(),
{
}

/// A clamped selection is a non-empty rectangle inside the image.
pub proof fn lemma_clamped_selection_inside(px: u32, py: u32, pw: u32, ph: u32, img_w: u32, img_h: u32)
    ensures
        clamped_selection(px, py, pw, ph, img_w, img_h) matches Some(c) ==> {
            &&& c.width >= 1
            &&& c.height >= 1
            &&& c.x + c.width <= img_w
            &&& c.y + c.height <= img_h
        },
{
}

/// Letting go without dragging cancels: a selection without area selects
/// nothing. On a non-empty image every selection with area yields
/// something to recognise, and one that already lies inside the image is
/// kept as it is.
pub proof fn lemma_clamped_selection_total(px: u32, py: u32, pw: u32, ph: u32, img_w: u32, img_h: u32)
    ensures
        pw == 0 || ph == 0 ==> clamped_selection(px, py, pw, ph, img_w, img_h) is None,
        img_w >= 1 && img_h >= 1 && pw >= 1 && ph >= 1 ==> clamped_selection(
            px,
            py,
            pw,
            ph,
            img_w,
            img_h,
        ) is Some,
        pw >= 1 && ph >= 1 && px + pw <= img_w && py + ph <= img_h ==> clamped_selection(
            px,
            py,
            pw,
            ph,
            img_w,
            img_h,
        ) == Some(CropRect { x: px, y: py, width: pw, height: ph }),
{
}

/// Cuts a finished selection (in physical pixels of the frozen desktop)
/// out of the frozen desktop; `None` when nothing of it lies in the image.
pub fn crop_selection(full: &RgbaBuffer, px: u32, py: u32, pw: u32, ph: u32) -> (r: Option<
    RgbaBuffer,
>)
    requires
        full.wf(),
    ensures
        match clamped_selection(px, py, pw, ph, full.width, full.height) {
            None => r is None,
            Some(c) => r matches Some(img) && {
                &&& is_crop_of(img, *full, c.x, c.y, c.width, c.height)
                &&& img.width == c.width
                &&& img.height == c.height
            },
        },
{
    match clamp_selection(px, py, pw, ph, full.width, full.height) {
        None => None,
        Some(c) => {
            let img = crop_rgba(full, c.x, c.y, c.width, c.height);
            proof {
                assert(crop_start(full.width, c.x) == c.x);
                assert(crop_len(full.width, c.x, c.width) == c.width);
                assert(crop_len(full.height, c.y, c.height) == c.height);
            }
            Some(img)
        },
    }
}

} // verus!
