//! Per-frame bookkeeping of the overlay application: whether the settings
//! window is open, whether the settings must be saved, and how many memory
//! reads the last frame made.
use vstd::prelude::*;

verus! {

/// Visibility and save mark after the settings hot key: the window flips,
/// and closing it marks the settings for saving.
pub open spec fn spec_toggle_settings(visible: bool, dirty: bool) -> (bool, bool) {
    (!visible, dirty || visible)
}

/// The application's state between frames.
pub struct ApplicationFrame {
    settings_visible: bool,
    settings_dirty: bool,
    frame_read_calls: usize,
    last_total_read_calls: usize,
}

impl ApplicationFrame {
    pub closed spec fn visible(self) -> bool {
        self.settings_visible
    }

    pub closed spec fn dirty(self) -> bool {
        self.settings_dirty
    }

    pub closed spec fn frame_reads(self) -> usize {
        self.frame_read_calls
    }

    pub closed spec fn total_reads(self) -> usize {
        self.last_total_read_calls
    }

    /// Settings closed and saved, no reads counted yet.
    pub fn new() -> (frame: Self)
        ensures
            !frame.visible(),
            !frame.dirty(),
            frame.frame_reads() == 0,
            frame.total_reads() == 0,
    {
        ApplicationFrame { settings_visible: false, settings_dirty: false, frame_read_calls: 0, last_total_read_calls: 0 }
    }

    pub fn settings_visible(&self) -> (visible: bool)
        ensures
            visible == self.visible(),
    {
        self.settings_visible
    }

    pub fn frame_read_calls(&self) -> (reads: usize)
        ensures
            reads == self.frame_reads(),
    {
        self.frame_read_calls
    }

    /// Notes that the settings changed and must be saved.
    pub fn mark_dirty(&mut self)
        ensures
            final(self).dirty(),
            final(self).visible() == old(self).visible(),
            final(self).frame_reads() == old(self).frame_reads(),
            final(self).total_reads() == old(self).total_reads(),
    {
        self.settings_dirty = true;
    }

    /// The settings hot key was pressed: opens or closes the settings
    /// window. Closing it marks the settings for saving. Returns whether
    /// the window is now open.
    pub fn toggle_settings(&mut self) -> (visible: bool)
        ensures
            (final(self).visible(), final(self).dirty()) == spec_toggle_settings(old(self).visible(), old(self).dirty()),
            visible == final(self).visible(),
            final(self).frame_reads() == old(self).frame_reads(),
            final(self).total_reads() == old(self).total_reads(),
    {
        self.settings_visible = !self.settings_visible;
        if !self.settings_visible {
            self.settings_dirty = true;
        }
        self.settings_visible
    }

    /// Before a frame: whether the settings must be saved now; the mark is
    /// cleared.
    pub fn take_dirty(&mut self) -> (save: bool)
        ensures
            save == old(self).dirty(),
            !final(self).dirty(),
            final(self).visible() == old(self).visible(),
            final(self).frame_reads() == old(self).frame_reads(),
            final(self).total_reads() == old(self).total_reads(),
    {
        let save = self.settings_dirty;
        self.settings_dirty = false;
        save
    }

    /// After a frame: the reads made during it are those the counter gained
    /// since the last frame.
    pub fn record_read_calls(&mut self, total_read_calls: usize)
        requires
            total_read_calls >= old(self).total_reads(),
        ensures
            final(self).frame_reads() == total_read_calls - old(self).total_reads(),
            final(self).total_reads() == total_read_calls,
            final(self).visible() == old(self).visible(),
            final(self).dirty() == old(self).dirty(),
    {
        self.frame_read_calls = total_read_calls - self.last_total_read_calls;
        self.last_total_read_calls = total_read_calls;
    }
}

/// Extended window style bit that lets mouse input pass through a window.
pub const WS_EX_TRANSPARENT: i64 = 0x20;
/// Extended window style bit that keeps a window from being activated.
pub const WS_EX_NOACTIVATE: i64 = 0x0800_0000;
/// Both style bits that make the overlay window ignore input.
pub const PASS_THROUGH_STYLE: i64 = 0x0800_0020;

/// Extended style of the overlay window: while the overlay's own UI wants
/// input, the pass-through bits are cleared; otherwise they are set. Other
/// bits stay as they are.
pub fn overlay_window_style(style: i64, ui_active: bool) -> (new_style: i64)
    ensures
        ui_active ==> new_style & PASS_THROUGH_STYLE == 0,
        !ui_active ==> new_style & PASS_THROUGH_STYLE == PASS_THROUGH_STYLE,
        new_style & !PASS_THROUGH_STYLE == style & !PASS_THROUGH_STYLE,
{
    let mask = WS_EX_NOACTIVATE | WS_EX_TRANSPARENT;
    assert(mask == 0x0800_0020i64) by (bit_vector)
        requires
            mask == 0x0800_0000i64 | 0x20i64,
    ;
    if ui_active {
        let r = style & !mask;
        assert(r & 0x0800_0020i64 == 0 && r & !0x0800_0020i64 == style & !0x0800_0020i64) by (bit_vector)
            requires
                r == style & !0x0800_0020i64,
        ;
        r
    } else {
        let r = style | mask;
        assert(r & 0x0800_0020i64 == 0x0800_0020i64 && r & !0x0800_0020i64 == style & !0x0800_0020i64) by (bit_vector)
            requires
                r == style | 0x0800_0020i64,
        ;
        r
    }
}

/// Whether the overlay's UI takes input, remembered between frames.
pub struct UiActivity {
    ui_active: bool,
}

impl UiActivity {
    pub closed spec fn active(self) -> bool {
        self.ui_active
    }

    pub fn new() -> (activity: Self)
        ensures
            !activity.active(),
    {
        UiActivity { ui_active: false }
    }

    /// The UI wants input when it wants the mouse or the keyboard. Returns
    /// the new activity when it changed, so that the window style is
    /// updated (and the window activated when it became active).
    pub fn update(&mut self, want_capture_mouse: bool, want_capture_keyboard: bool) -> (changed: Option<bool>)
        ensures
            final(self).active() == (want_capture_mouse || want_capture_keyboard),
            changed == if final(self).active() != old(self).active() {
                Some(final(self).active())
            } else {
                None::<bool>
            },
    {
        let window_active = want_capture_mouse || want_capture_keyboard;
        if window_active != self.ui_active {
            self.ui_active = window_active;
            Some(window_active)
        } else {
            None
        }
    }
}

/// Toggling the settings window twice restores its visibility and leaves
/// the settings marked for saving.
pub proof fn lemma_toggle_twice(visible: bool, dirty: bool)
    ensures
        ({
            let (v1, d1) = spec_toggle_settings(visible, dirty);
            let (v2, d2) = spec_toggle_settings(v1, d1);
            v2 == visible && d2
        }),
{
}

/// Failed frame updates tolerated before the overlay pauses its updates.
pub const MAX_UPDATE_FAILURES: u32 = 10;
/// How long the overlay pauses its updates after too many failures, in
/// milliseconds.
pub const UPDATE_PAUSE_MS: u64 = 1000;

/// Back-off of the frame updates: failed updates are counted, and once
/// more than `MAX_UPDATE_FAILURES` have failed the updates pause for
/// `UPDATE_PAUSE_MS`. Times are milliseconds of a monotonic clock.
pub struct UpdateBackoff {
    fail_count: u32,
    paused_since: Option<u64>,
}

/// Milliseconds from `since` to `now`; a reading before `since` counts as
/// none.
pub open spec fn spec_millis_since(now: u64, since: u64) -> int {
    if now >= since { now - since } else { 0 }
}

impl UpdateBackoff {
    pub closed spec fn failures(self) -> u32 {
        self.fail_count
    }

    /// When the current pause began, if the updates are paused.
    pub closed spec fn pause(self) -> Option<u64> {
        self.paused_since
    }

    pub fn new() -> (backoff: Self)
        ensures
            backoff.failures() == 0,
            backoff.pause() is None,
    {
        UpdateBackoff { fail_count: 0, paused_since: None }
    }

    /// Whether the update of this frame is skipped: the updates are paused
    /// and the pause has not lasted more than `UPDATE_PAUSE_MS`. A pause
    /// that has lasted longer ends.
    pub fn skip_update(&mut self, now_ms: u64) -> (skip: bool)
        ensures
            final(self).failures() == old(self).failures(),
            match old(self).pause() {
                None => !skip && final(self).pause() is None,
                Some(start) => if spec_millis_since(now_ms, start) > UPDATE_PAUSE_MS {
                    !skip && final(self).pause() is None
                } else {
                    skip && final(self).pause() == old(self).pause()
                },
            },
    {
        match self.paused_since {
            None => false,
            Some(start) => {
                let elapsed = if now_ms >= start { now_ms - start } else { 0 };
                if elapsed > UPDATE_PAUSE_MS {
                    self.paused_since = None;
                    false
                } else {
                    true
                }
            },
        }
    }

    /// Records a failed update; returns whether it starts a pause (then
    /// the frame is not rendered either). Once `MAX_UPDATE_FAILURES` have
    /// been counted, the next failure starts a pause at `now_ms` and the
    /// count starts over; before that, the failure is counted.
    pub fn record_failure(&mut self, now_ms: u64) -> (paused: bool)
        ensures
            paused == (old(self).failures() >= MAX_UPDATE_FAILURES),
            paused ==> final(self).failures() == 0 && final(self).pause() == Some(now_ms),
            !paused ==> final(self).failures() == old(self).failures() + 1 && final(self).pause() == old(self).pause(),
    {
        if self.fail_count >= MAX_UPDATE_FAILURES {
            self.paused_since = Some(now_ms);
            self.fail_count = 0;
            true
        } else {
            self.fail_count = self.fail_count + 1;
            false
        }
    }
}

} // verus!
