use vstd::prelude::*;

verus! {

/// The grace period, in milliseconds, during which a focus loss right after an
/// explicit show is ignored.
pub const FOCUS_GRACE_PERIOD_MS: u64 = 500;

/// What to do with a focus-lost notification.
#[derive(Debug, Clone, Copy, PartialEq, Eq, Structural)]
pub enum FocusDecision {
    SuppressHide,
    AllowHide,
}

/// The window notifications the coordinator reacts to.
#[derive(Debug, Clone, Copy, PartialEq, Eq, Structural)]
pub enum WindowEvent {
    CloseRequested,
    FocusLost,
    Other,
}

/// What the shell does with the window after a notification.
#[derive(Debug, Clone, Copy, PartialEq, Eq, Structural)]
pub enum WindowAction {
    /// Hide the window and cancel its destruction.
    HideInsteadOfClose,
    Hide,
    Keep,
}

/// What a click on the tray icon does.
#[derive(Debug, Clone, Copy, PartialEq, Eq, Structural)]
pub enum TrayAction {
    Hide,
    /// Move the window under the tray icon, show it and focus it.
    ShowAtTray,
}

/// Milliseconds from `shown` to `now`; zero when `now` is not later.
pub open spec fn elapsed_ms(shown: u64, now: u64) -> int {
    if now >= shown {
        now - shown
    } else {
        0
    }
}

pub open spec fn focus_decision(last_shown_at: Option<u64>, grace_ms: u64, now: u64) -> FocusDecision {
    match last_shown_at {
        Some(t) => if elapsed_ms(t, now) < grace_ms {
            FocusDecision::SuppressHide
        } else {
            FocusDecision::AllowHide
        },
        None => FocusDecision::AllowHide,
    }
}

/// The instant of the last explicit show, and the grace period measured from it.
/// Instants are milliseconds on a monotonic clock.
pub struct VisibilityState {
    pub last_shown_at: Option<u64>,
    pub grace_ms: u64,
}

impl VisibilityState {
    /// A window never shown, with the given grace period.
    pub fn new(grace_ms: u64) -> (r: VisibilityState)
        ensures
            r.last_shown_at == None::<u64>,
            r.grace_ms == grace_ms,
    {
        VisibilityState { last_shown_at: None, grace_ms }
    }

    /// Records an explicit show at `now_ms`.
    pub fn on_show(&mut self, now_ms: u64)
        ensures
            final(self).last_shown_at == Some(now_ms),
            final(self).grace_ms == old(self).grace_ms,
    {
        self.last_shown_at = Some(now_ms);
    }

    /// Suppresses the hide while `now_ms` lies within the grace period of the
    /// last show; allows it otherwise, and always when nothing was shown.
    pub fn on_focus_lost(&self, now_ms: u64) -> (r: FocusDecision)
        ensures
            r == focus_decision(self.last_shown_at, self.grace_ms, now_ms),
    {
        match self.last_shown_at {
            Some(t) => {
                let elapsed: u64 = if now_ms >= t {
                    now_ms - t
                } else {
                    0
                };
                if elapsed < self.grace_ms {
                    FocusDecision::SuppressHide
                } else {
                    FocusDecision::AllowHide
                }
            },
            None => FocusDecision::AllowHide,
        }
    }

    /// The window's reaction to a notification: a close request always hides
    /// instead of closing, a focus loss hides unless it is suppressed.
    pub fn on_window_event(&self, event: WindowEvent, now_ms: u64) -> (r: WindowAction)
        ensures
            event == WindowEvent::CloseRequested ==> r == WindowAction::HideInsteadOfClose,
            event == WindowEvent::FocusLost ==> (r == WindowAction::Hide <==> focus_decision(
                self.last_shown_at,
                self.grace_ms,
                now_ms,
            ) == FocusDecision::AllowHide),
            event == WindowEvent::FocusLost ==> r != WindowAction::HideInsteadOfClose,
            event == WindowEvent::Other ==> r == WindowAction::Keep,
    {
        match event {
            WindowEvent::CloseRequested => WindowAction::HideInsteadOfClose,
            WindowEvent::FocusLost => match self.on_focus_lost(now_ms) {
                FocusDecision::SuppressHide => WindowAction::Keep,
                FocusDecision::AllowHide => WindowAction::Hide,
            },
            WindowEvent::Other => WindowAction::Keep,
        }
    }

    /// A left click on the tray icon hides a visible window; it shows a hidden
    /// one and records the show at `now_ms`.
    pub fn on_tray_click(&mut self, window_visible: bool, now_ms: u64) -> (r: TrayAction)
        ensures
            window_visible ==> r == TrayAction::Hide && *final(self) == *old(self),
            !window_visible ==> r == TrayAction::ShowAtTray && final(self).last_shown_at == Some(
                now_ms,
            ) && final(self).grace_ms == old(self).grace_ms,
    {
        if window_visible {
            TrayAction::Hide
        } else {
            self.on_show(now_ms);
            TrayAction::ShowAtTray
        }
    }
}

/// A focus loss `d` milliseconds after a show is suppressed exactly when `d` is
/// under the grace period; with no show before it, it is never suppressed.
pub proof fn lemma_focus_lost_after_show(grace_ms: u64, shown: u64, d: u64, now: u64)
    requires
        shown + d <= u64::MAX,
    ensures
        focus_decision(Some(shown), grace_ms, (shown + d) as u64) == (if d < grace_ms {
            FocusDecision::SuppressHide
        } else {
            FocusDecision::AllowHide
        }),
        focus_decision(None, grace_ms, now) == FocusDecision::AllowHide,
{
}

} // verus!
