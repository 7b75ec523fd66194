//! The countdown to the shutdown.
//!
//! A window on top of all others counts a minute down. At zero the machine shuts down; until then
//! the user can shut down at once, cancel, or put it off. When the heartbeat recovers, the window
//! closes by itself.
use vstd::prelude::*;

use crate::events::{AppEvent, AppEventView, CountdownChoice};
use crate::protocol::COUNTDOWN_SECONDS;
use crate::text;

verus! {

/// Title of the countdown window. The window is found by it, so no other window may have it.
pub const COUNTDOWN_TITLE: &'static str = "自动关机守护 - 关机倒计时警告";

/// Head of the countdown window.
pub const WARNING_LABEL: &'static str = "心跳失联警告";

/// What has happened.
pub const WARNING_NOTE: &'static str = "心跳服务已失联超过 60 秒，服务端可能已断电或离线。";

/// What happens when the service comes back.
pub const RECOVERY_NOTE: &'static str = "若服务已恢复，心跳恢复后本窗口会自动关闭。";

/// The countdown.
#[derive(Debug)]
pub struct CountdownView {
    /// Seconds that are left.
    pub remaining: u32,
}

/// A button of the countdown window.
#[derive(Clone, Copy, Debug, PartialEq, Eq, Structural)]
pub enum CountdownButton {
    ShutdownNow,
    Cancel,
    Later,
}

impl CountdownButton {
    /// The words on the button.
    pub open spec fn label_text(self) -> Seq<char> {
        match self {
            CountdownButton::ShutdownNow => "立即关机"@,
            CountdownButton::Cancel => "取消关机"@,
            CountdownButton::Later => "稍后关机 (30s)"@,
        }
    }

    /// The words on the button.
    pub fn label(self) -> (r: &'static str)
        ensures
            r@ == self.label_text(),
    {
        match self {
            CountdownButton::ShutdownNow => "立即关机",
            CountdownButton::Cancel => "取消关机",
            CountdownButton::Later => "稍后关机 (30s)",
        }
    }

    /// The event that a press of the button sends.
    pub fn pressed(self) -> (r: AppEvent)
        ensures
            r@ == match self {
                CountdownButton::ShutdownNow => AppEventView::ShutdownNow,
                CountdownButton::Cancel => AppEventView::CountdownAction(CountdownChoice::Cancel),
                CountdownButton::Later => AppEventView::CountdownAction(CountdownChoice::Later),
            },
    {
        match self {
            CountdownButton::ShutdownNow => AppEvent::ShutdownNow,
            CountdownButton::Cancel => AppEvent::CountdownAction(CountdownChoice::Cancel),
            CountdownButton::Later => AppEvent::CountdownAction(CountdownChoice::Later),
        }
    }
}

/// The seconds left after one more second.
pub open spec fn one_less(remaining: u32) -> u32 {
    if remaining > 0 {
        (remaining - 1) as u32
    } else {
        0
    }
}

/// The seconds left after `n` more seconds.
pub open spec fn left_after(remaining: u32, n: nat) -> u32
    decreases n,
{
    if n == 0 {
        remaining
    } else {
        one_less(left_after(remaining, (n - 1) as nat))
    }
}

/// The words for the seconds that are left.
pub open spec fn remaining_words(remaining: u32) -> Seq<char> {
    text::decimal_digits(remaining as nat) + " 秒后将自动关机"@
}

impl CountdownView {
    /// A countdown with all its seconds left.
    pub fn new() -> (r: Self)
        ensures
            r.remaining == COUNTDOWN_SECONDS,
    {
        CountdownView { remaining: COUNTDOWN_SECONDS as u32 }
    }

    /// A second has passed. Returns the event to send when the countdown has run out, which is
    /// also the last tick.
    pub fn tick(&mut self) -> (r: Option<AppEvent>)
        ensures
            final(self).remaining == one_less(old(self).remaining),
            match r {
                Some(event) => final(self).remaining == 0 && event@ == AppEventView::ShutdownNow,
                None => final(self).remaining > 0,
            },
    {
        self.remaining = self.remaining.saturating_sub(1);
        if self.remaining == 0 {
            Some(AppEvent::ShutdownNow)
        } else {
            None
        }
    }

    /// The words for the seconds that are left.
    pub fn render(&self) -> (r: String)
        ensures
            r@ == remaining_words(self.remaining),
    {
        text::join(text::decimal(self.remaining as u64).as_str(), " 秒后将自动关机")
    }
}

/// The countdown loses one second with each, and none beyond zero.
pub proof fn law_countdown_counts_seconds(remaining: u32, n: nat)
    ensures
        left_after(remaining, n) == if n <= remaining {
            remaining - n
        } else {
            0
        },
    decreases n,
{
    if n > 0 {
        law_countdown_counts_seconds(remaining, (n - 1) as nat);
    }
}

/// A new countdown runs out after a minute, and no second earlier.
pub proof fn law_shutdown_after_a_minute(n: nat)
    ensures
        left_after(COUNTDOWN_SECONDS as u32, n) == 0 <==> n >= 60,
{
    law_countdown_counts_seconds(COUNTDOWN_SECONDS as u32, n);
}

} // verus!
