//! Decisions about native windows.
//!
//! Minimizing and closing the main window hide it in the tray, and a second start of the program
//! brings up the window of the first.
use vstd::prelude::*;

use crate::events::{AppEvent, AppEventView};
use crate::text;

verus! {

/// Message for a command of the title bar.
pub const WM_SYSCOMMAND: u32 = 0x0112;

/// Command that minimizes the window.
pub const SC_MINIMIZE: usize = 0xF020;

/// Name of the mutex that the first instance holds.
pub const SINGLE_INSTANCE_MUTEX: &'static str = "auto-shutdown-single-instance";

/// How often a second start looks for the window of the first.
pub const ACTIVATE_ATTEMPTS: u32 = 20;

/// Milliseconds between two looks.
pub const ACTIVATE_PAUSE_MS: u64 = 100;

/// Whom to tell that the main window went to the tray.
#[derive(Debug)]
pub struct Registration<T> {
    /// Where events go; `None` before anyone has registered.
    pub tx: Option<T>,
}

/// Who is registered after `tx` wants to be: the first one stays.
pub open spec fn registered<T>(current: Option<T>, tx: T) -> Option<T> {
    match current {
        Some(first) => Some(first),
        None => Some(tx),
    }
}

/// Who is registered after all of `wanted` wanted to be, one after the other.
pub open spec fn registered_all<T>(wanted: Seq<T>) -> Option<T>
    decreases wanted.len(),
{
    if wanted.len() == 0 {
        None
    } else {
        registered(registered_all(wanted.drop_last()), wanted.last())
    }
}

/// Registers where events go. Only the first registration counts.
pub fn set_event_tx<T>(registration: &mut Registration<T>, tx: T)
    ensures
        final(registration).tx == registered(old(registration).tx, tx),
{
    if registration.tx.is_none() {
        registration.tx = Some(tx);
    }
}

/// The event that tells that the main window went to the tray, and whom to send it to; nothing
/// before anyone has registered.
pub fn notify_hidden<'a, T>(registration: &'a Registration<T>) -> (r: Option<(&'a T, AppEvent)>)
    ensures
        match registration.tx {
            Some(tx) => r matches Some((to, event)) && *to == tx && event@
                == AppEventView::WindowHidden,
            None => r is None,
        },
{
    match &registration.tx {
        Some(tx) => Some((tx, AppEvent::WindowHidden)),
        None => None,
    }
}

/// A character in UTF-16.
pub open spec fn utf16_units(c: char) -> Seq<u16> {
    let n = c as u32;
    if n < 0x10000 {
        seq![n as u16]
    } else {
        seq![
            (0xD800 + (n - 0x10000) / 0x400) as u16,
            (0xDC00 + (n - 0x10000) % 0x400) as u16,
        ]
    }
}

/// A text in UTF-16.
pub open spec fn utf16(s: Seq<char>) -> Seq<u16>
    decreases s.len(),
{
    if s.len() == 0 {
        Seq::empty()
    } else {
        utf16(s.drop_last()) + utf16_units(s.last())
    }
}

/// Adds a character in UTF-16.
fn push_units(units: &mut Vec<u16>, c: char)
    ensures
        final(units)@ == old(units)@ + utf16_units(c),
{
    let n: u32 = c as u32;
    assert(n <= 0x10FFFF);
    if n < 0x10000 {
        units.push(n as u16);
    } else {
        let rest: u32 = n - 0x10000;
        units.push((0xD800 + rest / 0x400) as u16);
        units.push((0xDC00 + rest % 0x400) as u16);
    }
    assert(units@ =~= old(units)@ + utf16_units(c));
}

/// A text as the system takes it: UTF-16 with a zero at the end.
pub fn wide(s: &str) -> (r: Vec<u16>)
    ensures
        r@ == utf16(s@).push(0),
{
    let mut units: Vec<u16> = Vec::new();
    assert(s@.take(0) =~= Seq::<char>::empty());
    for c in it: s.chars()
        invariant
            it.seq() == s@,
            units@ == utf16(s@.take(it.index() as int)),
    {
        let ghost i = it.index() as int;
        assert(s@.take(i + 1).drop_last() =~= s@.take(i));
        push_units(&mut units, c);
    }
    assert(s@.take(s@.len() as int) =~= s@);
    units.push(0);
    units
}

/// Tells whether this is the first instance, by whether the mutex existed before. Another one has
/// to bring up the window of the first and end.
pub fn ensure_single_instance(already_exists: bool) -> (r: bool)
    ensures
        r == !already_exists,
{
    !already_exists
}

/// What a second start does next.
#[derive(Clone, Copy, Debug, PartialEq, Eq, Structural)]
pub enum Activation {
    /// Show the window; done.
    Show,
    /// Wait for so many milliseconds, then look again.
    Wait(u64),
    /// The window never came; give up.
    GiveUp,
}

/// What a second start does, after it has looked `looks` times in vain before, and where the window
/// is there or not.
pub open spec fn activation(looks: nat, found: bool) -> Activation {
    if looks >= ACTIVATE_ATTEMPTS {
        Activation::GiveUp
    } else if found {
        Activation::Show
    } else {
        Activation::Wait(ACTIVATE_PAUSE_MS)
    }
}

/// Tells a second start what to do, after it has looked `looks` times in vain before.
pub fn activate_existing_window(looks: u32, found: bool) -> (r: Activation)
    ensures
        r == activation(looks as nat, found),
{
    if looks >= ACTIVATE_ATTEMPTS {
        Activation::GiveUp
    } else if found {
        Activation::Show
    } else {
        Activation::Wait(ACTIVATE_PAUSE_MS)
    }
}

/// A call on a window.
#[derive(Clone, Copy, Debug, PartialEq, Eq, Structural)]
pub enum WindowCall {
    Hide,
    Restore,
    Show,
    /// Put it on top, where it is, as large as it is, without activating it.
    Raise,
    /// Make it the active window.
    Activate,
}

/// State of a window that was found.
#[derive(Clone, Copy, Debug, PartialEq, Eq, Structural)]
pub struct WindowState {
    pub visible: bool,
    pub iconic: bool,
}

/// The calls that show a window.
pub open spec fn show_calls(window: Option<WindowState>) -> Seq<WindowCall> {
    match window {
        None => Seq::empty(),
        Some(w) => {
            let rest = seq![WindowCall::Raise, WindowCall::Activate];
            if !w.visible {
                seq![WindowCall::Show] + rest
            } else if w.iconic {
                seq![WindowCall::Restore] + rest
            } else {
                rest
            }
        },
    }
}

/// The calls that show a window and make it active; none where there is no such window.
pub fn show_window(window: Option<WindowState>) -> (r: Vec<WindowCall>)
    ensures
        r@ == show_calls(window),
{
    let mut calls: Vec<WindowCall> = Vec::new();
    if let Some(w) = window {
        if w.visible {
            if w.iconic {
                calls.push(WindowCall::Restore);
            }
        } else {
            calls.push(WindowCall::Show);
        }
        calls.push(WindowCall::Raise);
        calls.push(WindowCall::Activate);
    }
    assert(calls@ =~= show_calls(window));
    calls
}

/// The calls that hide a window; none where there is no such window.
pub fn hide_window(found: bool) -> (r: Vec<WindowCall>)
    ensures
        r@ == if found {
            seq![WindowCall::Hide]
        } else {
            Seq::empty()
        },
{
    let mut calls: Vec<WindowCall> = Vec::new();
    if found {
        calls.push(WindowCall::Hide);
    }
    assert(calls@ =~= if found {
        seq![WindowCall::Hide]
    } else {
        Seq::empty()
    });
    calls
}

/// The message minimizes the window. The system uses the lowest four bits for itself.
pub open spec fn is_minimize(msg: u32, wparam: usize) -> bool {
    msg == WM_SYSCOMMAND && wparam & 0xFFF0 == SC_MINIMIZE
}

/// Tells whether a message is to hide the window in the tray, in place of what it would do.
pub fn hides_in_tray(msg: u32, wparam: usize) -> (r: bool)
    ensures
        r == is_minimize(msg, wparam),
{
    msg == WM_SYSCOMMAND && (wparam & 0xFFF0) == SC_MINIMIZE
}

/// The words where the window to be watched is not there, or where it cannot be watched; nothing
/// where all is well. `previous` is what handled its messages before, zero where it cannot be
/// replaced.
pub fn hook_minimize_to_tray(title: &str, previous: Option<isize>) -> (r: Result<isize, String>)
    ensures
        match previous {
            None => r matches Err(line) && line@ == "[win32] 未找到窗口，无法拦截最小化: "@ + title@,
            Some(p) => if p == 0 {
                r matches Err(line) && line@
                    == "[win32] SetWindowLongPtrW 失败，最小化将只缩到任务栏"@
            } else {
                r == Ok::<isize, String>(p)
            },
        },
{
    match previous {
        None => Err(text::join("[win32] 未找到窗口，无法拦截最小化: ", title)),
        Some(p) => {
            if p == 0 {
                Err("[win32] SetWindowLongPtrW 失败，最小化将只缩到任务栏".to_owned())
            } else {
                Ok(p)
            }
        },
    }
}

/// The first to register is told, however many register after; nobody is told before.
pub proof fn law_first_registration_stays<T>(wanted: Seq<T>)
    ensures
        registered_all(wanted) == if wanted.len() == 0 {
            None
        } else {
            Some(wanted.first())
        },
    decreases wanted.len(),
{
    if wanted.len() > 0 {
        law_first_registration_stays(wanted.drop_last());
    }
}

/// The lowest four bits of a command make no difference.
pub proof fn law_low_bits_do_not_matter(msg: u32, wparam: usize, low: usize)
    requires
        low < 16,
    ensures
        is_minimize(msg, wparam ^ low) == is_minimize(msg, wparam),
{
    assert((wparam ^ low) & 0xFFF0 == wparam & 0xFFF0) by (bit_vector)
        requires
            low < 16,
    ;
}

/// A second start ends: it looks no more than twenty times, and whoever has looked that often gives
/// up, whether the window is there or not.
pub proof fn law_activation_ends(looks: nat, found: bool)
    ensures
        activation(looks, found) is GiveUp <==> looks >= 20,
        looks < 20 ==> (activation(looks, found) is Show <==> found),
{
}

/// However a window was hidden, showing it ends with it on top and active.
pub proof fn law_shown_window_is_active(window: WindowState)
    ensures
        show_calls(Some(window)).len() >= 2,
        show_calls(Some(window)).last() == WindowCall::Activate,
        !window.visible ==> show_calls(Some(window)).first() == WindowCall::Show,
        window.visible && window.iconic ==> show_calls(Some(window)).first() == WindowCall::Restore,
{
}

} // verus!
