//! The application's callbacks.
//!
//! A callback is known here by a number that the host chose. A slot is emptied while its callback
//! runs, so that an event that arrives in the meantime finds no callback, and filled again
//! afterwards.

use vstd::prelude::*;
use std::sync::atomic::{AtomicBool, Ordering};
use std::sync::Arc;

verus! {

/// The callbacks that the application has registered with a window.
#[derive(Clone, Copy, Debug, PartialEq, Eq, Structural)]
pub struct Callbacks {
    pub request_frame: Option<u64>,
    pub event: Option<u64>,
    pub activate: Option<u64>,
    pub resize: Option<u64>,
    pub moved: Option<u64>,
    pub should_close: Option<u64>,
    pub close: Option<u64>,
    pub appearance_changed: Option<u64>,
    pub move_tab_to_new_window: Option<u64>,
    pub merge_all_windows: Option<u64>,
    pub select_next_tab: Option<u64>,
    pub select_previous_tab: Option<u64>,
    pub toggle_tab_bar: Option<u64>,
}

impl Callbacks {
    /// A window without callbacks.
    pub open spec fn none() -> Callbacks {
        Callbacks {
            request_frame: None,
            event: None,
            activate: None,
            resize: None,
            moved: None,
            should_close: None,
            close: None,
            appearance_changed: None,
            move_tab_to_new_window: None,
            merge_all_windows: None,
            select_next_tab: None,
            select_previous_tab: None,
            toggle_tab_bar: None,
        }
    }

    /// Registers nothing.
    pub fn new() -> (result: Callbacks)
        ensures
            result == Callbacks::none(),
    {
        Callbacks {
            request_frame: None,
            event: None,
            activate: None,
            resize: None,
            moved: None,
            should_close: None,
            close: None,
            appearance_changed: None,
            move_tab_to_new_window: None,
            merge_all_windows: None,
            select_next_tab: None,
            select_previous_tab: None,
            toggle_tab_bar: None,
        }
    }
}

/// Takes the callback out of its slot in order to run it.
pub fn begin_callback(slot: &mut Option<u64>) -> (result: Option<u64>)
    ensures
        result == *old(slot),
        *final(slot) is None,
{
    slot.take()
}

/// Puts a callback that has run back into its slot.
pub fn finish_callback(slot: &mut Option<u64>, callback: u64)
    ensures
        *final(slot) == Some(callback),
{
    *slot = Some(callback);
}

/// What is done about a request to close a window.
#[derive(Clone, Copy, Debug, PartialEq, Eq, Structural)]
pub enum CloseRequest {
    /// Close it.
    Close,
    /// Do as this callback says.
    Ask(u64),
}

/// What is done about a request to close a window with this callback.
pub open spec fn close_request(slot: Option<u64>) -> CloseRequest {
    match slot {
        Some(callback) => CloseRequest::Ask(callback),
        None => CloseRequest::Close,
    }
}

/// Decides a request to close a window: without a callback the window closes.
pub fn window_should_close(slot: &mut Option<u64>) -> (result: CloseRequest)
    ensures
        *final(slot) is None,
        result == close_request(*old(slot)),
        result == match *old(slot) {
            Some(callback) => CloseRequest::Ask(callback),
            None => CloseRequest::Close,
        },
{
    match slot.take() {
        Some(callback) => CloseRequest::Ask(callback),
        None => CloseRequest::Close,
    }
}

/// Runs `task` unless the window is closed, and says whether it ran.
///
/// A closed window's task may not even be fit to be called.
pub fn run_unless_closed(closed: bool, task: impl FnOnce()) -> (ran: bool)
    requires
        !closed ==> call_requires(task, ()),
    ensures
        ran == !closed,
        ran ==> call_ensures(task, (), ()),
{
    if !closed {
        task();
        true
    } else {
        false
    }
}

/// Reads a flag with `load`.
fn read_flag(load: impl Fn(&AtomicBool, Ordering) -> bool, flag: &AtomicBool) -> (value: bool)
    requires
        call_requires(load, (flag, Ordering::Acquire)),
    ensures
        call_ensures(load, (flag, Ordering::Acquire), value),
{
    load(flag, Ordering::Acquire)
}

/// Whether a read of the flag has given, or could have given, `value`.
pub open spec fn may_read(flag: AtomicBool, value: bool) -> bool {
    call_ensures(AtomicBool::load, (&flag, Ordering::Acquire), value)
}

/// Calls `f` if the window is not closed, and says whether it did.
///
/// To be used by tasks that were put off: some messages fault when they reach a window that is no
/// longer valid. The flag may be set at any time, so what it was read as is not known beforehand:
/// `f` is called exactly if it was read as not set.
pub fn if_window_not_closed(closed: Arc<AtomicBool>, f: impl FnOnce()) -> (ran: bool)
    requires
        may_read(*closed, false) ==> call_requires(f, ()),
    ensures
        may_read(*closed, !ran),
        ran ==> call_ensures(f, (), ()),
{
    run_unless_closed(read_flag(AtomicBool::load, &closed), f)
}

/// The application is asked whether a window closes exactly if it wants to be; else it closes.
pub proof fn application_decides_about_closing(callback: u64)
    ensures
        close_request(Some(callback)) == CloseRequest::Ask(callback),
        close_request(None) == CloseRequest::Close,
{
}

/// A new window has no callbacks.
pub proof fn new_windows_call_nobody()
    ensures
        ({
            let none = Callbacks::none();
            &&& none.request_frame is None && none.event is None && none.activate is None
            &&& none.resize is None && none.moved is None && none.should_close is None
            &&& none.close is None && none.appearance_changed is None
            &&& none.move_tab_to_new_window is None && none.merge_all_windows is None
            &&& none.select_next_tab is None && none.select_previous_tab is None
            &&& none.toggle_tab_bar is None
        }),
{
}

} // verus!
