//! The text-input prompt: where its dialog opens, which button a command
//! message reports, and the shared state through which its answer reaches the
//! task that awaits it.

use vstd::prelude::*;

use crate::geo::{center_offset, div_trunc, fits_i32};
use crate::input::loword;

verus! {

/// Control id of the prompt's edit box.
pub const ID_EDIT: u16 = 101;

/// Control id of the OK button.
pub const ID_OK: u16 = 1;

/// Control id of the Cancel button.
pub const ID_CANCEL: u16 = 2;

/// Notification code of a button click.
pub const BN_CLICKED: u16 = 0;

/// Width of the prompt dialog.
pub const DLG_WIDTH: i32 = 360;

/// Height of the prompt dialog.
pub const DLG_HEIGHT: i32 = 170;

/// A button of the prompt dialog.
#[derive(Clone, Copy, Debug, PartialEq, Eq, Structural)]
pub enum DialogButton {
    /// The OK button.
    Accept,
    Cancel,
}

/// The button a command message's `wparam` reports clicked: the control id is in
/// the low 16 bits, the notification code in the next 16.
pub open spec fn spec_clicked_button(wparam: usize) -> Option<DialogButton> {
    let id = wparam as u16;
    let code = (wparam >> 16u32) as u16;
    if code != BN_CLICKED {
        None
    } else if id == ID_OK {
        Some(DialogButton::Accept)
    } else if id == ID_CANCEL {
        Some(DialogButton::Cancel)
    } else {
        None
    }
}

/// Decodes a command message of the prompt dialog into the button it reports
/// clicked, if any.
pub fn clicked_button(wparam: usize) -> (r: Option<DialogButton>)
    ensures
        r == spec_clicked_button(wparam),
{
    let id = loword(wparam);
    let code = (wparam >> 16u32) as u16;
    if code != BN_CLICKED {
        None
    } else if id == ID_OK {
        Some(DialogButton::Accept)
    } else if id == ID_CANCEL {
        Some(DialogButton::Cancel)
    } else {
        None
    }
}

/// Where the prompt dialog opens: centred on a screen of the given size.
pub fn dialog_origin(screen_width: i32, screen_height: i32) -> (r: (i32, i32))
    requires
        fits_i32(screen_width - DLG_WIDTH),
        fits_i32(screen_height - DLG_HEIGHT),
    ensures
        r.0 == div_trunc(screen_width - DLG_WIDTH, 2),
        r.1 == div_trunc(screen_height - DLG_HEIGHT, 2),
{
    (center_offset(screen_width, DLG_WIDTH), center_offset(screen_height, DLG_HEIGHT))
}

/// `std::task::Waker`: the handle through which a finished prompt wakes the task
/// that awaits it. Verus sees nothing inside it.
#[verifier::external_type_specification]
#[verifier::external_body]
pub struct ExWaker(std::task::Waker);

/// The state a prompt shares with the task awaiting its answer.
pub struct PromptState<T> {
    /// The answer, once the prompt has one and until the task takes it.
    pub result: Option<T>,
    /// The waker of the task, stored when it polled before the answer came.
    pub waker: Option<std::task::Waker>,
    /// The prompt has answered.
    pub completed: bool,
}

/// The state after the prompt answers `result`, and the waker to wake.
pub open spec fn spec_complete<T>(s: PromptState<T>, result: T) -> (PromptState<T>, Option<std::task::Waker>) {
    (PromptState { result: Some(result), waker: None, completed: true }, s.waker)
}

/// The state after the task polls with `waker`, and what the poll yields.
pub open spec fn spec_poll<T>(s: PromptState<T>, waker: std::task::Waker) -> (PromptState<T>, Option<T>) {
    if s.completed {
        (PromptState { result: None, waker: s.waker, completed: true }, s.result)
    } else {
        (PromptState { result: s.result, waker: Some(waker), completed: false }, None)
    }
}

impl<T> PromptState<T> {
    /// A prompt that has not answered yet.
    pub fn new() -> (r: Self)
        ensures
            r.result is None,
            r.waker is None,
            !r.completed,
    {
        PromptState { result: None, waker: None, completed: false }
    }

    /// The prompt answers `result`. Returns the waker of the task to wake, if it
    /// has polled.
    pub fn complete(&mut self, result: T) -> (w: Option<std::task::Waker>)
        ensures
            (*final(self), w) == spec_complete(*old(self), result),
    {
        self.result = Some(result);
        self.completed = true;
        self.waker.take()
    }

    /// The task polls with `waker`: the answer once the prompt has one (taken,
    /// so it is handed out once), else `None`, and the waker is kept so that the
    /// answer wakes the task.
    pub fn poll(&mut self, waker: std::task::Waker) -> (r: Option<T>)
        requires
            old(self).completed ==> old(self).result is Some,
        ensures
            (*final(self), r) == spec_poll(*old(self), waker),
    {
        if self.completed {
            self.result.take()
        } else {
            self.waker = Some(waker);
            None
        }
    }
}

/// Polling before the prompt answers yields nothing and keeps the task's waker;
/// the answer then hands that waker back to be woken, and the next poll yields
/// the answer and leaves nothing more to take.
pub proof fn lemma_answer_reaches_task<T>(s: PromptState<T>, w1: std::task::Waker, w2: std::task::Waker, v: T)
    requires
        !s.completed,
    ensures
        ({
            let (s1, r1) = spec_poll(s, w1);
            let (s2, woken) = spec_complete(s1, v);
            let (s3, r3) = spec_poll(s2, w2);
            &&& r1 is None
            &&& woken == Some(w1)
            &&& r3 == Some(v)
            &&& s3.completed && s3.result is None
        }),
{
}

} // verus!
