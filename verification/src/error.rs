//! The error value of a failed Win32 call.

use vstd::prelude::*;

use crate::text::{decimal_chars, push_decimal};

verus! {

/// A Win32 error code, as the calling thread's last-error value holds it.
#[derive(Clone, Copy, Debug, PartialEq, Eq, Structural)]
pub struct WinError(pub i32);

/// The magnitude of `n`.
pub open spec fn magnitude(n: i32) -> nat {
    if n < 0 {
        (-n) as nat
    } else {
        n as nat
    }
}

/// The text that describes the error: `Win32 error ` and the code in decimal.
pub open spec fn spec_message(code: i32) -> Seq<char> {
    "Win32 error "@ + (if code < 0 {
        seq!['-']
    } else {
        Seq::empty()
    }) + decimal_chars(magnitude(code))
}

impl WinError {
    /// The text that describes the error, as `Display` shows it.
    pub fn message(&self) -> (r: String)
        ensures
            r@ == spec_message(self.0),
    {
        let mut out = String::from_str("Win32 error ");
        let code = self.0;
        let m: u32 = if code < 0 {
            out.push('-');
            (-(code as i64)) as u32
        } else {
            code as u32
        };
        push_decimal(&mut out, m);
        out
    }
}

} // verus!
