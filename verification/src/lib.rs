//! A scoped guard that turns an in-flight stack unwind into an immediate
//! process abort, so that a panic can never propagate past a protected
//! frame (for instance out of an FFI callback).
//!
//! The verified core models the guard itself and everything it computes:
//! which diagnostic text it selects and the exact line it would write
//! before terminating the process. The ambient pieces that Rust keeps
//! outside the type system — querying the unwind state, writing to
//! standard error, aborting — are left to a thin unverified shell around
//! this crate.

use vstd::prelude::*;

pub mod diag;

verus! {

/// Once this object is created, it can only be destroyed in an orderly
/// fashion: a shell around this crate aborts the process when one is
/// dropped while a panic is unwinding.
///
/// The guard's only state is its optional diagnostic message, fixed at
/// construction.
pub struct PanicGuard {
    message: Option<&'static str>,
}

impl View for PanicGuard {
    type V = Option<Seq<char>>;

    closed spec fn view(&self) -> Option<Seq<char>> {
        match self.message {
            Some(m) => Some(m@),
            None => None,
        }
    }
}

impl PanicGuard {
    /// Create a panic guard with a generic message.
    pub fn new() -> (guard: PanicGuard)
        ensures
            guard@ is None,
    {
        PanicGuard { message: None }
    }

    /// Create a panic guard with a custom message.
    pub fn with_message(message: &'static str) -> (guard: PanicGuard)
        ensures
            guard@ == Some(message@),
    {
        PanicGuard { message: Some(message) }
    }

    /// The diagnostic text this guard reports when it intercepts an
    /// unwind: its own message if it has one, the default otherwise.
    pub open spec fn diagnostic_text_spec(&self) -> Seq<char> {
        match self@ {
            Some(m) => m,
            None => diag::default_message_spec(),
        }
    }

    /// Select the diagnostic text, as `diagnostic_text_spec` says.
    pub fn diagnostic_text(&self) -> (text: &'static str)
        ensures
            text@ == self.diagnostic_text_spec(),
    {
        match self.message {
            Some(m) => m,
            None => diag::default_message(),
        }
    }

    /// The exact line this guard would write to standard error before
    /// aborting, given its own source position.
    pub fn diagnostic_line(&self, file: &str, line: u32) -> (rendered: String)
        ensures
            rendered@ == diag::diagnostic_line_spec(self.diagnostic_text_spec(), file@, line),
    {
        let text = self.diagnostic_text();
        diag::render_diagnostic(text, file, line)
    }
}

/// A guard built without a message reports the default text.
pub proof fn lemma_default_diagnostic(guard: PanicGuard)
    requires
        guard@ is None,
    ensures
        guard.diagnostic_text_spec() == diag::default_message_spec(),
{
}

/// A guard built with a custom message reports exactly that message.
pub proof fn lemma_custom_diagnostic(guard: PanicGuard, message: Seq<char>)
    requires
        guard@ == Some(message),
    ensures
        guard.diagnostic_text_spec() == message,
{
}

/// Run a block of code under a default guard. When the block returns
/// normally the construct evaluates to the block's value; the guard
/// contributes nothing to it.
pub fn protected<T, F: FnOnce() -> T>(body: F) -> (value: T)
    requires
        call_requires(body, ()),
    ensures
        call_ensures(body, (), value),
{
    let _guard = PanicGuard::new();
    body()
}

/// Run a block of code under a guard carrying a custom message. The
/// construct evaluates to the block's value when the block returns
/// normally.
pub fn protected_with_message<T, F: FnOnce() -> T>(message: &'static str, body: F) -> (value: T)
    requires
        call_requires(body, ()),
    ensures
        call_ensures(body, (), value),
{
    let _guard = PanicGuard::with_message(message);
    body()
}

} // verus!
