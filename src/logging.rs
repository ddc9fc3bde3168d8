//! Where the native engine's diagnostic log goes: its default destination, or
//! a file that a redirection named. The engine holds this state; this type
//! follows the commands that change it.
use vstd::prelude::*;
use crate::cstr::CStrBuf;

verus! {

/// The destination after a redirection to `path`, from any destination.
pub open spec fn after_set_log_file(state: Option<Seq<u8>>, path: Seq<u8>) -> Option<Seq<u8>> {
    Some(path)
}

/// The destination after a reset, from any destination: the default.
pub open spec fn after_reset_log_file(state: Option<Seq<u8>>) -> Option<Seq<u8>> {
    None
}

/// A reset while the log goes to its default destination changes nothing.
pub proof fn lemma_reset_without_redirection_is_noop(state: Option<Seq<u8>>)
    requires
        state is None,
    ensures
        after_reset_log_file(state) == state,
{
}

/// Two redirections in a row and then a reset leave the log at its default
/// destination, whatever it was before.
pub proof fn lemma_set_set_reset_is_default(state: Option<Seq<u8>>, a: Seq<u8>, b: Seq<u8>)
    ensures
        after_reset_log_file(after_set_log_file(after_set_log_file(state, a), b)) is None,
{
}

/// The destination of the diagnostic log: `None` for the default one, or the
/// file that the last redirection named.
#[derive(Debug)]
pub struct LogRedirection {
    file: Option<CStrBuf>,
}

impl View for LogRedirection {
    type V = Option<Seq<u8>>;

    closed spec fn view(&self) -> Option<Seq<u8>> {
        match self.file {
            Some(c) => Some(c@),
            None => None,
        }
    }
}

impl LogRedirection {
    /// The state before any redirection: the default destination.
    pub fn new() -> (r: LogRedirection)
        ensures
            r@ is None,
    {
        LogRedirection { file: None }
    }

    /// Redirects the log to `path`, replacing any earlier redirection.
    pub fn set_log_file(&mut self, path: CStrBuf)
        ensures
            final(self)@ == after_set_log_file(old(self)@, path@),
    {
        self.file = Some(path);
    }

    /// Sends the log back to its default destination.
    pub fn reset_log_file(&mut self)
        ensures
            final(self)@ == after_reset_log_file(old(self)@),
    {
        self.file = None;
    }

    /// Whether the log goes to its default destination.
    pub fn is_default(&self) -> (r: bool)
        ensures
            r == (self@ is None),
    {
        self.file.is_none()
    }

    /// The file the log is redirected to, if any.
    pub fn log_file(&self) -> (r: Option<&CStrBuf>)
        ensures
            r is Some <==> self@ is Some,
            r matches Some(c) ==> self@ == Some(c@),
    {
        match &self.file {
            Some(c) => Some(c),
            None => None,
        }
    }
}

} // verus!
