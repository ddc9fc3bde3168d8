//! Recording scopes and the native event names they select.
use vstd::prelude::*;
use vstd::string::is_ascii;
use vstd::utf8::is_ascii_chars;
use crate::cstr::{ascii_bytes, ascii_c_string, CStrBuf};

verus! {

/// ETM recording scope.
#[derive(Clone, Copy, Debug, PartialEq, Eq, Structural)]
pub enum RecordScope {
    /// Record etm data only for userspace.
    USERSPACE,
    /// Record etm data only for kernel.
    KERNEL,
    /// Record etm data for both userspace and kernel.
    BOTH,
}

/// The name of the event that the native engine records for `scope`.
pub open spec fn event_name_of(scope: RecordScope) -> Seq<char> {
    match scope {
        RecordScope::USERSPACE => "cs-etm:u"@,
        RecordScope::KERNEL => "cs-etm:k"@,
        RecordScope::BOTH => "cs-etm"@,
    }
}

/// Each scope selects an event name of its own: no two scopes share one.
pub proof fn lemma_event_names_distinct(a: RecordScope, b: RecordScope)
    ensures
        a != b ==> event_name_of(a) != event_name_of(b),
{
    reveal_strlit("cs-etm:u");
    reveal_strlit("cs-etm:k");
    reveal_strlit("cs-etm");
    if a != b {
        assert(event_name_of(a).len() != event_name_of(b).len()
            || event_name_of(a)[7] != event_name_of(b)[7]);
    }
}

impl RecordScope {
    /// The event name for this scope, as text.
    pub fn event_name(self) -> (r: &'static str)
        ensures
            r@ == event_name_of(self),
            is_ascii(r),
            forall|i: int| 0 <= i < r@.len() ==> r@[i] != '\0',
    {
        proof {
            reveal_strlit("cs-etm:u");
            reveal_strlit("cs-etm:k");
            reveal_strlit("cs-etm");
        }
        let r = match self {
            RecordScope::USERSPACE => "cs-etm:u",
            RecordScope::KERNEL => "cs-etm:k",
            RecordScope::BOTH => "cs-etm",
        };
        assert(is_ascii_chars(r@));
        r
    }

    /// The event name for this scope, as the native engine takes it.
    pub fn event_name_c(self) -> (r: CStrBuf)
        ensures
            r@ == ascii_bytes(event_name_of(self)),
    {
        ascii_c_string(self.event_name())
    }
}

} // verus!
