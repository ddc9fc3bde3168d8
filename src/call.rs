//! The arguments of the native record and inject operations, built and
//! checked before anything crosses the boundary.
use vstd::prelude::*;
use vstd::string::StringSliceAdditionalSpecFns;
use crate::cstr::{ascii_bytes, c_string, has_nul, is_first_nul, CStrBuf, NulError};
use crate::scope::{event_name_of, RecordScope};

verus! {

/// Nanoseconds in one second.
pub const NANOS_PER_SEC: u32 = 1_000_000_000;

/// How long a capture runs: whole seconds and the nanoseconds past them.
#[derive(Clone, Copy, Debug, PartialEq, Eq, Structural)]
pub struct CaptureDuration {
    secs: u64,
    nanos: u32,
}

impl View for CaptureDuration {
    type V = int;

    /// The whole span in nanoseconds.
    closed spec fn view(&self) -> int {
        self.secs as int * NANOS_PER_SEC as int + self.nanos as int
    }
}

impl CaptureDuration {
    #[verifier::type_invariant]
    spec fn well_formed(self) -> bool {
        self.nanos < NANOS_PER_SEC
    }

    /// The duration of `secs` seconds and `nanos` nanoseconds, where whole
    /// seconds in `nanos` carry into the seconds. `None` where the seconds
    /// overflow a `u64`.
    pub fn new(secs: u64, nanos: u32) -> (r: Option<CaptureDuration>)
        ensures
            r is Some <==> secs as int + nanos as int / NANOS_PER_SEC as int <= u64::MAX,
            r matches Some(d) ==> d@ == secs as int * NANOS_PER_SEC as int + nanos as int,
    {
        let carry: u64 = (nanos / NANOS_PER_SEC) as u64;
        match secs.checked_add(carry) {
            Some(s) => {
                let d = CaptureDuration { secs: s, nanos: nanos % NANOS_PER_SEC };
                assert(nanos as int == carry as int * NANOS_PER_SEC as int + (nanos
                    % NANOS_PER_SEC) as int) by (nonlinear_arith)
                    requires
                        carry as int == nanos as int / NANOS_PER_SEC as int,
                        NANOS_PER_SEC == 1_000_000_000u32,
                ;
                assert(d@ == secs as int * NANOS_PER_SEC as int + nanos as int) by (nonlinear_arith)
                    requires
                        d.secs == secs + carry,
                        d.nanos as int == nanos as int - carry as int * NANOS_PER_SEC as int,
                ;
                Some(d)
            },
            None => None,
        }
    }

    /// Whole seconds of the span.
    pub fn as_secs(&self) -> (r: u64)
        ensures
            r as int == self@ / NANOS_PER_SEC as int,
    {
        proof {
            use_type_invariant(self);
        }
        let r = self.secs;
        assert(self@ / NANOS_PER_SEC as int == self.secs as int) by (nonlinear_arith)
            requires
                self.nanos < NANOS_PER_SEC,
                self@ == self.secs as int * NANOS_PER_SEC as int + self.nanos as int,
                NANOS_PER_SEC == 1_000_000_000u32,
        ;
        r
    }

    /// Nanoseconds of the span past its whole seconds.
    pub fn subsec_nanos(&self) -> (r: u32)
        ensures
            r as int == self@ % NANOS_PER_SEC as int,
    {
        proof {
            use_type_invariant(self);
        }
        let r = self.nanos;
        assert(self@ % NANOS_PER_SEC as int == self.nanos as int) by (nonlinear_arith)
            requires
                self.nanos < NANOS_PER_SEC,
                self@ == self.secs as int * NANOS_PER_SEC as int + self.nanos as int,
                NANOS_PER_SEC == 1_000_000_000u32,
        ;
        r
    }
}

/// The arguments of one native record call.
#[derive(Debug)]
pub struct RecordCall {
    /// The event that selects the recording scope.
    pub event_name: CStrBuf,
    /// Where the raw trace is written.
    pub trace_file: CStrBuf,
    /// How long the capture runs.
    pub duration: CaptureDuration,
    /// Which binaries are traced; empty for all.
    pub binary_filter: CStrBuf,
}

/// The arguments of one native inject call, which turns a raw trace into a
/// profile.
#[derive(Debug)]
pub struct InjectCall {
    /// The raw trace to read.
    pub trace_path: CStrBuf,
    /// Where the profile is written.
    pub profile_path: CStrBuf,
    /// Which binaries the profile covers; empty for all.
    pub binary_filter: CStrBuf,
}

/// The error for the first of `args`, in order, that holds a zero byte.
pub open spec fn first_nul_error(args: Seq<Seq<u8>>, e: NulError) -> bool {
    exists|k: int|
        #![trigger args[k]]
        0 <= k < args.len() && is_first_nul(args[k], e.position as int) && forall|j: int|
            0 <= j < k ==> !has_nul(#[trigger] args[j])
}

/// Builds the arguments of a trace capture of `duration` in `scope`, written
/// to `trace_file` and restricted to `binary_filter`. Fails where the path or
/// the filter holds a zero byte, with the first zero byte of the first of the
/// two that holds one.
pub fn record_call(
    trace_file: &str,
    duration: CaptureDuration,
    binary_filter: &str,
    scope: RecordScope,
) -> (r: Result<RecordCall, NulError>)
    ensures
        r is Ok <==> !has_nul(trace_file.spec_bytes()) && !has_nul(binary_filter.spec_bytes()),
        r matches Ok(c) ==> {
            &&& c.event_name@ == ascii_bytes(event_name_of(scope))
            &&& c.trace_file@ == trace_file.spec_bytes()
            &&& c.duration == duration
            &&& c.binary_filter@ == binary_filter.spec_bytes()
        },
        r matches Err(e) ==> first_nul_error(
            seq![trace_file.spec_bytes(), binary_filter.spec_bytes()],
            e,
        ),
{
    let ghost args = seq![trace_file.spec_bytes(), binary_filter.spec_bytes()];
    let event_name = scope.event_name_c();
    let trace_file = match c_string(trace_file) {
        Ok(c) => c,
        Err(e) => {
            assert(args[0] == trace_file.spec_bytes());
            return Err(e);
        },
    };
    let binary_filter = match c_string(binary_filter) {
        Ok(c) => c,
        Err(e) => {
            assert(args[1] == binary_filter.spec_bytes());
            return Err(e);
        },
    };
    Ok(RecordCall { event_name, trace_file, duration, binary_filter })
}

/// Builds the arguments that turn the raw trace at `trace_path` into a profile
/// at `profile_path`, restricted to `binary_filter`. Fails where one of the
/// three holds a zero byte, with the first zero byte of the first of them that
/// holds one.
pub fn process_call(trace_path: &str, profile_path: &str, binary_filter: &str) -> (r: Result<
    InjectCall,
    NulError,
>)
    ensures
        r is Ok <==> !has_nul(trace_path.spec_bytes()) && !has_nul(profile_path.spec_bytes())
            && !has_nul(binary_filter.spec_bytes()),
        r matches Ok(c) ==> {
            &&& c.trace_path@ == trace_path.spec_bytes()
            &&& c.profile_path@ == profile_path.spec_bytes()
            &&& c.binary_filter@ == binary_filter.spec_bytes()
        },
        r matches Err(e) ==> first_nul_error(
            seq![trace_path.spec_bytes(), profile_path.spec_bytes(), binary_filter.spec_bytes()],
            e,
        ),
{
    let ghost args = seq![
        trace_path.spec_bytes(),
        profile_path.spec_bytes(),
        binary_filter.spec_bytes(),
    ];
    let trace_path = match c_string(trace_path) {
        Ok(c) => c,
        Err(e) => {
            assert(args[0] == trace_path.spec_bytes());
            return Err(e);
        },
    };
    let profile_path = match c_string(profile_path) {
        Ok(c) => c,
        Err(e) => {
            assert(args[1] == profile_path.spec_bytes());
            assert(!has_nul(args[0]));
            return Err(e);
        },
    };
    let binary_filter = match c_string(binary_filter) {
        Ok(c) => c,
        Err(e) => {
            assert(args[2] == binary_filter.spec_bytes());
            assert(!has_nul(args[0]) && !has_nul(args[1]));
            return Err(e);
        },
    };
    Ok(InjectCall { trace_path, profile_path, binary_filter })
}

} // verus!
