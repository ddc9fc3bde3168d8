//! Safe entry points for ETM (Embedded Trace Macrocell) trace capture and
//! processing: the arguments handed to the native tracing engine are built and
//! checked here, before anything crosses the boundary.

mod call;
mod cstr;
mod logging;
mod scope;

pub use call::{
    first_nul_error, process_call, record_call, CaptureDuration, InjectCall, RecordCall,
    NANOS_PER_SEC,
};
pub use cstr::{ascii_bytes, c_string, has_nul, is_first_nul, CStrBuf, NulError};
pub use logging::{
    after_reset_log_file, after_set_log_file, lemma_reset_without_redirection_is_noop,
    lemma_set_set_reset_is_default, LogRedirection,
};
pub use scope::{event_name_of, lemma_event_names_distinct, RecordScope};
