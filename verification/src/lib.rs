//! Host-side boundary for running untrusted guest modules: a table of
//! host-owned resources addressed by opaque integer ids, and the call protocol
//! through which a guest invokes host operations over its linear memory.

pub mod callbacks;
pub mod environment;
pub mod error;
pub mod memory;
pub mod resource;
pub mod table;

pub use crate::callbacks::{
    begin_host_call, complete_host_call, console_log, guest_error, guest_request, guest_response,
    host_call, host_error, host_error_len, host_response, host_response_len, read_request,
    HostCallParams, HostCallRequest,
};
pub use crate::environment::{EnvironmentState, HostCall, Invocation};
pub use crate::error::{
    bad_resource_id, custom_error, invalid_utf8, not_supported, out_of_bounds, type_error,
    CustomError,
};
pub use crate::memory::{read_region, read_string, region_in_bounds, write_region};
pub use crate::resource::{bytes_read, Resource, ResourceHandle};
pub use crate::table::{ResourceId, ResourceTable};
