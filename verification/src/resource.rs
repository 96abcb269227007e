//! Resources: host-owned capabilities of unrelated concrete types, and the
//! type-erased shared handle under which the table keeps them.

use crate::error::{not_supported, not_supported_view, CustomError};
use std::any::Any;
use std::sync::Arc;
use vstd::prelude::*;

verus! {

/// Whether `outcome` is the failure of an operation that a resource does not
/// implement.
pub open spec fn is_not_supported<T>(outcome: Result<T, CustomError>) -> bool {
    outcome matches Err(e) && e@ == not_supported_view()
}

/// A capability that the host owns and exposes to guest code by id.
///
/// Every operation but `name` fails with `NotSupported` unless the resource
/// implements it. A kind of resource that implements an operation says so in
/// the matching `supports_` function; the contract of each operation holds
/// every other kind to the failure.
pub trait Resource: Send + Sync + 'static {
    /// Whether this kind of resource implements reading: `read`, `read_return`
    /// or both.
    open spec fn supports_read(&self) -> bool {
        false
    }

    /// Whether `read` of this kind of resource answers what `read_return`
    /// answers, less the buffer. A kind that implements `read` on its own says
    /// no.
    open spec fn reads_by_read_return(&self) -> bool {
        true
    }

    /// Whether this kind of resource implements writing.
    open spec fn supports_write(&self) -> bool {
        false
    }

    /// Whether this kind of resource implements a graceful shutdown.
    open spec fn supports_shutdown(&self) -> bool {
        false
    }

    /// The file descriptor that backs the resource, if one does.
    open spec fn backing_handle(&self) -> Option<i32> {
        None
    }

    /// A readable name for diagnostics.
    fn name(&self) -> String;

    /// Reads into `buf` and returns the number of bytes read: what
    /// `read_return` answers for the same buffer, less the buffer.
    fn read(self: Arc<Self>, buf: Vec<u8>) -> (r: Result<usize, CustomError>)
        ensures
            !self.supports_read() ==> is_not_supported(r),
            self.reads_by_read_return() ==> exists|outcome: Result<(usize, Vec<u8>), CustomError>|
                call_ensures(Self::read_return, (self, buf), outcome) && r == count_read(outcome),
    {
        let outcome = self.read_return(buf);
        bytes_read(outcome)
    }

    /// Reads into `buf` and hands the buffer back next to the number of bytes read.
    fn read_return(self: Arc<Self>, buf: Vec<u8>) -> (r: Result<(usize, Vec<u8>), CustomError>)
        ensures
            !self.supports_read() ==> is_not_supported(r),
    {
        Err(not_supported())
    }

    /// Writes `buf` and returns the number of bytes written.
    fn write(self: Arc<Self>, buf: Vec<u8>) -> (r: Result<usize, CustomError>)
        ensures
            !self.supports_write() ==> is_not_supported(r),
    {
        Err(not_supported())
    }

    /// Shuts the resource down gracefully.
    fn shutdown(self: Arc<Self>) -> (r: Result<(), CustomError>)
        ensures
            !self.supports_shutdown() ==> is_not_supported(r),
    {
        Err(not_supported())
    }

    /// Called when the table closes the entry, so that the resource can release
    /// what it holds.
    fn close(self: Arc<Self>) {
    }

    /// The file descriptor that backs the resource; none unless the resource has
    /// one and tells.
    fn backing_fd(self: Arc<Self>) -> (fd: Option<i32>)
        ensures
            fd is Some ==> fd == self.backing_handle(),
    {
        None
    }
}

/// An outcome of `read_return` less the buffer: the count alone, or the error.
pub open spec fn count_read(outcome: Result<(usize, Vec<u8>), CustomError>) -> Result<
    usize,
    CustomError,
> {
    match outcome {
        Ok(pair) => Ok(pair.0),
        Err(e) => Err(e),
    }
}

/// What `read` reports for an outcome of `read_return`.
pub fn bytes_read(outcome: Result<(usize, Vec<u8>), CustomError>) -> (r: Result<usize, CustomError>)
    ensures
        r == count_read(outcome),
{
    match outcome {
        Ok(pair) => Ok(pair.0),
        Err(e) => Err(e),
    }
}

/// A `T` seen as a resource of no particular type.
pub open spec fn erased<T: Resource>(resource: &T) -> &dyn Resource {
    resource
}

/// The resource to which a shared pointer leads.
pub open spec fn shared_object(pointer: &Arc<dyn Resource>) -> &dyn Resource {
    &**pointer
}

/// The second pointer of a handle, through which `Arc::downcast` recovers the
/// concrete type. Verus accepts no field of type `Arc<dyn Any + Send + Sync>`,
/// so the pointer is kept out of its sight.
#[verifier::external_body]
struct AnyArc {
    any: Arc<dyn Any + Send + Sync>,
}

/// Gives up a pointer.
fn release(any: AnyArc) {
}

/// A shared, type-erased handle to a resource.
pub struct ResourceHandle {
    resource: Arc<dyn Resource>,
    any: AnyArc,
}

impl ResourceHandle {
    /// The handle as a shared pointer to the resource.
    pub closed spec fn pointer(&self) -> &Arc<dyn Resource> {
        &self.resource
    }

    /// Whether the handle holds `resource`.
    pub open spec fn wraps<T: Resource>(&self, resource: T) -> bool {
        erased(&resource) == shared_object(self.pointer())
    }

    /// Whether the handle holds `resource` and nothing else of its type.
    pub open spec fn wraps_only<T: Resource>(&self, resource: T) -> bool {
        &&& self.wraps(resource)
        &&& forall|other: T| self.wraps(other) ==> other == resource
    }

    /// Whether the handle holds a resource of type `T`.
    pub open spec fn is_type<T: Resource>(&self) -> bool {
        exists|resource: T| self.wraps(resource)
    }

    /// Makes a handle from a shared resource. The body coerces the `Arc<T>` to
    /// the two trait objects that a handle keeps; the contract says that the
    /// handle holds the resource that was given.
    #[verifier::external_body]
    pub(crate) fn new<T: Resource>(resource: Arc<T>) -> (handle: ResourceHandle)
        ensures
            handle.wraps(*resource),
    {
        ResourceHandle { any: AnyArc { any: resource.clone() }, resource }
    }

    /// Wraps `Arc::clone` on both pointers: one more handle to the same
    /// resource.
    #[verifier::external_body]
    pub(crate) fn share(&self) -> (handle: ResourceHandle)
        ensures
            handle == *self,
    {
        ResourceHandle {
            resource: Arc::clone(&self.resource),
            any: AnyArc { any: Arc::clone(&self.any.any) },
        }
    }

    /// Wraps `Arc::downcast`, which gives the pointer back as an `Arc<T>` if the
    /// value behind it is a `T` and refuses otherwise. The contract says so over
    /// the resource that the handle holds: the result is `Some` exactly when
    /// that resource is a `T`, and then it is that resource and no other.
    #[verifier::external_body]
    fn downcast<T: Resource>(self) -> (found: Option<Arc<T>>)
        ensures
            found is Some <==> self.is_type::<T>(),
            found matches Some(resource) ==> self.wraps_only(*resource),
    {
        self.any.any.downcast::<T>().ok()
    }

    /// The resource as a `T`, if it is one.
    pub fn downcast_rc<T: Resource>(&self) -> (found: Option<Arc<T>>)
        ensures
            found is Some <==> self.is_type::<T>(),
            found matches Some(resource) ==> self.wraps_only(*resource),
    {
        self.share().downcast::<T>()
    }

    /// The name of the resource.
    pub fn name(&self) -> String {
        self.resource.name()
    }

    /// The handle as a shared pointer to the resource.
    pub fn resource(&self) -> (pointer: &Arc<dyn Resource>)
        ensures
            pointer == self.pointer(),
    {
        &self.resource
    }

    /// Gives up this handle and runs the resource's `close` hook. The hook gets
    /// the one pointer that is left of the handle.
    pub fn close(self) {
        release(self.any);
        self.resource.close()
    }
}

} // verus!
