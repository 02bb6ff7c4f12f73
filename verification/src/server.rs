//! The concurrency-safe holder of the latest metrics snapshot.
//!
//! One `Buffer` sits behind a verified reader-writer lock, shared by
//! reference count between the producer and every request handler. A
//! producer replaces the payload wholesale under the write lock; a reader
//! copies it out under the read lock. The lock makes each of the two
//! critical sections atomic, so no reader ever observes a payload whose
//! length and contents disagree, and it is never held across any network
//! write.

use std::sync::Arc;

use vstd::prelude::*;
use vstd::rwlock::{RwLock, RwLockPredicate};

use crate::buffer::Buffer;
use crate::request::{respond_to, spec_status, HttpResponse, Method};

verus! {

/// The lock's invariant on the stored buffer: any payload is admissible,
/// since the crate imposes no structure on the bytes.
pub struct AnyPayload;

impl RwLockPredicate<Buffer> for AnyPayload {
    open spec fn inv(self, b: Buffer) -> bool {
        true
    }
}

/// A thread-safe holder of the latest metrics payload.
///
/// Cloning yields another handle to the same shared buffer.
#[derive(Clone)]
pub struct MetricsServer {
    shared: Arc<RwLock<Buffer, AnyPayload>>,
}

impl MetricsServer {
    /// Creates a new empty `MetricsServer`: a zero-length buffer under a
    /// fresh lock, with no backing storage reserved.
    pub fn new() -> (s: MetricsServer) {
        MetricsServer { shared: Arc::new(RwLock::new(Buffer::empty(), Ghost(AnyPayload))) }
    }

    /// Replaces the stored payload wholesale with `data` and returns the
    /// number of bytes now stored.
    ///
    /// The exchange happens under the write lock: every snapshot observes
    /// either the payload from before this call or `data` entirely, never a
    /// partial write. Safe to call concurrently from several threads;
    /// updates are totally ordered by lock acquisition.
    pub fn update(&self, data: Vec<u8>) -> (n: usize)
        ensures
            n == data@.len(),
    {
        let (buf, write_handle) = self.shared.acquire_write();
        let mut buf = buf;
        let n = buf.replace(data);
        write_handle.release_write(buf);
        n
    }

    /// Returns a copy of the payload as observed at one atomic read.
    pub fn snapshot(&self) -> (r: Vec<u8>) {
        let read_handle = self.shared.acquire_read();
        let r = read_handle.borrow().contents();
        read_handle.release_read();
        r
    }

    /// Answers one whole request: takes a snapshot of the shared buffer and
    /// builds the response for the given method and path.
    ///
    /// The status code depends on the request alone. The body is the
    /// snapshot on success; on any rejection it is empty, whatever the
    /// buffer holds.
    pub fn handle_request(&self, method: Method, path: &str) -> (r: HttpResponse)
        ensures
            r.status as int == spec_status(method, path@),
            spec_status(method, path@) != 200 ==> r.body@ == Seq::<u8>::empty(),
    {
        let snap = self.snapshot();
        respond_to(method, path, snap)
    }
}

impl Default for MetricsServer {
    /// Same as [`MetricsServer::new`].
    fn default() -> MetricsServer {
        MetricsServer::new()
    }
}

} // verus!
