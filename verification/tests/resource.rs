use host_bridge::{bytes_read, not_supported, CustomError, Resource, ResourceTable};
use std::sync::atomic::{AtomicUsize, Ordering};
use std::sync::Arc;

struct Plain;

impl Resource for Plain {
    fn name(&self) -> String {
        "plain".to_string()
    }
}

struct Echo {
    closed: AtomicUsize,
}

impl Resource for Echo {
    fn name(&self) -> String {
        "echo".to_string()
    }

    fn read_return(self: Arc<Self>, mut buf: Vec<u8>) -> Result<(usize, Vec<u8>), CustomError> {
        buf.push(9);
        Ok((buf.len(), buf))
    }

    fn write(self: Arc<Self>, buf: Vec<u8>) -> Result<usize, CustomError> {
        Ok(buf.len())
    }

    fn close(self: Arc<Self>) {
        self.closed.fetch_add(1, Ordering::SeqCst);
    }

    fn backing_fd(self: Arc<Self>) -> Option<i32> {
        Some(3)
    }
}

struct Direct;

impl Resource for Direct {
    fn name(&self) -> String {
        "direct".to_string()
    }

    fn read(self: Arc<Self>, buf: Vec<u8>) -> Result<usize, CustomError> {
        Ok(buf.len())
    }
}

fn is_not_supported(e: &CustomError) -> bool {
    e.class() == "NotSupported" && e.message() == "The operation is not supported"
}

#[test]
fn operations_are_not_supported_by_default() {
    let plain = Arc::new(Plain);
    assert!(is_not_supported(&plain.clone().read(vec![0; 4]).unwrap_err()));
    assert!(is_not_supported(&plain.clone().read_return(vec![0; 4]).unwrap_err()));
    assert!(is_not_supported(&plain.clone().write(vec![1, 2]).unwrap_err()));
    assert!(is_not_supported(&plain.clone().shutdown().unwrap_err()));
    assert_eq!(plain.clone().backing_fd(), None);
    plain.close();
}

#[test]
fn read_goes_through_read_return() {
    let echo = Arc::new(Echo { closed: AtomicUsize::new(0) });
    assert_eq!(echo.clone().read(vec![1, 2, 3]).unwrap(), 4);
    let (count, buf) = echo.clone().read_return(vec![1, 2, 3]).unwrap();
    assert_eq!(count, 4);
    assert_eq!(buf, vec![1, 2, 3, 9]);
}

#[test]
fn read_alone_can_be_implemented() {
    let direct = Arc::new(Direct);
    assert_eq!(direct.clone().read(vec![1, 2, 3]).unwrap(), 3);
    assert!(is_not_supported(&direct.clone().read_return(vec![1, 2, 3]).unwrap_err()));
}

#[test]
fn overridden_operations_answer() {
    let echo = Arc::new(Echo { closed: AtomicUsize::new(0) });
    assert_eq!(echo.clone().write(vec![1, 2]).unwrap(), 2);
    assert_eq!(echo.clone().backing_fd(), Some(3));
    assert!(is_not_supported(&echo.clone().shutdown().unwrap_err()));
}

#[test]
fn bytes_read_keeps_the_count() {
    assert_eq!(bytes_read(Ok((5, vec![1, 2]))).unwrap(), 5);
    assert_eq!(bytes_read(Ok((0, Vec::new()))).unwrap(), 0);
}

#[test]
fn bytes_read_passes_the_error_on() {
    let e = bytes_read(Err(not_supported())).unwrap_err();
    assert!(is_not_supported(&e));
}

#[test]
fn handle_gives_the_name() {
    let mut table = ResourceTable::new();
    let rid = table.add(Plain);
    let handle = table.get_any(rid).ok().unwrap();
    assert_eq!(handle.name(), "plain");
    assert_eq!(handle.resource().name(), "plain");
}

#[test]
fn handle_downcasts_to_its_own_type_only() {
    let mut table = ResourceTable::new();
    let rid = table.add(Echo { closed: AtomicUsize::new(7) });
    let handle = table.get_any(rid).ok().unwrap();
    assert!(handle.downcast_rc::<Plain>().is_none());
    let echo = handle.downcast_rc::<Echo>().unwrap();
    assert_eq!(echo.closed.load(Ordering::SeqCst), 7);
}

#[test]
fn handle_downcast_is_the_resource_that_was_added() {
    let shared = Arc::new(Echo { closed: AtomicUsize::new(0) });
    let mut table = ResourceTable::new();
    let rid = table.add_rc(shared.clone());
    let handle = table.get_any(rid).ok().unwrap();
    let found = handle.downcast_rc::<Echo>().unwrap();
    assert!(Arc::ptr_eq(&shared, &found));
}

#[test]
fn handle_close_runs_the_hook_once() {
    let shared = Arc::new(Echo { closed: AtomicUsize::new(0) });
    let mut table = ResourceTable::new();
    let rid = table.add_rc(shared.clone());
    let handle = table.get_any(rid).ok().unwrap();
    handle.close();
    assert_eq!(shared.closed.load(Ordering::SeqCst), 1);
    assert!(table.has(rid));
}

#[test]
fn operations_reach_the_resource_through_a_handle() {
    let mut table = ResourceTable::new();
    let rid = table.add(Echo { closed: AtomicUsize::new(0) });
    let handle = table.get_any(rid).ok().unwrap();
    assert_eq!(handle.resource().clone().write(vec![1, 2, 3]).unwrap(), 3);
    assert_eq!(handle.resource().clone().read(Vec::new()).unwrap(), 1);
}
