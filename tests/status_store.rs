use vm_monitor::message::{cpu_error_message, cpu_warn_message, memory_error_message, memory_warn_message};
use vm_monitor::status::{Status, StatusError, StatusStore};

#[test]
fn init_sets_clean() {
    let mut store = StatusStore::Uninitialized;
    Status::init(&mut store);
    assert_eq!(store, StatusStore::Ready(Status::Clean));
    assert_eq!(Status::get(&store), Ok(Status::Clean));
}

#[test]
fn init_keeps_existing_status() {
    let mut store = StatusStore::Ready(Status::CpuWarn);
    Status::init(&mut store);
    assert_eq!(store, StatusStore::Ready(Status::CpuWarn));
    let mut poisoned = StatusStore::Poisoned;
    Status::init(&mut poisoned);
    assert_eq!(poisoned, StatusStore::Poisoned);
}

#[test]
fn set_then_get() {
    let mut store = StatusStore::Uninitialized;
    Status::init(&mut store);
    assert_eq!(Status::set(&mut store, Status::CpuError), Ok(()));
    assert_eq!(Status::get(&store), Ok(Status::CpuError));
    assert_eq!(Status::set(&mut store, Status::Clean), Ok(()));
    assert_eq!(Status::get(&store), Ok(Status::Clean));
}

#[test]
fn uninitialized_store_errors() {
    let mut store = StatusStore::Uninitialized;
    assert_eq!(Status::get(&store), Err(StatusError::Uninitialized));
    assert_eq!(Status::set(&mut store, Status::CpuWarn), Err(StatusError::Uninitialized));
    assert_eq!(store, StatusStore::Uninitialized);
}

#[test]
fn poisoned_store_errors() {
    let mut store = StatusStore::Poisoned;
    assert_eq!(Status::get(&store), Err(StatusError::Poisoned));
    assert_eq!(Status::set(&mut store, Status::CpuWarn), Err(StatusError::Poisoned));
    assert_eq!(store, StatusStore::Poisoned);
}

#[test]
fn decorators_wrap_main_block() {
    assert_eq!(memory_error_message("M"), "\n!!! MEMORY USAGE AT CRITICAL THRESHOLD !!!\nM");
    assert_eq!(cpu_error_message("M"), "\n!!! CPU USAGE AT CRITICAL THRESHOLD !!!\nM");
    assert_eq!(memory_warn_message("M"), "\n!!! memory usage at dangerous threshold !!!\nM");
    assert_eq!(cpu_warn_message(""), "\n!!! cpu usage at dangerous threshold !!!\n");
}
