use resource_sim::error::ExecutionError;
use resource_sim::error::NumericErrorKind;
use resource_sim::error::ResourceError;
use resource_sim::memory::Memory;
use resource_sim::resource::Resource;
use resource_sim::resource::ResourceKind;
use resource_sim::thread::Thread;

#[test]
fn message_of_wrong_kind() {
    let e = Memory::from_resource(Resource::Thread { num: 4 }).unwrap_err();
    assert_eq!(e.message(), "Expected Memory resource, got Thread resource");
    let e = Thread::from_resource(Resource::Memory {
        arg: "1K".to_string(),
    })
    .unwrap_err();
    assert_eq!(e.message(), "Expected Thread resource, got Memory resource");
}

#[test]
fn message_of_invalid_suffix() {
    let e = Memory::from_resource(Resource::Memory {
        arg: "10".to_string(),
    })
    .unwrap_err();
    assert_eq!(e, ResourceError::InvalidSuffix);
    assert_eq!(e.message(), "Invalid memory size suffix. Use B, K, M, or G.");
}

#[test]
fn message_of_invalid_number() {
    let e = Memory::from_resource(Resource::Memory {
        arg: "abcK".to_string(),
    })
    .unwrap_err();
    assert_eq!(
        e.message(),
        "Failed to parse memory size 'abc': invalid digit found in string"
    );
    let e = Memory::from_resource(Resource::Memory {
        arg: "K".to_string(),
    })
    .unwrap_err();
    assert_eq!(
        e.message(),
        "Failed to parse memory size '': cannot parse integer from empty string"
    );
    let e = Memory::from_resource(Resource::Memory {
        arg: "18446744073709551616B".to_string(),
    })
    .unwrap_err();
    assert_eq!(
        e.message(),
        "Failed to parse memory size '18446744073709551616': number too large to fit in target type"
    );
}

#[test]
fn message_of_each_numeric_error() {
    assert_eq!(
        NumericErrorKind::Empty.message(),
        "cannot parse integer from empty string"
    );
    assert_eq!(
        NumericErrorKind::InvalidDigit.message(),
        "invalid digit found in string"
    );
    assert_eq!(
        NumericErrorKind::Overflow.message(),
        "number too large to fit in target type"
    );
}

#[test]
fn message_of_each_fatal_error() {
    assert_eq!(
        ExecutionError::AllocationFailure.message(),
        "Memory allocation failed"
    );
    assert_eq!(
        ExecutionError::ZeroSizeAllocation.message(),
        "Memory size must be greater than 0"
    );
    assert_eq!(ExecutionError::WorkerPanic.message(), "Thread panicked");
    assert_eq!(
        ExecutionError::ResultInconsistency.message(),
        "Inconsistent results from threads"
    );
}

#[test]
fn name_of_each_kind() {
    assert_eq!(ResourceKind::Memory.name(), "Memory");
    assert_eq!(ResourceKind::Thread.name(), "Thread");
}
