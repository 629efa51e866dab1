use coordinator::Fault;

fn all_faults() -> Vec<Fault> {
    vec![
        Fault::NotFound,
        Fault::Conflict,
        Fault::ResourceExhausted,
        Fault::StoreUnavailable,
        Fault::Unexpected,
    ]
}

#[test]
fn fault_codes_are_stable() {
    assert_eq!(Fault::NotFound.code(), -32001);
    assert_eq!(Fault::Conflict.code(), -32002);
    assert_eq!(Fault::ResourceExhausted.code(), -32003);
    assert_eq!(Fault::StoreUnavailable.code(), -32004);
    assert_eq!(Fault::Unexpected.code(), -32603);
}

#[test]
fn fault_codes_tell_the_kinds_apart() {
    let faults = all_faults();
    for a in 0..faults.len() {
        for b in 0..faults.len() {
            assert_eq!(faults[a].code() == faults[b].code(), a == b);
        }
    }
}

#[test]
fn fault_code_reads_back() {
    for fault in all_faults() {
        assert_eq!(Fault::from_code(fault.code()), Some(fault));
    }
}

#[test]
fn unknown_code_is_no_fault() {
    assert_eq!(Fault::from_code(0), None);
    assert_eq!(Fault::from_code(-32000), None);
    assert_eq!(Fault::from_code(-32005), None);
    assert_eq!(Fault::from_code(32001), None);
    assert_eq!(Fault::from_code(i64::MIN), None);
}

#[test]
fn fault_messages() {
    assert_eq!(Fault::NotFound.message(), "not found");
    assert_eq!(Fault::Conflict.message(), "conflict");
    assert_eq!(Fault::ResourceExhausted.message(), "resource exhausted");
    assert_eq!(Fault::StoreUnavailable.message(), "store unavailable");
    assert_eq!(Fault::Unexpected.message(), "unexpected store state");
}
