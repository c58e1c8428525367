use heat_exchanger::runtime::{failure, ContainerState, Inspection, RuntimeError};

#[test]
fn unknown_container_is_not_found() {
    assert_eq!(failure(Some(404)), RuntimeError::NotFound);
}

#[test]
fn other_failures_are_transient() {
    assert_eq!(failure(None), RuntimeError::Transient);
    assert_eq!(failure(Some(500)), RuntimeError::Transient);
    assert_eq!(failure(Some(409)), RuntimeError::Transient);
    assert_eq!(failure(Some(403)), RuntimeError::Transient);
}

#[test]
fn running_container_is_reported_running() {
    let report = Inspection { state: Some(ContainerState { running: Some(true) }) };
    assert_eq!(report.running(), Ok(true));
}

#[test]
fn stopped_container_is_reported_not_running() {
    let report = Inspection { state: Some(ContainerState { running: Some(false) }) };
    assert_eq!(report.running(), Ok(false));
}

#[test]
fn state_that_does_not_say_counts_as_not_running() {
    let report = Inspection { state: Some(ContainerState { running: None }) };
    assert_eq!(report.running(), Ok(false));
}

#[test]
fn report_without_state_is_a_failure() {
    let report = Inspection { state: None };
    assert_eq!(report.running(), Err(RuntimeError::Transient));
}
