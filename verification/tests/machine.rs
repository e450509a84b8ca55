use sonar_core::protocol::{CmdData, ScanFov, Status};
use sonar_core::state_machine::{ConnectionMachine, GuiStatus, SensorState};

#[test]
fn connect_success_and_failure() {
    // A successful attempt from Disconnected moves to Connected and
    // reports the address; a failed one stays put and reports the error.
    let m = ConnectionMachine::new();
    assert!(!m.is_connected());

    let (m, status) = m.connect(String::from("10.0.0.5:1111"), true);
    assert!(m.is_connected());
    assert_eq!(status, GuiStatus::Connected(String::from("10.0.0.5:1111")));

    let m2 = ConnectionMachine::new();
    let (m2, status) = m2.connect(String::from("10.0.0.6:1111"), false);
    assert!(!m2.is_connected());
    assert_eq!(status, GuiStatus::ErrorConnecting);
}

#[test]
fn connect_while_connected_keeps_state_but_reports_disconnected() {
    // The machine refuses a second connection and keeps its state, yet the
    // event says Disconnected: a deliberate, preserved mismatch.
    let m = ConnectionMachine::new();
    let (m, _) = m.connect(String::from("10.0.0.5:1111"), true);
    let (m, status) = m.connect(String::from("10.0.0.7:1111"), true);
    assert!(m.is_connected());
    assert_eq!(status, GuiStatus::Disconnected);
}

#[test]
fn disconnect_from_either_state() {
    let m = ConnectionMachine::new();
    let (m, status) = m.disconnect();
    assert!(!m.is_connected());
    assert_eq!(status, GuiStatus::Disconnected);

    let (m, _) = m.connect(String::from("10.0.0.5:1111"), true);
    let (m, status) = m.disconnect();
    assert!(!m.is_connected());
    assert_eq!(status, GuiStatus::Disconnected);
}

#[test]
fn send_while_connected() {
    let m = ConnectionMachine::new();
    let (m, _) = m.connect(String::from("10.0.0.5:1111"), true);

    let cmd = CmdData::FoV(ScanFov::Narrow);
    let (m, status) = m.send_data(cmd, true);
    assert!(m.is_connected());
    assert_eq!(status, GuiStatus::Sent(cmd));

    // A failed write reports the error but keeps the connection open.
    let (m, status) = m.send_data(CmdData::Reset, false);
    assert!(m.is_connected());
    assert_eq!(status, GuiStatus::ErrorSending);
}

#[test]
fn send_while_disconnected_only_reports() {
    let m = ConnectionMachine::new();
    let (m, status) = m.send_data(CmdData::Operation(Status::Start), false);
    assert!(!m.is_connected());
    assert_eq!(status, GuiStatus::ErrorSending);
}

#[test]
fn sensor_state_ready() {
    assert!(SensorState { connection: true, status: Status::Start }.ready());
    assert!(!SensorState { connection: true, status: Status::Stop }.ready());
    assert!(!SensorState { connection: false, status: Status::Start }.ready());
    assert!(!SensorState { connection: false, status: Status::Stop }.ready());
}
