use sonar_core::ingest::{IngestAction, ReadEvent, ingest_session, ingest_step};
use sonar_core::protocol::{CmdData, ScanFov, Status, encode_command};

#[test]
fn step_forwards_decoded_frames() {
    let cmd = CmdData::Operation(Status::Start);
    let ev = ReadEvent::Frame(encode_command(&cmd));
    assert_eq!(ingest_step(&ev), IngestAction::Forward(cmd));
}

#[test]
fn step_resets_on_closed_peer() {
    assert_eq!(ingest_step(&ReadEvent::Closed), IngestAction::ResetConnection);
}

#[test]
fn step_resets_on_malformed_frame() {
    let ev = ReadEvent::Frame(vec![9, 9, 9, 9, 9, 9, 9, 9]);
    assert_eq!(ingest_step(&ev), IngestAction::ResetConnection);
    let short = ReadEvent::Frame(vec![0, 0]);
    assert_eq!(ingest_step(&short), IngestAction::ResetConnection);
}

#[test]
fn session_closing_mid_stream_forwards_exactly_one_reset() {
    // Two good frames, then the peer goes away: the session forwards the
    // two commands in order and exactly one Reset, then ends so that the
    // listener can accept the next connection.
    let reads = vec![
        ReadEvent::Frame(encode_command(&CmdData::FoV(ScanFov::Narrow))),
        ReadEvent::Frame(encode_command(&CmdData::Operation(Status::Start))),
        ReadEvent::Closed,
    ];
    let out = ingest_session(&reads);
    assert_eq!(
        out,
        vec![
            CmdData::FoV(ScanFov::Narrow),
            CmdData::Operation(Status::Start),
            CmdData::Reset,
        ]
    );
    assert_eq!(out.iter().filter(|c| matches!(c, CmdData::Reset)).count(), 1);
}

#[test]
fn session_stops_at_malformed_frame() {
    // A malformed frame ends the session the same way a closed peer does;
    // later reads belong to no session.
    let reads = vec![
        ReadEvent::Frame(encode_command(&CmdData::Operation(Status::Stop))),
        ReadEvent::Frame(vec![7, 7, 7, 7, 7, 7, 7, 7]),
        ReadEvent::Frame(encode_command(&CmdData::Reset)),
    ];
    let out = ingest_session(&reads);
    assert_eq!(out, vec![CmdData::Operation(Status::Stop), CmdData::Reset]);
}

#[test]
fn session_of_good_frames_forwards_them_all() {
    let cmds = [
        CmdData::FoV(ScanFov::Wide),
        CmdData::Operation(Status::Start),
        CmdData::Operation(Status::Stop),
        CmdData::Reset,
    ];
    let reads: Vec<ReadEvent> =
        cmds.iter().map(|c| ReadEvent::Frame(encode_command(c))).collect();
    assert_eq!(ingest_session(&reads), cmds.to_vec());
}
