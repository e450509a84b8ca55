//! The node's command ingestion decisions.
//!
//! The surrounding listener accepts one inbound connection at a time and
//! reads fixed 8-byte frames from it; each read gives one [`ReadEvent`].
//! The functions here decide what each event means: a decoded command is
//! forwarded to the sweep controller, while a closed peer or a malformed
//! frame ends the connection with exactly one forwarded `Reset`, after
//! which the listener goes back to accepting.

use vstd::prelude::*;
use crate::protocol::CmdData;
use crate::protocol::{spec_decode_command, decode_command};

verus! {

/// One observation made on the command connection: a full frame arrived,
/// or the read failed (peer closed, stream broken).
#[derive(Debug, Clone, PartialEq, Eq)]
pub enum ReadEvent {
    Frame(Vec<u8>),
    Closed,
}

/// What the pipeline does with one event.
#[derive(Debug, Clone, Copy, PartialEq, Eq, Structural)]
pub enum IngestAction {
    /// Hand this command to the sweep controller.
    Forward(CmdData),
    /// Hand the sweep controller a `Reset`, drop the connection, and go
    /// back to accepting a new one.
    ResetConnection,
}

/// The event decodes to a command (so the session continues past it).
pub open spec fn spec_event_ok(ev: ReadEvent) -> bool {
    match ev {
        ReadEvent::Frame(b) => spec_decode_command(b@) is Ok,
        ReadEvent::Closed => false,
    }
}

/// The command an event carries, when it carries one.
pub open spec fn spec_event_cmd(ev: ReadEvent) -> CmdData
    recommends
        spec_event_ok(ev),
{
    match ev {
        ReadEvent::Frame(b) => spec_decode_command(b@)->Ok_0,
        ReadEvent::Closed => CmdData::Reset,
    }
}

/// Decides one event: forward the decoded command, or end the connection
/// on a closed peer or a malformed frame.
pub fn ingest_step(ev: &ReadEvent) -> (a: IngestAction)
    ensures
        spec_event_ok(*ev) ==> a == IngestAction::Forward(spec_event_cmd(*ev)),
        !spec_event_ok(*ev) ==> a == IngestAction::ResetConnection,
{
    match ev {
        ReadEvent::Closed => IngestAction::ResetConnection,
        ReadEvent::Frame(b) => {
            match decode_command(b.as_slice()) {
                Ok(c) => IngestAction::Forward(c),
                Err(_) => IngestAction::ResetConnection,
            }
        },
    }
}

/// The commands one whole connection forwards, given everything read from
/// it in order: the decoded commands up to the first failed read or
/// malformed frame, which contributes a single final `Reset` and ends the
/// session. Reads after that point belong to no session and contribute
/// nothing.
pub open spec fn spec_session_commands(reads: Seq<ReadEvent>) -> Seq<CmdData>
    decreases reads.len(),
{
    if reads.len() == 0 {
        Seq::<CmdData>::empty()
    } else if spec_event_ok(reads[0]) {
        seq![spec_event_cmd(reads[0])] + spec_session_commands(reads.drop_first())
    } else {
        seq![CmdData::Reset]
    }
}

/// Processes one connection's reads in order and collects the forwarded
/// commands, exactly as [`spec_session_commands`] describes.
pub fn ingest_session(reads: &Vec<ReadEvent>) -> (out: Vec<CmdData>)
    ensures
        out@ == spec_session_commands(reads@),
{
    let mut out: Vec<CmdData> = Vec::new();
    let mut i: usize = 0;
    proof {
        assert(reads@.subrange(0, reads@.len() as int) =~= reads@);
    }
    while i < reads.len()
        invariant
            i <= reads@.len(),
            spec_session_commands(reads@) == out@ + spec_session_commands(
                reads@.subrange(i as int, reads@.len() as int),
            ),
        decreases reads@.len() - i,
    {
        let ghost rest = reads@.subrange(i as int, reads@.len() as int);
        proof {
            assert(rest[0] == reads@[i as int]);
            assert(rest.drop_first() =~= reads@.subrange(i as int + 1, reads@.len() as int));
        }
        match ingest_step(&reads[i]) {
            IngestAction::Forward(c) => {
                out.push(c);
            },
            IngestAction::ResetConnection => {
                out.push(CmdData::Reset);
                proof {
                    assert(spec_session_commands(rest) == seq![CmdData::Reset]);
                    assert(spec_session_commands(reads@) =~= out@);
                }
                return out;
            },
        }
        i += 1;
    }
    proof {
        assert(out@ + spec_session_commands(
            reads@.subrange(i as int, reads@.len() as int),
        ) =~= out@);
    }
    out
}

/// A connection that closes mid-stream forwards exactly one `Reset`, as
/// its last command: when every earlier read is a well-formed frame whose
/// command is not itself `Reset`, the session output is those commands in
/// order followed by a single `Reset` and nothing else.
pub proof fn lemma_close_forwards_single_reset(reads: Seq<ReadEvent>)
    requires
        reads.len() > 0,
        !spec_event_ok(reads[reads.len() - 1]),
        forall|j: int| 0 <= j < reads.len() - 1 ==> spec_event_ok(#[trigger] reads[j]) && !(
        spec_event_cmd(reads[j]) is Reset),
    ensures
        spec_session_commands(reads).len() == reads.len(),
        spec_session_commands(reads)[reads.len() - 1] is Reset,
        forall|j: int| 0 <= j < reads.len() - 1 ==> #[trigger] spec_session_commands(reads)[j]
            == spec_event_cmd(reads[j]) && !(spec_session_commands(reads)[j] is Reset),
    decreases reads.len(),
{
    if reads.len() == 1 {
    } else {
        let rest = reads.drop_first();
        assert forall|j: int| 0 <= j < rest.len() - 1 implies spec_event_ok(#[trigger] rest[j])
            && !(spec_event_cmd(rest[j]) is Reset) by {
            assert(rest[j] == reads[j + 1]);
        }
        assert(rest[rest.len() - 1] == reads[reads.len() - 1]);
        lemma_close_forwards_single_reset(rest);
    }
}

} // verus!
