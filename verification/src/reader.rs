//! The command reader's per-line step: classify one raw input line,
//! publish commands to the engine loop over the session channel, and
//! answer probes directly. The caller owns the blocking read itself.

use vstd::prelude::*;
use crate::protocol::{
    classify_line, classify_spec, handshake_lines, ActionModel, LineAction, TeiCommand,
};
use crate::text::concat_str;

verus! {

#[verifier::external_type_specification]
#[verifier::external_body]
#[verifier::reject_recursive_types(T)]
pub struct ExSender<T>(crossbeam_channel::Sender<T>);

/// Relies on crossbeam_channel::Sender::send: on an unbounded channel it
/// never blocks, delivers messages to the receiver in the order they were
/// sent, and returns an error exactly when every receiver has been
/// dropped. Whether the receiver still lives is outside this crate's
/// reasoning, so nothing is promised of the flag.
#[verifier::external_body]
fn send_command(chan: &crossbeam_channel::Sender<TeiCommand>, cmd: TeiCommand) -> (ok: bool) {
    chan.send(cmd).is_ok()
}

/// What one reader step asks of its caller.
pub struct ReaderStep {
    /// Lines to print directly, bypassing the command queue.
    pub lines: Vec<String>,
    /// The reading loop is over: `quit` was published, or the queue is gone.
    pub stop_reading: bool,
    /// The engine loop has disconnected; the session is over.
    pub channel_closed: bool,
}

/// The publishing half of the session: it owns the sending side of the
/// command queue for the lifetime of the protocol session.
pub struct CommandReader {
    chan: crossbeam_channel::Sender<TeiCommand>,
}

impl CommandReader {
    pub fn new(chan: crossbeam_channel::Sender<TeiCommand>) -> (r: CommandReader) {
        CommandReader { chan }
    }

    /// Handles one raw input line: the identification handshake and the
    /// readiness reply are emitted directly, commands are published in
    /// reading order, unrecognized lines are only reported. Reading stops
    /// for good once `quit` is published or the queue is disconnected.
    pub fn process_line(&self, line: &str) -> (r: ReaderStep)
        ensures
            ({
                let a = classify_spec(line@);
                match a {
                    ActionModel::Identify => r.lines@.len() == 3 && r.lines@[0]@
                        == "id name Topaz"@ && r.lines@[1]@ == "id author Justin Kur"@
                        && r.lines@[2]@ == "teiok"@ && !r.stop_reading && !r.channel_closed,
                    ActionModel::ReadyOk => r.lines@.len() == 1 && r.lines@[0]@ == "readyok"@
                        && !r.stop_reading && !r.channel_closed,
                    ActionModel::Publish(c) => r.lines@.len() == 0 && (r.stop_reading <==> (
                    c is Quit || r.channel_closed)),
                    ActionModel::Diagnostic(t) => r.lines@.len() == 1 && r.lines@[0]@
                        == "Unknown Tei Command: "@ + t && !r.stop_reading && !r.channel_closed,
                }
            }),
    {
        let a = classify_line(line);
        match a {
            LineAction::Identify => ReaderStep {
                lines: handshake_lines(),
                stop_reading: false,
                channel_closed: false,
            },
            LineAction::ReadyOk => {
                let mut lines: Vec<String> = Vec::new();
                lines.push(String::from_str("readyok"));
                ReaderStep { lines, stop_reading: false, channel_closed: false }
            },
            LineAction::Publish(c) => {
                let is_quit = match &c {
                    TeiCommand::Quit => true,
                    _ => false,
                };
                let sent = send_command(&self.chan, c);
                ReaderStep {
                    lines: Vec::new(),
                    stop_reading: is_quit || !sent,
                    channel_closed: !sent,
                }
            },
            LineAction::Diagnostic(t) => {
                let mut lines: Vec<String> = Vec::new();
                lines.push(concat_str("Unknown Tei Command: ", t.as_str()));
                ReaderStep { lines, stop_reading: false, channel_closed: false }
            },
        }
    }
}

} // verus!
