use vstd::prelude::*;

use crate::parser::{decode_bytes, decode_bytes_slices_inside_char, Packet};
use crate::socket::events::{dispatch_events, dispatch_events_of};

verus! {

/// What the listener worker read from the connection.
pub enum FrameRead {
    /// A text or binary frame, with its payload.
    Data(Vec<u8>),
    /// A close frame.
    Close,
    /// A frame of another kind.
    Other,
    /// An I/O error; `eof` when it is an unexpected end of file.
    IoError { eof: bool },
    /// The connection ended in the middle of a frame.
    UnexpectedEof,
    /// Any other failure.
    Failure,
}

/// Why the worker tells the `close` listeners that the connection closed.
#[derive(Debug, Clone, Copy, PartialEq, Eq, Structural)]
pub enum CloseReason {
    /// The connection ended unexpectedly.
    UnexpectedEof,
    /// The server sent a close frame.
    Closed,
    /// Reading failed in another way, which the caller describes.
    Unknown,
}

/// What the listener worker does next.
pub enum WorkerStep {
    /// Go on reading.
    Continue,
    /// Hand the packet to the listeners of these events in order, then to the listener for
    /// every event, and go on reading.
    Dispatch { packet: Packet, events: Vec<String> },
    /// Hand the `close` listeners the reason, waiting for them when `wait`, and stop.
    Close { reason: CloseReason, wait: bool },
    /// Stop reading.
    Stop,
    /// Stop as the worker stops on a frame that cannot be decoded without slicing inside a
    /// character.
    Abort,
}

/// The text the `close` listeners get for a reason (for `Unknown`, the start of it).
pub open spec fn close_reason_text(reason: CloseReason) -> Seq<char> {
    match reason {
        CloseReason::UnexpectedEof => "Unexpected EOF"@,
        CloseReason::Closed => "Close"@,
        CloseReason::Unknown => "Unknown: "@,
    }
}

/// The text the `close` listeners get for a reason; for `Unknown` the caller writes the
/// failure it describes after it.
pub fn close_reason_str(reason: CloseReason) -> (r: &'static str)
    ensures
        r@ == close_reason_text(reason),
{
    match reason {
        CloseReason::UnexpectedEof => "Unexpected EOF",
        CloseReason::Closed => "Close",
        CloseReason::Unknown => "Unknown: ",
    }
}

/// Decides what the listener worker does with what it read: data frames are decoded and
/// dispatched (frames that do not decode are skipped), a close frame or an unexpected end
/// closes, any other failure closes with its description, and other I/O errors stop the
/// worker silently.
pub fn worker_step(read: FrameRead) -> (r: WorkerStep)
    ensures
        match read {
            FrameRead::Data(payload) => if decode_bytes_slices_inside_char(payload@) {
                r is Abort
            } else {
                match decode_bytes(payload@) {
                    Ok(p) => r matches WorkerStep::Dispatch { packet, events } && packet@ == p
                        && events@.map_values(|s: String| s@) == dispatch_events(p),
                    Err(_) => r is Continue,
                }
            },
            FrameRead::Close => r matches WorkerStep::Close { reason, wait } && reason
                == CloseReason::Closed && !wait,
            FrameRead::Other => r is Continue,
            FrameRead::IoError { eof } => if eof {
                r matches WorkerStep::Close { reason, wait } && reason
                    == CloseReason::UnexpectedEof && wait
            } else {
                r is Stop
            },
            FrameRead::UnexpectedEof => r matches WorkerStep::Close { reason, wait } && reason
                == CloseReason::UnexpectedEof && wait,
            FrameRead::Failure => r matches WorkerStep::Close { reason, wait } && reason
                == CloseReason::Unknown && wait,
        },
{
    match read {
        FrameRead::Data(payload) => {
            if Packet::decode_slices_inside_char(payload.as_slice()) {
                return WorkerStep::Abort;
            }
            match Packet::decode(payload.as_slice()) {
                Ok(packet) => {
                    let events = dispatch_events_of(&packet);
                    WorkerStep::Dispatch { packet, events }
                },
                Err(_) => WorkerStep::Continue,
            }
        },
        FrameRead::Close => WorkerStep::Close { reason: CloseReason::Closed, wait: false },
        FrameRead::Other => WorkerStep::Continue,
        FrameRead::IoError { eof } => {
            if eof {
                WorkerStep::Close { reason: CloseReason::UnexpectedEof, wait: true }
            } else {
                WorkerStep::Stop
            }
        },
        FrameRead::UnexpectedEof => WorkerStep::Close {
            reason: CloseReason::UnexpectedEof,
            wait: true,
        },
        FrameRead::Failure => WorkerStep::Close { reason: CloseReason::Unknown, wait: true },
    }
}

} // verus!
