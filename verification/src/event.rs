//! Raw events captured beside the traffic that the proxy passes through.
use vstd::prelude::*;

use crate::json::{Json, JsonView};

verus! {

/// A captured event. The id ties a response to its request.
#[derive(Debug, Clone)]
pub enum RawEvent {
    Request { id: u128, method: String, path: String, headers: Json, body: Vec<u8> },
    ResponseChunk { id: u128, seq: u64, chunk: Vec<u8> },
    ResponseDone { id: u128, status: u16 },
}

/// What a [`RawEvent`] says.
pub enum EventView {
    Request {
        id: u128,
        method: Seq<char>,
        path: Seq<char>,
        headers: JsonView,
        body: Seq<u8>,
    },
    ResponseChunk { id: u128, seq: u64, chunk: Seq<u8> },
    ResponseDone { id: u128, status: u16 },
}

impl View for RawEvent {
    type V = EventView;

    open spec fn view(&self) -> EventView {
        match self {
            RawEvent::Request { id, method, path, headers, body } => EventView::Request {
                id: *id,
                method: method@,
                path: path@,
                headers: headers@,
                body: body@,
            },
            RawEvent::ResponseChunk { id, seq, chunk } => EventView::ResponseChunk {
                id: *id,
                seq: *seq,
                chunk: chunk@,
            },
            RawEvent::ResponseDone { id, status } => EventView::ResponseDone {
                id: *id,
                status: *status,
            },
        }
    }
}

/// How many events the capture channel holds. When it is full, events are
/// dropped: capture never holds up the traffic.
pub const RAW_CHANNEL_CAPACITY: usize = 1024;

}
