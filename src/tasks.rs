//! The messages that pass between the interface and its two workers, and
//! the streaming worker's decisions.
//!
//! Three threads run: the interface, a worker that evaluates scripts, and a
//! worker that runs streams. Requests go to each worker on a channel of its
//! own; both workers answer on one channel back to the interface.
use vstd::prelude::*;
use vstd::string::*;
use serde_json::Value;
use crate::config::{eth_explorer_url, Spkg};
use crate::text::{decimal_i64, decimal_u64, signed_decimal, decimal};

verus! {

/// A request to the script worker.
pub enum WorkerMessage {
    /// Compile and evaluate a script against the persistent scope.
    Eval(String),
    /// Call a function of the built code with positional JSON arguments.
    EvalWithArgs(String, Vec<Value>),
    /// Clear the persistent scope.
    Reset,
    /// Call the script's `codegen` entry point.
    Build,
}

/// A notice for the interface.
pub enum GuiMessage {
    /// A line of text for the message log.
    PushMessage(String),
    /// A JSON text for the message log.
    PushJson(String),
    /// A JSON text fetched for a block-cache slot.
    SetBlock(u8, String),
    /// Clear the message log.
    ClearMessages,
}

/// A request to the streaming worker.
pub enum StreamMessages {
    /// Stream a module's output over a block range.
    Run {
        start: i64,
        stop: u64,
        api_key: String,
        package_file: String,
        endpoint: String,
        module_name: String,
    },
    /// Fetch one block into a block-cache slot.
    GetBlock { number: i64, api_key: String, endpoint: String, cache_slot: u8 },
}

/// An entry of the message log.
pub enum MessageKind {
    JsonMessage(Value),
    TextMessage(String),
}

/// One streaming session to open.
pub struct StreamConfig {
    pub endpoint_url: String,
    pub package_file: String,
    pub module_name: String,
    pub token: Option<String>,
    pub start: i64,
    pub stop: u64,
}

/// The module that resolves a single full block.
pub open spec fn block_module() -> Seq<char> {
    "map_block_full"@
}

pub open spec fn started_text(start: i64, stop: u64) -> Seq<char> {
    "Starting stream from "@ + signed_decimal(start as int) + " to "@ + decimal(stop as nat)
}

pub open spec fn getting_text(number: i64) -> Seq<char> {
    "Getting block "@ + signed_decimal(number as int)
}

/// The text of the notice for a session's opening.
pub open spec fn opened_text(msg: StreamMessages, opened: bool) -> Seq<char> {
    match msg {
        StreamMessages::Run { start, stop, .. } => if opened {
            started_text(start, stop)
        } else {
            "Failed to start stream"@
        },
        StreamMessages::GetBlock { number, .. } => if opened {
            getting_text(number)
        } else {
            "Failed to get block"@
        },
    }
}

/// The notice for one record of a session: a range stream logs it; a block
/// fetch sends it to the slot asked for.
pub open spec fn record_notice(msg: StreamMessages, data: String) -> GuiMessage {
    match msg {
        StreamMessages::Run { .. } => GuiMessage::PushJson(data),
        StreamMessages::GetBlock { cache_slot, .. } => GuiMessage::SetBlock(cache_slot, data),
    }
}

fn copy_string(s: &String) -> (r: String)
    ensures
        r@ == s@,
{
    s.clone()
}

impl StreamMessages {
    /// A single-block fetch can name the block after it.
    pub open spec fn in_range(&self) -> bool {
        self matches StreamMessages::GetBlock { number, .. } ==> number < i64::MAX
    }

    /// The session that this request opens: a range stream as asked; a block
    /// fetch reads the full-block module of the explorer package over the one
    /// block asked for. The key goes along as the token.
    pub fn stream_config(&self) -> (r: StreamConfig)
        requires
            self.in_range(),
        ensures
            match self {
                StreamMessages::Run { start, stop, api_key, package_file, endpoint, module_name } => {
                    &&& r.endpoint_url@ == endpoint@
                    &&& r.package_file@ == package_file@
                    &&& r.module_name@ == module_name@
                    &&& r.token matches Some(t) && t@ == api_key@
                    &&& r.start == *start
                    &&& r.stop == *stop
                },
                StreamMessages::GetBlock { number, api_key, endpoint, .. } => {
                    &&& r.endpoint_url@ == endpoint@
                    &&& r.package_file@ == eth_explorer_url()
                    &&& r.module_name@ == block_module()
                    &&& r.token matches Some(t) && t@ == api_key@
                    &&& r.start == *number
                    &&& r.stop == (*number + 1) as u64
                },
            },
    {
        match self {
            StreamMessages::Run { start, stop, api_key, package_file, endpoint, module_name } => {
                StreamConfig {
                    endpoint_url: copy_string(endpoint),
                    package_file: copy_string(package_file),
                    module_name: copy_string(module_name),
                    token: Some(copy_string(api_key)),
                    start: *start,
                    stop: *stop,
                }
            },
            StreamMessages::GetBlock { number, api_key, endpoint, .. } => {
                StreamConfig {
                    endpoint_url: copy_string(endpoint),
                    package_file: Spkg::eth_explorer().url,
                    module_name: String::from_str("map_block_full"),
                    token: Some(copy_string(api_key)),
                    start: *number,
                    stop: (*number + 1) as u64,
                }
            },
        }
    }

    /// The notice for the session's opening: where it opened, what it
    /// streams; where it failed, that it did.
    pub fn opened_message(&self, opened: bool) -> (r: GuiMessage)
        ensures
            r matches GuiMessage::PushMessage(t) && t@ == opened_text(*self, opened),
    {
        let mut t = String::new();
        match self {
            StreamMessages::Run { start, stop, .. } => {
                if opened {
                    t.append("Starting stream from ");
                    t.append(decimal_i64(*start).as_str());
                    t.append(" to ");
                    t.append(decimal_u64(*stop).as_str());
                } else {
                    t.append("Failed to start stream");
                }
            },
            StreamMessages::GetBlock { number, .. } => {
                if opened {
                    t.append("Getting block ");
                    t.append(decimal_i64(*number).as_str());
                } else {
                    t.append("Failed to get block");
                }
            },
        }
        GuiMessage::PushMessage(t)
    }

    /// The notice for one record of the session: a range stream logs it; a
    /// block fetch sends it to the slot asked for.
    pub fn record_message(&self, data: String) -> (r: GuiMessage)
        ensures
            r == record_notice(*self, data),
    {
        match self {
            StreamMessages::Run { .. } => GuiMessage::PushJson(data),
            StreamMessages::GetBlock { cache_slot, .. } => GuiMessage::SetBlock(*cache_slot, data),
        }
    }

    /// The notice once an opened session is over: a range stream says that
    /// it completed; a block fetch says nothing. A session that did not open
    /// gets no closing notice.
    pub fn finished_message(&self) -> (r: Option<GuiMessage>)
        ensures
            match self {
                StreamMessages::Run { .. } => r matches Some(GuiMessage::PushMessage(t)) && t@
                    == "Stream Completed Successfully"@,
                StreamMessages::GetBlock { .. } => r is None,
            },
    {
        match self {
            StreamMessages::Run { .. } => Some(
                GuiMessage::PushMessage(String::from_str("Stream Completed Successfully")),
            ),
            StreamMessages::GetBlock { .. } => None,
        }
    }
    /// Every notice of one session, given whether it opened and the records
    /// that it yielded. An opened session gives the opening notice, one
    /// notice per record in the order received, then the closing notice of a
    /// range stream; a session that did not open gives its failure notice
    /// alone.
    pub fn session_messages(&self, opened: bool, records: &Vec<String>) -> (r: Vec<GuiMessage>)
        ensures
            r@.len() == 1 + (if opened {
                records@.len() + (if self is Run {
                    1int
                } else {
                    0int
                })
            } else {
                0int
            }),
            r@[0] matches GuiMessage::PushMessage(t) && t@ == opened_text(*self, opened),
            opened ==> forall|i: int|
                0 <= i < records@.len() ==> r@[1 + i] == record_notice(*self, records@[i]),
            opened && self is Run ==> (r@.last() matches GuiMessage::PushMessage(t) && t@
                == "Stream Completed Successfully"@),
    {
        let mut out: Vec<GuiMessage> = Vec::new();
        out.push(self.opened_message(opened));
        if opened {
            let mut i: usize = 0;
            while i < records.len()
                invariant
                    i <= records@.len(),
                    out@.len() == 1 + i,
                    out@[0] matches GuiMessage::PushMessage(t) && t@ == opened_text(*self, opened),
                    forall|q: int| 0 <= q < i ==> out@[1 + q] == record_notice(*self, records@[q]),
                decreases records@.len() - i,
            {
                out.push(self.record_message(records[i].clone()));
                i = i + 1;
            }
            match self.finished_message() {
                Some(m) => out.push(m),
                None => {},
            }
        }
        out
    }
}

} // verus!
