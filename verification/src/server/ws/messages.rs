//! The messages of the WebSocket protocol between the page and the server.
use vstd::prelude::*;

use crate::logger::LogLine;
use crate::vpn::{CoreState, Location};

verus! {

/// What the page asks of the server.
#[derive(Debug, Clone, PartialEq, Eq)]
pub enum ClientMessage {
    Status,
    Connect { location: Option<String> },
    Disconnect,
    ReconnectWifi,
    Restart,
    RefreshLocations,
    SetLogLevel { level: String },
    GetSystemInfo,
}

/// What the server tells the page.
#[derive(Debug, Clone)]
pub enum ServerMessage {
    StatusUpdate { state: CoreState, location: Option<String> },
    LocationList { locations: Vec<Location> },
    Error { code: String, message: String },
    LogLine {
        timestamp: String,
        level: String,
        tag: String,
        pid: u32,
        tid: u64,
        message: String,
    },
    LogLevelChanged { level: String },
    /// The CPU temperature is in thousandths of a degree Celsius, as the
    /// thermal zone reports it.
    SystemInfo {
        cpu_temp_millidegrees: Option<i32>,
        uptime_s: u64,
        mem_free_kb: u64,
        mem_total_kb: u64,
    },
}

impl ServerMessage {
    /// The message that carries a log line to the page.
    pub fn from_log_line(line: &LogLine) -> (res: Self)
        ensures
            res matches ServerMessage::LogLine { timestamp, level, tag, pid, tid, message }
                && timestamp@ == line.timestamp@ && level@ == line.level@ && tag@ == line.tag@
                && pid == line.pid && tid == line.tid && message@ == line.message@,
    {
        ServerMessage::LogLine {
            timestamp: line.timestamp.clone(),
            level: line.level.clone(),
            tag: line.tag.clone(),
            pid: line.pid,
            tid: line.tid,
            message: line.message.clone(),
        }
    }
}

} // verus!
