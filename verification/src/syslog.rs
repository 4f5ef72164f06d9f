//! System-log message formatting; the transport that carries the
//! formatted line lives outside the library.

use vstd::prelude::*;

use crate::decimal::{spec_udec, u32_dec};
use crate::rtc::DateTime;

verus! {

/// Why a log line could not be sent.
#[derive(Clone, Copy, Debug, PartialEq, Eq, Structural)]
pub enum SyslogError {
    ConnectionReset,
    NoRoute,
    SocketNotBound,
}

/// One log message before formatting.
pub struct SyslogMessage<'a> {
    pub priority: u8,
    pub hostname: &'a str,
    pub source: &'a str,
    pub proc_id: &'a str,
    pub message: &'a str,
    pub message_data: &'a str,
    pub datetime: DateTime,
}

/// A timestamp in the log line's date format.
pub open spec fn spec_syslog_time(dt: DateTime) -> Seq<char> {
    spec_udec(dt.year as int) + "-"@ + spec_udec(dt.month as int) + "-"@ + spec_udec(dt.day as int)
        + "T"@ + spec_udec(dt.hour as int) + ":"@ + spec_udec(dt.minute as int) + ":"@ + spec_udec(
        dt.second as int,
    ) + ".0Z"@
}

/// The full log line for a message and a send counter.
pub open spec fn spec_syslog_line(m: SyslogMessage, counter: u32) -> Seq<char> {
    "<"@ + spec_udec(m.priority as int) + ">1 "@ + spec_syslog_time(m.datetime) + " "@
        + m.hostname@ + " "@ + m.proc_id@ + " ID"@ + spec_udec(counter as int) + " ["@
        + m.message_data@ + "] "@ + m.message@ + "\n"@
}

/// Format one log line: priority, version, timestamp, host, process,
/// a per-process message counter, structured data, and the text.
#[verifier::rlimit(60)]
pub fn format_syslog_line(message: &SyslogMessage, counter: u32) -> (r: String)
    ensures
        r@ == spec_syslog_line(*message, counter),
{
    proof {
        reveal_strlit("<");
        reveal_strlit(">1 ");
        reveal_strlit("-");
        reveal_strlit("T");
        reveal_strlit(":");
        reveal_strlit(".0Z");
        reveal_strlit(" ");
        reveal_strlit(" ID");
        reveal_strlit(" [");
        reveal_strlit("] ");
        reveal_strlit("\n");
    }
    let dt = message.datetime;
    let mut out = String::from_str("<");
    out.append(u32_dec(message.priority as u32).as_str());
    out.append(">1 ");
    out.append(u32_dec(dt.year as u32).as_str());
    out.append("-");
    out.append(u32_dec(dt.month as u32).as_str());
    out.append("-");
    out.append(u32_dec(dt.day as u32).as_str());
    out.append("T");
    out.append(u32_dec(dt.hour as u32).as_str());
    out.append(":");
    out.append(u32_dec(dt.minute as u32).as_str());
    out.append(":");
    out.append(u32_dec(dt.second as u32).as_str());
    out.append(".0Z");
    out.append(" ");
    out.append(message.hostname);
    out.append(" ");
    out.append(message.proc_id);
    out.append(" ID");
    out.append(u32_dec(counter).as_str());
    out.append(" [");
    out.append(message.message_data);
    out.append("] ");
    out.append(message.message);
    out.append("\n");
    proof {
        assert(out@ =~= spec_syslog_line(*message, counter));
    }
    out
}

/// The sum of two machine words; the log module's self-check.
pub fn add(left: usize, right: usize) -> (r: usize)
    requires
        left + right <= usize::MAX,
    ensures
        r == left + right,
{
    left + right
}

} // verus!
