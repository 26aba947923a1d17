//! Buffered driver log lines and the diagnostic drawn from them.
//!
//! The driver reports problems through a logging callback the host installs;
//! the host buffers what arrives.  When a create or open call fails, the most
//! severe buffered line becomes the diagnostic text of the `DriverRejected`
//! error.
use vstd::prelude::*;

use crate::error::Error;

verus! {

/// Severity of a driver log line.
#[derive(Clone, Copy, Debug, PartialEq, Eq, Structural)]
pub enum LogLevel {
    Info,
    Warn,
    Error,
}

/// Rank of a severity: higher is worse.
pub open spec fn severity(l: LogLevel) -> int {
    match l {
        LogLevel::Info => 0,
        LogLevel::Warn => 1,
        LogLevel::Error => 2,
    }
}

/// Rank of a severity, for comparing lines.
pub fn severity_rank(l: LogLevel) -> (r: u8)
    ensures
        r as int == severity(l),
{
    match l {
        LogLevel::Info => 0,
        LogLevel::Warn => 1,
        LogLevel::Error => 2,
    }
}

/// One buffered driver log line.
pub struct LogItem {
    pub level: LogLevel,
    pub msg: String,
    pub timestamp: u64,
}

impl LogItem {
    /// A log line from its parts.
    pub fn new(level: LogLevel, msg: String, timestamp: u64) -> (r: LogItem)
        ensures
            r.level == level,
            r.msg@ == msg@,
            r.timestamp == timestamp,
    {
        LogItem { level, msg, timestamp }
    }
}

/// The index of the worst line of a non-empty buffer: the last one of
/// maximal severity.
pub open spec fn worst_log_index(s: Seq<LogItem>) -> int
    recommends
        s.len() > 0,
    decreases s.len(),
{
    if s.len() <= 1 {
        0
    } else {
        let rest = worst_log_index(s.drop_last());
        if severity(s.last().level) >= severity(s[rest].level) {
            s.len() - 1
        } else {
            rest
        }
    }
}

/// What `worst_log_index` points at: a line no other line outranks, and the
/// last such line.
pub proof fn lemma_worst_log_index(s: Seq<LogItem>)
    requires
        s.len() > 0,
    ensures
        0 <= worst_log_index(s) < s.len(),
        forall|j: int|
            0 <= j < s.len() ==> severity(#[trigger] s[j].level) <= severity(
                s[worst_log_index(s)].level,
            ),
        forall|j: int|
            worst_log_index(s) < j < s.len() ==> severity(#[trigger] s[j].level) < severity(
                s[worst_log_index(s)].level,
            ),
    decreases s.len(),
{
    if s.len() > 1 {
        lemma_worst_log_index(s.drop_last());
        assert(forall|j: int| 0 <= j < s.len() - 1 ==> s.drop_last()[j] == s[j]);
    }
}

/// The worst buffered line, if any: the last line of maximal severity, so a
/// later report of equal weight wins.
pub fn get_worst_log_msg(container: &Vec<LogItem>) -> (r: Option<&LogItem>)
    ensures
        r is Some <==> container@.len() > 0,
        r matches Some(item) ==> *item == container@[worst_log_index(container@)],
{
    if container.len() == 0 {
        return None;
    }
    let mut best: usize = 0;
    let mut k: usize = 1;
    while k < container.len()
        invariant
            container@.len() > 0,
            1 <= k <= container@.len(),
            best < k,
            best == worst_log_index(container@.take(k as int)),
        decreases container@.len() - k,
    {
        let ghost prefix = container@.take(k as int);
        let ghost extended = container@.take(k + 1 as int);
        proof {
            assert(extended.drop_last() =~= prefix);
            assert(extended.last() == container@[k as int]);
        }
        if severity_rank(container[k].level) >= severity_rank(container[best].level) {
            best = k;
        }
        k = k + 1;
    }
    proof {
        assert(container@.take(container@.len() as int) =~= container@);
    }
    Some(&container[best])
}

/// The diagnostic text the worst line contributes: its message, or a
/// placeholder when nothing was buffered.
pub open spec fn worst_log_message(s: Seq<LogItem>) -> Seq<char> {
    if s.len() == 0 {
        "No logs"@
    } else {
        s[worst_log_index(s)].msg@
    }
}

/// The error a refused create or open call surfaces: the given prefix and,
/// quoted after it, the worst buffered driver line (or a placeholder when
/// the driver logged nothing).
pub fn extract_wintun_log_error(prefix: &str, logs: &Vec<LogItem>) -> (e: Error)
    ensures
        e matches Error::DriverRejected(m) && m@ == prefix@ + " \""@ + worst_log_message(logs@)
            + "\""@,
{
    let mut m = String::from_str(prefix);
    m.append(" \"");
    match get_worst_log_msg(logs) {
        Some(item) => {
            m.append(item.msg.as_str());
        },
        None => {
            m.append("No logs");
        },
    }
    m.append("\"");
    Error::DriverRejected(m)
}

} // verus!
