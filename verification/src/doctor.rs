//! The health check: what it reports of the connection to the server and
//! of the place where the preset store is kept.

use vstd::prelude::*;
use crate::text::concat2;

verus! {

/// What the health check found.
#[derive(Debug, Clone, PartialEq, Eq)]
pub struct DoctorReport {
    /// The lines to show, one or more for each check.
    pub lines: Vec<String>,
    /// Whether every check passed.
    pub healthy: bool,
}

/// The line that reports the check of the connection, which failed with
/// `failure` or passed.
pub open spec fn connection_line(failure: Option<Seq<char>>) -> Seq<char> {
    match failure {
        Some(detail) => "❌ MySQL connection failed: "@ + detail,
        None => "✅ MySQL connection OK"@,
    }
}

/// The line that reports the check of the configuration directory, which
/// failed with `failure` or passed.
pub open spec fn config_line(failure: Option<Seq<char>>) -> Seq<char> {
    match failure {
        Some(detail) => "❌ Config directory not writable: "@ + detail,
        None => "✅ Config directory writable"@,
    }
}

/// The lines of the health check: a heading, one line for each of the two
/// checks whatever the other found, and a closing line where both passed.
pub open spec fn doctor_lines(connection: Option<Seq<char>>, config: Option<Seq<char>>) -> Seq<
    Seq<char>,
> {
    let lines = seq![
        "🔍 Running molniya doctor…"@,
        connection_line(connection),
        config_line(config),
    ];
    if connection is None && config is None {
        lines.push("🎉 Environment looks healthy"@)
    } else {
        lines
    }
}

/// Reports the two checks of the health check, each on its own: the failure
/// of one does not hide the other. `connection` and `config` hold the
/// failure of the check, or `None` where it passed.
pub fn doctor(connection: &Option<String>, config: &Option<String>) -> (report: DoctorReport)
    ensures
        report.lines.deep_view() == doctor_lines(connection.deep_view(), config.deep_view()),
        report.healthy == (connection is None && config is None),
{
    let mut lines: Vec<String> = Vec::new();
    lines.push(String::from_str("🔍 Running molniya doctor…"));
    match connection {
        Some(detail) => lines.push(concat2("❌ MySQL connection failed: ", detail.as_str())),
        None => lines.push(String::from_str("✅ MySQL connection OK")),
    }
    match config {
        Some(detail) => lines.push(concat2("❌ Config directory not writable: ", detail.as_str())),
        None => lines.push(String::from_str("✅ Config directory writable")),
    }
    let healthy = connection.is_none() && config.is_none();
    if healthy {
        lines.push(String::from_str("🎉 Environment looks healthy"));
    }
    assert(lines.deep_view() =~= doctor_lines(connection.deep_view(), config.deep_view()));
    DoctorReport { lines, healthy }
}

} // verus!
