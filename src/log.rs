use vstd::prelude::*;

verus! {

/// Name of the error log, kept beside the running executable.
pub fn log_file_name() -> (r: String)
    ensures
        r@ == "app_error.log"@,
{
    String::from_str("app_error.log")
}

/// One failure to be appended to the error log.
pub struct LogRecord {
    /// The route that failed, such as `/execute`.
    pub endpoint: String,
    pub message: String,
    /// The command concerned, as it was received.
    pub command: Option<String>,
    /// A lower-level description of the failure, written on a line of its own.
    pub detail: Option<String>,
}

/// The text of `rec` in the log, stamped with `stamp`:
/// `stamp - ERROR - endpoint - message[ - Command: cmd]` and a line break,
/// then `Detail: detail` and a line break when there is a detail.
pub open spec fn entry_text(stamp: Seq<char>, rec: LogRecord) -> Seq<char> {
    let head = stamp + " - ERROR - "@ + rec.endpoint@ + " - "@ + rec.message@;
    let with_command = match rec.command {
        Some(c) => head + " - Command: "@ + c@,
        None => head,
    };
    match rec.detail {
        Some(d) => with_command + "\n"@ + "Detail: "@ + d@ + "\n"@,
        None => with_command + "\n"@,
    }
}

/// Renders `rec` as it is appended to the log, stamped with `stamp`.
pub fn render_entry(stamp: &str, rec: &LogRecord) -> (r: String)
    ensures
        r@ == entry_text(stamp@, *rec),
{
    let mut s = String::from_str(stamp);
    s.append(" - ERROR - ");
    s.append(rec.endpoint.as_str());
    s.append(" - ");
    s.append(rec.message.as_str());
    match &rec.command {
        Some(c) => {
            s.append(" - Command: ");
            s.append(c.as_str());
        },
        None => {},
    }
    s.append("\n");
    match &rec.detail {
        Some(d) => {
            s.append("Detail: ");
            s.append(d.as_str());
            s.append("\n");
        },
        None => {},
    }
    s
}

} // verus!
