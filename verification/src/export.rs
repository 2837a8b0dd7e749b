//! The text of an exported log.

use vstd::prelude::*;
use vstd::string::StringExecFns;
use crate::text::{decimal_u64, digits_of, to_uppercase, trim, trimmed, uppercase_of};
use crate::types::{LogEntry, LogEntryView};

verus! {

/// The level as the export shows it: in upper case, `INFO` where the entry names none.
pub open spec fn shown_level(level: Seq<char>) -> Seq<char> {
    if trimmed(level).len() == 0 {
        "INFO"@
    } else {
        uppercase_of(level)
    }
}

/// The line of one entry.
pub open spec fn entry_line(e: LogEntryView) -> Seq<char> {
    "["@ + e.time + "] ["@ + shown_level(e.level) + "] "@ + e.message + "\n"@
}

/// The lines of the entries, in their order.
pub open spec fn entry_lines(entries: Seq<LogEntryView>) -> Seq<char>
    decreases entries.len(),
{
    if entries.len() == 0 {
        Seq::empty()
    } else {
        entry_lines(entries.drop_last()) + entry_line(entries.last())
    }
}

/// The text of an export: a title, the moment of the export, the number of
/// entries, an empty line, and a line for each entry.
pub open spec fn export_text(entries: Seq<LogEntryView>, exported_at: Seq<char>) -> Seq<char> {
    "QuickDoctor Logs Export\nExportedAt: "@ + exported_at + "\nTotal: "@ + digits_of(
        entries.len(),
    ) + "\n\n"@ + entry_lines(entries)
}

/// The name of the file of an export made at the moment that `stamp` names.
pub fn export_file_name(stamp: &str) -> (r: String)
    ensures
        r@ == "quickdoctor_logs_"@ + stamp@ + ".txt"@,
{
    let mut out = String::from_str("quickdoctor_logs_");
    out.append(stamp);
    out.append(".txt");
    out
}

/// Writes out the entries of the log for an export made at `exported_at`.
/// A log without entries is not exported.
pub fn format_log_export(entries: &Vec<LogEntry>, exported_at: &str) -> (r: Result<String, String>)
    ensures
        match r {
            Ok(text) => entries.len() > 0 && text@ == export_text(
                entries.deep_view(),
                exported_at@,
            ),
            Err(m) => entries.len() == 0 && m@ == "log entries is empty"@,
        },
{
    if entries.len() == 0 {
        return Err(String::from_str("log entries is empty"));
    }
    let ghost s = entries.deep_view();
    let mut out = String::from_str("QuickDoctor Logs Export\nExportedAt: ");
    out.append(exported_at);
    out.append("\nTotal: ");
    out.append(decimal_u64(entries.len() as u64).as_str());
    out.append("\n\n");
    let ghost head = out@;
    let mut i: usize = 0;
    assert(s.take(0) =~= Seq::empty());
    assert(out@ =~= head + entry_lines(s.take(0)));
    while i < entries.len()
        invariant
            i <= entries.len(),
            s == entries.deep_view(),
            out@ == head + entry_lines(s.take(i as int)),
        decreases entries.len() - i,
    {
        proof {
            assert(s.take(i as int + 1).drop_last() =~= s.take(i as int));
            assert(s.take(i as int + 1).last() == entries[i as int]@);
        }
        let ghost before = out@;
        let entry = &entries[i];
        out.append("[");
        out.append(entry.time.as_str());
        out.append("] [");
        if trim(entry.level.as_str()).as_str().is_empty() {
            out.append("INFO");
        } else {
            out.append(to_uppercase(entry.level.as_str()).as_str());
        }
        out.append("] ");
        out.append(entry.message.as_str());
        out.append("\n");
        assert(out@ =~= before + entry_line(entry@));
        assert(out@ =~= head + (entry_lines(s.take(i as int)) + entry_line(entry@)));
        i += 1;
    }
    assert(s.take(i as int) =~= s);
    assert(out@ =~= export_text(s, exported_at@));
    Ok(out)
}

} // verus!
