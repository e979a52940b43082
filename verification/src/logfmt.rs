//! Rendering and trimming of the front-end error log: entries arrive as
//! plain records, are rendered to one Markdown block each, and an
//! oversized log file is cut back to its most recent separator. The
//! shell does the file reads and writes.

use vstd::prelude::*;

use crate::strutil::{str_eq, u64_to_string, spec_decimal};

verus! {

/// One captured front-end log record.
#[derive(Debug, Clone)]
pub struct LogEntry {
    pub timestamp: String,
    pub level: String,
    pub message: String,
    pub stack: Option<String>,
    pub url: Option<String>,
    pub line: Option<u32>,
    pub column: Option<u32>,
}

/// The marker shown for each level.
pub open spec fn spec_level_marker(level: Seq<char>) -> Seq<char> {
    if level == "error"@ {
        "[error]"@
    } else if level == "warn"@ {
        "[warn]"@
    } else if level == "info"@ {
        "[info]"@
    } else {
        "[other]"@
    }
}

/// The optional `:line:column` suffix of a location, the column only
/// ever shown together with a line.
pub open spec fn spec_line_col(line: Option<u32>, column: Option<u32>) -> Seq<char> {
    match line {
        None => Seq::<char>::empty(),
        Some(l) => ":`"@ + spec_decimal(l as int) + "`"@ + match column {
            None => Seq::<char>::empty(),
            Some(c) => ":`"@ + spec_decimal(c as int) + "`"@,
        },
    }
}

/// The optional location line of an entry.
pub open spec fn spec_location(e: LogEntry) -> Seq<char> {
    match e.url {
        None => Seq::<char>::empty(),
        Some(u) => "**Location**: `"@ + u@ + "`"@ + spec_line_col(e.line, e.column) + "  \n"@,
    }
}

/// The optional stack block of an entry.
pub open spec fn spec_stack(stack: Option<String>) -> Seq<char> {
    match stack {
        None => Seq::<char>::empty(),
        Some(s) => "**Stack**:  \n```\n"@ + s@ + "\n```\n\n"@,
    }
}

/// The full Markdown block of one entry.
pub open spec fn spec_entry_block(e: LogEntry) -> Seq<char> {
    "### "@ + spec_level_marker(e.level@) + " `"@ + e.level@ + "`\n\n"@
        + "**Time**: `"@ + e.timestamp@ + "`  \n"@
        + spec_location(e)
        + "**Message**:  \n```\n"@ + e.message@ + "\n```\n\n"@
        + spec_stack(e.stack)
        + "---\n\n"@
}

/// All entry blocks, in order.
pub open spec fn spec_log_blocks(logs: Seq<LogEntry>) -> Seq<char>
    decreases logs.len(),
{
    if logs.len() == 0 {
        Seq::<char>::empty()
    } else {
        spec_log_blocks(logs.drop_last()) + spec_entry_block(logs.last())
    }
}

/// Renders one entry to its Markdown block.
#[verifier::rlimit(50)]
pub fn format_log_entry(e: &LogEntry) -> (r: String)
    ensures
        r@ == spec_entry_block(*e),
{
    let mut out = String::from_str("### ");
    let marker: &str = if str_eq(e.level.as_str(), "error") {
        "[error]"
    } else if str_eq(e.level.as_str(), "warn") {
        "[warn]"
    } else if str_eq(e.level.as_str(), "info") {
        "[info]"
    } else {
        "[other]"
    };
    out.append(marker);
    out.append(" `");
    out.append(e.level.as_str());
    out.append("`\n\n");
    out.append("**Time**: `");
    out.append(e.timestamp.as_str());
    out.append("`  \n");
    let ghost head = "### "@ + spec_level_marker(e.level@) + " `"@ + e.level@ + "`\n\n"@
        + "**Time**: `"@ + e.timestamp@ + "`  \n"@;
    proof {
        assert(out@ =~= head);
    }
    if let Some(u) = &e.url {
        out.append("**Location**: `");
        out.append(u.as_str());
        out.append("`");
        let ghost loc_head = head + "**Location**: `"@ + u@ + "`"@;
        proof {
            assert(out@ =~= loc_head);
        }
        if let Some(l) = e.line {
            out.append(":`");
            let ls = u64_to_string(l as u64);
            out.append(ls.as_str());
            out.append("`");
            if let Some(c) = e.column {
                out.append(":`");
                let cs = u64_to_string(c as u64);
                out.append(cs.as_str());
                out.append("`");
            }
            proof {
                assert(out@ =~= loc_head + spec_line_col(e.line, e.column));
            }
        }
        out.append("  \n");
        proof {
            assert(out@ =~= head + spec_location(*e));
        }
    }
    proof {
        assert(out@ =~= head + spec_location(*e));
    }
    out.append("**Message**:  \n```\n");
    out.append(e.message.as_str());
    out.append("\n```\n\n");
    let ghost msg_head = head + spec_location(*e) + "**Message**:  \n```\n"@ + e.message@
        + "\n```\n\n"@;
    proof {
        assert(out@ =~= msg_head);
    }
    if let Some(s) = &e.stack {
        out.append("**Stack**:  \n```\n");
        out.append(s.as_str());
        out.append("\n```\n\n");
    }
    proof {
        assert(out@ =~= msg_head + spec_stack(e.stack));
    }
    out.append("---\n\n");
    proof {
        assert(out@ =~= spec_entry_block(*e));
    }
    out
}

/// Renders a batch of entries: a separator header carrying the render
/// time and the entry count, then one block per entry, in order.
pub fn format_logs(logs: &Vec<LogEntry>, now: &str) -> (r: String)
    ensures
        r@ == "\n---\n**Error log time**: "@ + now@ + "  \n**Log entries**: "@
            + spec_decimal(logs@.len() as int) + "  \n\n"@ + spec_log_blocks(logs@),
{
    let mut out = String::from_str("\n---\n**Error log time**: ");
    out.append(now);
    out.append("  \n**Log entries**: ");
    let n = logs.len();
    let count = u64_to_string(n as u64);
    out.append(count.as_str());
    out.append("  \n\n");
    let ghost header = out@;
    proof {
        assert(logs@.subrange(0, 0) =~= Seq::<LogEntry>::empty());
        assert(out@ =~= header + spec_log_blocks(logs@.subrange(0, 0)));
    }
    let mut i: usize = 0;
    while i < n
        invariant
            i <= n,
            n == logs@.len(),
            header == "\n---\n**Error log time**: "@ + now@ + "  \n**Log entries**: "@
                + spec_decimal(logs@.len() as int) + "  \n\n"@,
            out@ == header + spec_log_blocks(logs@.subrange(0, i as int)),
        decreases n - i,
    {
        let block = format_log_entry(&logs[i]);
        out.append(block.as_str());
        proof {
            assert(logs@.subrange(0, i + 1).drop_last() =~= logs@.subrange(0, i as int));
            assert(logs@.subrange(0, i + 1).last() == logs@[i as int]);
            assert(out@ =~= header + spec_log_blocks(logs@.subrange(0, i + 1)));
        }
        i = i + 1;
    }
    proof {
        assert(logs@.subrange(0, n as int) =~= logs@);
    }
    out
}

/// The position of the first block separator at or after `from`, with
/// the text's length as the not-found sentinel.
pub open spec fn spec_first_sep(s: Seq<char>, from: int) -> int
    decreases s.len() - from,
{
    if from < 0 || from + 4 > s.len() {
        s.len() as int
    } else if s.subrange(from, from + 4) == "---\n"@ {
        from
    } else {
        spec_first_sep(s, from + 1)
    }
}

/// Finds the first block separator at or after `from`.
pub fn find_sep_from(s: &str, from: usize) -> (r: Option<usize>)
    ensures
        r matches Some(i) ==> i as int == spec_first_sep(s@, from as int)
            && spec_first_sep(s@, from as int) < s@.len(),
        r is None ==> spec_first_sep(s@, from as int) == s@.len() as int,
{
    let len = s.unicode_len();
    let mut i: usize = from;
    if i > len {
        return None;
    }
    if len >= 4 {
        while i <= len - 4
            invariant
                from <= i,
                i <= len,
                len == s@.len(),
                len >= 4,
                spec_first_sep(s@, from as int) == spec_first_sep(s@, i as int),
            decreases len - i,
        {
            let piece = s.substring_char(i, i + 4);
            if str_eq(piece, "---\n") {
                return Some(i);
            }
            i = i + 1;
        }
    }
    None
}

/// Cuts an oversized log back to roughly its last `limit` characters:
/// the kept tail starts at the first block separator inside the window,
/// or at the window's edge when the window holds none, and a notice
/// line is prepended. A log within the limit is returned unchanged.
pub fn truncate_log(content: &str, limit: usize) -> (r: String)
    ensures
        content@.len() <= limit ==> r@ == content@,
        content@.len() > limit ==> r@ == ({
            let start = content@.len() - limit;
            let sep = spec_first_sep(content@, start as int);
            let adjusted: int = if sep < content@.len() { sep } else { start as int };
            "...(log too large, showing last "@ + spec_decimal(limit as int)
                + " characters)...\n\n"@ + content@.subrange(adjusted, content@.len() as int)
        }),
{
    let len = content.unicode_len();
    if len <= limit {
        return content.to_owned();
    }
    let start = len - limit;
    let adjusted = match find_sep_from(content, start) {
        Some(i) => i,
        None => start,
    };
    let mut out = String::from_str("...(log too large, showing last ");
    let lim = u64_to_string(limit as u64);
    out.append(lim.as_str());
    out.append(" characters)...\n\n");
    let tail = content.substring_char(adjusted, len);
    out.append(tail);
    proof {
        assert(out@ =~= "...(log too large, showing last "@ + spec_decimal(limit as int)
            + " characters)...\n\n"@ + content@.subrange(adjusted as int, content@.len() as int));
    }
    out
}

} // verus!
