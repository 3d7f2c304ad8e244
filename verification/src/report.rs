use vstd::prelude::*;
use vstd::string::StringExecFns;

use crate::paths::owned;

verus! {

/// The line above and below the date of a crash report.
pub open spec fn report_banner() -> Seq<char> {
    "===================="@
}

/// What the game appends to its log file when it crashes: a banner, the date,
/// a banner, then the place in the code and the message when they are
/// known, one per line, and a blank line after.
pub open spec fn spec_panic_report(date: Seq<char>, location: Option<Seq<char>>, payload: Option<Seq<char>>) -> Seq<char> {
    let head = report_banner() + "\n"@ + date + "\n"@ + report_banner();
    let with_location = match location {
        Some(l) => head + "\n"@ + l,
        None => head,
    };
    let with_payload = match payload {
        Some(p) => with_location + "\n"@ + p,
        None => with_location,
    };
    with_payload + "\n"@ + "\n\n"@
}

/// The crash report for a crash at `date` (already formatted), with the
/// place in the code and the message, when known.
pub fn panic_report(date: &str, location: Option<&str>, payload: Option<&str>) -> (res: String)
    ensures
        res@ == spec_panic_report(
            date@,
            match location {
                Some(l) => Some(l@),
                None => None,
            },
            match payload {
                Some(p) => Some(p@),
                None => None,
            },
        ),
{
    let mut s = owned("====================");
    s.append("\n");
    s.append(date);
    s.append("\n");
    s.append("====================");
    if let Some(l) = location {
        s.append("\n");
        s.append(l);
    }
    if let Some(p) = payload {
        s.append("\n");
        s.append(p);
    }
    s.append("\n");
    s.append("\n\n");
    s
}

} // verus!
