//! Progress of a render job.

use vstd::prelude::*;
use vstd::string::*;

use super::digits::{decimal, push_decimal};

verus! {

/// After how many frames progress is reported.
pub const REPORT_EVERY: usize = 100;

/// The report after `done` of `total` frames.
pub open spec fn progress_report(done: nat, total: nat) -> Seq<char> {
    "Processed "@ + decimal(done) + "/"@ + decimal(total) + " points"@
}

/// The progress report that is due once frame `i` of `total` is written:
/// one after every hundredth frame, none otherwise.
pub fn processed(i: usize, total: usize) -> (report: Option<String>)
    requires
        i < usize::MAX,
    ensures
        (i + 1) % 100 != 0 ==> report is None,
        (i + 1) % 100 == 0 ==> report is Some && report->0@ == progress_report(
            (i + 1) as nat,
            total as nat,
        ),
{
    if (i + 1) % REPORT_EVERY == 0 {
        let mut report = "Processed ".to_owned();
        push_decimal(&mut report, (i + 1) as u64);
        report.append("/");
        push_decimal(&mut report, total as u64);
        report.append(" points");
        assert(report@ =~= progress_report((i + 1) as nat, total as nat));
        Some(report)
    } else {
        None
    }
}

} // verus!
