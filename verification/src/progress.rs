//! The lines that tell how a run is going: one when it starts, one with the
//! number of rows found, one for each file stored and one at the end.

use crate::counter::{decimal, decimal_text};
use vstd::prelude::*;
use vstd::string::*;

verus! {

/// The line that announces a run.
pub open spec fn started_line() -> Seq<char> {
    "Starting CSV parsing and metadata generation..."@
}

/// The line that tells how many data rows the table has.
pub open spec fn found_line(total: nat) -> Seq<char> {
    "Found "@ + decimal(total) + " records in CSV file"@
}

/// The line that confirms the file of one row.
pub open spec fn generated_line(name: Seq<char>) -> Seq<char> {
    "Generated metadata file: "@ + name
}

/// The line that ends a run in which every row gave a file.
pub open spec fn finished_line(produced: nat) -> Seq<char> {
    "Successfully generated "@ + decimal(produced) + " metadata files!"@
}

/// The line that announces a run.
pub fn started_text() -> (line: String)
    ensures
        line@ == started_line(),
{
    "Starting CSV parsing and metadata generation...".to_owned()
}

/// The line that tells how many data rows the table has.
pub fn found_text(total: usize) -> (line: String)
    ensures
        line@ == found_line(total as nat),
{
    let mut line = "Found ".to_owned();
    line.append(decimal_text(total).as_str());
    line.append(" records in CSV file");
    line
}

/// The line that confirms the file of one row.
pub fn generated_text(name: &str) -> (line: String)
    ensures
        line@ == generated_line(name@),
{
    let mut line = "Generated metadata file: ".to_owned();
    line.append(name);
    line
}

/// The line that ends a run in which every row gave a file.
pub fn finished_text(produced: usize) -> (line: String)
    ensures
        line@ == finished_line(produced as nat),
{
    let mut line = "Successfully generated ".to_owned();
    line.append(decimal_text(produced).as_str());
    line.append(" metadata files!");
    line
}

} // verus!
