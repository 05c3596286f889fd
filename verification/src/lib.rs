//! Turns the rows of a table of collectibles into token metadata documents.
//!
//! A run takes a comma-separated table with a header row and produces one
//! JSON document per data row, to be stored under the names `1`, `2`, `3` and
//! so on. Each document has a name and a description (both the title of the
//! item), an image link, optionally a video link and an external link, and a
//! list of attributes such as the grader or the year.
//!
//! The library computes; it neither reads nor writes files.
//!
//! - [`text`]: trimming, and what counts as a blank cell.
//! - [`schema`]: which column of the table feeds which part of a document.
//! - [`record`]: the cells of one row under their column names.
//! - [`table`]: reading the records of a table and holding its header row
//!   against a schema.
//! - [`document`]: the metadata document and the transformation of a row.
//! - [`json`]: the model of a JSON value and the calls into `serde_json`.
//! - [`writer`]: a document as a JSON value and as indented text.
//! - [`parser`]: reading a document back from its JSON value or text.
//! - [`counter`]: the counter that names the files.
//! - [`pipeline`]: the steps of a run over a table and what it produces.
//! - [`progress`]: the lines that tell how a run is going.
//! - [`laws`]: what holds of every row, document and run.

pub mod counter;
pub mod document;
pub mod json;
pub mod laws;
pub mod parser;
pub mod pipeline;
pub mod progress;
pub mod record;
pub mod schema;
pub mod table;
pub mod text;
pub mod writer;
