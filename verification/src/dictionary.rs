//! The dictionary loader: the auxiliary delimited-text resource parsed
//! into a table with inferred column types.
//!
//! The delimited-text parser and the tabular container are outside
//! collaborators; the table is opaque here and is handed to the caller for
//! reporting. Unlike a feed decode failure, a dictionary failure is not
//! isolated: it is surfaced to the caller, where it is fatal to the run.

use polars::prelude::SerReader;
use vstd::prelude::*;

verus! {

#[verifier::external_type_specification]
#[verifier::external_body]
pub struct ExDataFrame(polars::frame::DataFrame);

#[verifier::external_type_specification]
#[verifier::external_body]
pub struct ExColumn(polars::prelude::Column);

#[verifier::external_type_specification]
#[verifier::external_body]
pub struct ExPolarsError(polars::error::PolarsError);

/// Whether the delimited-text parser accepts these bytes as a table.
/// Parsing is deterministic in the bytes alone, so acceptance is a
/// function of them.
pub uninterp spec fn csv_accepts(b: Seq<u8>) -> bool;

/// Relies on polars' `CsvReader` (with schema inference over the full
/// content, no row cap): it parses in-memory delimited text into a data
/// frame, deterministically in the bytes, and returns its error exactly
/// when it rejects them.
#[verifier::external_body]
fn parse_csv(bytes: &Vec<u8>) -> (r: Result<
    polars::frame::DataFrame,
    polars::error::PolarsError,
>)
    ensures
        r is Ok <==> csv_accepts(bytes@),
{
    polars::prelude::CsvReader::new(std::io::Cursor::new(bytes))
        .with_options(polars::prelude::CsvReadOptions::default().with_infer_schema_length(None))
        .finish()
}

/// Parse the dictionary resource into its table: the parsed table exactly
/// when the parser accepts the bytes, else the parser's own error, for the
/// caller to treat as fatal.
pub fn dictionary_table(bytes: &Vec<u8>) -> (r: Result<
    polars::frame::DataFrame,
    polars::error::PolarsError,
>)
    ensures
        r is Ok <==> csv_accepts(bytes@),
{
    parse_csv(bytes)
}

} // verus!
