//! CSV output records.

use vstd::prelude::*;

verus! {

/// Error type for CSV operations.
#[derive(Debug)]
pub enum CsvError {
    /// Failed to create or write to the file.
    IoError(std::io::Error),
}

/// A record that can be written as a CSV line.
pub trait CsvRecord {
    /// The header line of the CSV file.
    fn csv_header() -> &'static str;

    /// This record as a CSV line.
    fn to_csv_line(&self) -> String;
}

} // verus!
