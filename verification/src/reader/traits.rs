//! Reader settings and reading statistics.

use vstd::prelude::*;
use crate::text::owned;

verus! {

/// How a reader reads.
#[derive(Debug)]
pub struct ReaderConfig {
    /// Buffer size, in bytes.
    pub buffer_size: usize,
    /// Records per batch.
    pub batch_size: usize,
    /// Whether records are validated as they are read.
    pub validate_on_read: bool,
    /// Whether large files are memory-mapped.
    pub use_memory_mapping: bool,
    /// Encoding of the files.
    pub encoding: String,
    /// Field separator of delimited files.
    pub field_separator: char,
    /// Whether malformed records are skipped.
    pub skip_malformed: bool,
    /// Errors tolerated before reading stops.
    pub max_errors: usize,
}

impl Clone for ReaderConfig {
    fn clone(&self) -> (r: Self)
        ensures
            r == *self,
    {
        ReaderConfig {
            buffer_size: self.buffer_size,
            batch_size: self.batch_size,
            validate_on_read: self.validate_on_read,
            use_memory_mapping: self.use_memory_mapping,
            encoding: self.encoding.clone(),
            field_separator: self.field_separator,
            skip_malformed: self.skip_malformed,
            max_errors: self.max_errors,
        }
    }
}

/// The reader defaults.
pub open spec fn default_reader_config(c: ReaderConfig) -> bool {
    &&& c.buffer_size == 64 * 1024
    &&& c.batch_size == 1000
    &&& c.validate_on_read
    &&& !c.use_memory_mapping
    &&& c.encoding@ == "UTF-8"@
    &&& c.field_separator == '\t'
    &&& !c.skip_malformed
    &&& c.max_errors == 100
}

impl Default for ReaderConfig {
    /// 64 KiB buffers, batches of 1000, validation on, no memory mapping,
    /// UTF-8, tab-separated, malformed records not skipped, 100 errors.
    fn default() -> (c: Self)
        ensures
            default_reader_config(c),
    {
        ReaderConfig {
            buffer_size: 64 * 1024,
            batch_size: 1000,
            validate_on_read: true,
            use_memory_mapping: false,
            encoding: owned("UTF-8"),
            field_separator: '\t',
            skip_malformed: false,
            max_errors: 100,
        }
    }
}

/// Statistics of a reading operation.
#[derive(Debug, Clone, Copy, PartialEq, Eq, Structural)]
pub struct ReadStats {
    /// Records read.
    pub records_read: u64,
    /// Bytes processed.
    pub bytes_processed: u64,
    /// Errors encountered.
    pub errors_encountered: u64,
    /// Records skipped as invalid.
    pub records_skipped: u64,
    /// Time taken, in milliseconds.
    pub read_time_ms: u64,
}

/// Statistics with every count zero.
pub open spec fn zero_read_stats() -> ReadStats {
    ReadStats { records_read: 0, bytes_processed: 0, errors_encountered: 0, records_skipped: 0, read_time_ms: 0 }
}

impl Default for ReadStats {
    /// All counts zero.
    fn default() -> (s: Self)
        ensures
            s == (ReadStats {
                records_read: 0,
                bytes_processed: 0,
                errors_encountered: 0,
                records_skipped: 0,
                read_time_ms: 0,
            }),
    {
        ReadStats { records_read: 0, bytes_processed: 0, errors_encountered: 0, records_skipped: 0, read_time_ms: 0 }
    }
}

} // verus!
