//! Writer settings and the description of an output schema.

use vstd::prelude::*;
use crate::error::types::{DataError, Error};
use crate::text::owned;

verus! {

/// How a writer writes.
#[derive(Debug)]
pub struct WriterConfig {
    /// Buffer size, in bytes.
    pub buffer_size: usize,
    /// Records per batch.
    pub batch_size: usize,
    /// Whether records are validated before they are written.
    pub validate_on_write: bool,
    /// Encoding of the output.
    pub encoding: String,
    /// Field separator of delimited output.
    pub field_separator: char,
    /// Whether headers are written.
    pub include_headers: bool,
    /// Whether output is compressed.
    pub compress_output: bool,
    /// Compression level, 0 to 9 where it applies.
    pub compression_level: u8,
    /// Whether existing files are overwritten.
    pub overwrite_existing: bool,
    /// File size from which output is split, in bytes (0: no limit).
    pub max_file_size: u64,
    /// Digits after the point for floating-point values.
    pub float_precision: usize,
}

impl Clone for WriterConfig {
    fn clone(&self) -> (r: Self)
        ensures
            r == *self,
    {
        WriterConfig {
            buffer_size: self.buffer_size,
            batch_size: self.batch_size,
            validate_on_write: self.validate_on_write,
            encoding: self.encoding.clone(),
            field_separator: self.field_separator,
            include_headers: self.include_headers,
            compress_output: self.compress_output,
            compression_level: self.compression_level,
            overwrite_existing: self.overwrite_existing,
            max_file_size: self.max_file_size,
            float_precision: self.float_precision,
        }
    }
}

/// The writer defaults.
pub open spec fn default_writer_config(c: WriterConfig) -> bool {
    &&& c.buffer_size == 64 * 1024
    &&& c.batch_size == 1000
    &&& c.validate_on_write
    &&& c.encoding@ == "UTF-8"@
    &&& c.field_separator == '\t'
    &&& c.include_headers
    &&& !c.compress_output
    &&& c.compression_level == 6
    &&& !c.overwrite_existing
    &&& c.max_file_size == 0
    &&& c.float_precision == 6
}

impl Default for WriterConfig {
    /// 64 KiB buffers, batches of 1000, validation on, UTF-8, tab-separated,
    /// headers, no compression (level 6), no overwriting, no size limit, six
    /// digits of precision.
    fn default() -> (c: Self)
        ensures
            default_writer_config(c),
    {
        WriterConfig {
            buffer_size: 64 * 1024,
            batch_size: 1000,
            validate_on_write: true,
            encoding: owned("UTF-8"),
            field_separator: '\t',
            include_headers: true,
            compress_output: false,
            compression_level: 6,
            overwrite_existing: false,
            max_file_size: 0,
            float_precision: 6,
        }
    }
}

/// The schema of an output file.
#[derive(Debug)]
pub struct SchemaInfo {
    /// Field names.
    pub fields: Vec<String>,
    /// Field types, in the order of the names.
    pub field_types: Vec<String>,
    /// Field descriptions, if any.
    pub field_descriptions: Option<Vec<String>>,
}


/// The invalid-configuration error "`message`".
pub open spec fn configuration_error(r: Result<(), Error>, message: Seq<char>) -> bool {
    &&& r matches Err(Error::Data(DataError::ValidationError { message: m, path: p, line: l }))
    &&& m@ == message
    &&& p is None
    &&& l is None
}

impl WriterConfig {
    /// Sets the compression level, which must lie between 0 and 9; a higher
    /// level is the error "Compression level must be between 0 and 9" and
    /// changes nothing.
    pub fn set_compression_level(&mut self, level: u8) -> (r: Result<(), Error>)
        ensures
            level <= 9 ==> r is Ok && *final(self) == (WriterConfig { compression_level: level, ..*old(self) }),
            level > 9 ==> configuration_error(r, "Compression level must be between 0 and 9"@) && *final(self)
                == *old(self),
    {
        if level > 9 {
            return Err(Error::Data(DataError::invalid_configuration(owned("Compression level must be between 0 and 9"))));
        }
        self.compression_level = level;
        Ok(())
    }
}

} // verus!
