//! Reading delimited BLS files line by line: the fields of a line, series
//! and lookup records made from fields, which files can be read, and the
//! decisions taken on each line while a file is scanned. The lines
//! themselves are read by the caller, which hands each one to a step
//! function and acts on its verdict.

use vstd::prelude::*;
use crate::error::types::{DataError, Error};
use crate::model::lookup::Lookup;
use crate::model::series::{at_least_two_bytes, default_series_metadata, survey_code_of, two_byte_boundary, Series, SeriesMetadata};
use crate::model::CommonMetadata;
use crate::paths::{extension, file_name, path_extension, path_file_name};
use crate::reader::traits::{zero_read_stats, ReadStats, ReaderConfig};
use crate::order::{lex_le, lex_le_exec};
use crate::text::{byte_len, cat, contains_str, dec, decimal, has_sub, opt_text, owned, parse_i32, parse_signed, split_char, split_seq, str_eq, string_from_chars, trim, trim_seq, views};

verus! {

/// The fields of a line: the pieces between separators, each trimmed.
pub open spec fn line_fields(line: Seq<char>, sep: char) -> Seq<Seq<char>> {
    split_seq(line, sep).map_values(|p: Seq<char>| trim_seq(p))
}

/// The fields of a record line as files are scanned: the line trimmed,
/// then cut at each separator (the pieces are not trimmed).
pub open spec fn record_fields(line: Seq<char>, sep: char) -> Seq<Seq<char>> {
    split_seq(trim_seq(line), sep)
}

/// The fields of `line` separated by `separator`, each trimmed.
pub fn split_fields(line: &str, separator: char) -> (r: Vec<String>)
    ensures
        views(r@) == line_fields(line@, separator),
{
    let pieces = split_char(line, separator);
    let mut r: Vec<String> = Vec::new();
    let mut i: usize = 0;
    while i < pieces.len()
        invariant
            views(pieces@) == split_seq(line@, separator),
            i <= pieces@.len(),
            views(r@) == line_fields(line@, separator).take(i as int),
        decreases pieces@.len() - i,
    {
        let t = trim(pieces[i].as_str());
        proof {
            assert(views(pieces@)[i as int] == pieces@[i as int]@);
            assert(line_fields(line@, separator)[i as int] == trim_seq(split_seq(line@, separator)[i as int]));
        }
        let ghost before = views(r@);
        r.push(t);
        proof {
            assert(views(r@) =~= before.push(t@));
            assert(line_fields(line@, separator).take(i + 1) =~= line_fields(line@, separator).take(i as int).push(
                t@,
            ));
            assert(views(r@) =~= line_fields(line@, separator).take(i + 1));
        }
        i = i + 1;
    }
    assert(line_fields(line@, separator).take(i as int) =~= line_fields(line@, separator));
    r
}

/// The fields of a record line (see `record_fields`).
pub fn split_record(line: &str, separator: char) -> (r: Vec<String>)
    ensures
        views(r@) == record_fields(line@, separator),
{
    let t = trim(line);
    split_char(t.as_str(), separator)
}

/// The first characters of `s`, at most two.
pub open spec fn first_two_chars(s: Seq<char>) -> Seq<char> {
    if s.len() < 2 {
        s
    } else {
        s.take(2)
    }
}

/// A series read from the fields `f` of a series file: id, title, area and
/// item codes in that order; the survey code is the id's first two
/// characters; the metadata are the defaults and the other codes empty.
pub open spec fn series_from_fields(s: Series, f: Seq<Seq<char>>) -> bool {
    &&& s.series_id@ == f[0]
    &&& s.title@ == f[1]
    &&& s.area_code@ == f[2]
    &&& s.item_code@ == f[3]
    &&& s.survey_code@ == first_two_chars(f[0])
    &&& default_series_metadata(s.metadata)
    &&& s.common.version == 1
    &&& s.periodicity_code@.len() == 0
    &&& s.seasonal@.len() == 0
    &&& s.base_period@.len() == 0
    &&& s.base_code@.len() == 0
}

/// A lookup read from the fields `f` of a lookup file: its table id and
/// name are the first two fields.
pub open spec fn lookup_from_fields(l: Lookup, f: Seq<Seq<char>>) -> bool {
    &&& l.table_id@ == f[0]
    &&& l.table_name@ == f[1]
    &&& l.survey_code@ == "XX"@
    &&& l.entries@ == Map::<Seq<char>, crate::model::lookup::LookupEntry>::empty()
}

/// The format error "`message`" of data records.
pub open spec fn record_format_error(e: Error, message: Seq<char>) -> bool {
    e matches Error::Data(DataError::FormatError { message: m, expected: x, actual: a }) && m@ == message
        && x@ == "valid format"@ && a@ == "invalid format"@
}

/// The validation error "`message`" of data records, without path or line.
pub open spec fn record_validation_error(e: Error, message: Seq<char>) -> bool {
    e matches Error::Data(DataError::ValidationError { message: m, path: p, line: l }) && m@ == message
        && p is None && l is None
}

/// The first characters of `s`, at most two.
fn first_two(s: &str) -> (r: String)
    ensures
        r@ == first_two_chars(s@),
{
    let n = s.unicode_len();
    let mut v: Vec<char> = Vec::new();
    if n >= 1 {
        v.push(s.get_char(0));
    }
    if n >= 2 {
        v.push(s.get_char(1));
    }
    let r = string_from_chars(v.as_slice());
    assert(r@ =~= first_two_chars(s@));
    r
}

/// The series of the fields of a series file (see `series_from_fields`),
/// or, with fewer than four fields, the error "Series record must have at
/// least 4 fields".
pub fn parse_series_record_static(fields: &[String]) -> (r: Result<Series, Error>)
    ensures
        fields@.len() >= 4 ==> (r matches Ok(s) && series_from_fields(s, views(fields@))),
        fields@.len() < 4 ==> (r matches Err(e) && record_format_error(e, "Series record must have at least 4 fields"@)),
{
    if fields.len() < 4 {
        return Err(Error::Data(DataError::invalid_format(owned("Series record must have at least 4 fields"))));
    }
    let series_id = fields[0].clone();
    let survey_code = first_two(series_id.as_str());
    Ok(
        Series {
            series_id,
            title: fields[1].clone(),
            area_code: fields[2].clone(),
            item_code: fields[3].clone(),
            survey_code,
            metadata: SeriesMetadata::default(),
            common: CommonMetadata::new(),
            periodicity_code: String::new(),
            seasonal: String::new(),
            base_period: String::new(),
            base_code: String::new(),
        },
    )
}

/// The lookup of the fields of a lookup file (see `lookup_from_fields`),
/// or, with fewer than two fields, the error "Lookup record must have at
/// least 2 fields".
pub fn parse_lookup_record_static(fields: &[String]) -> (r: Result<Lookup, Error>)
    ensures
        fields@.len() >= 2 ==> (r matches Ok(l) && lookup_from_fields(l, views(fields@))),
        fields@.len() < 2 ==> (r matches Err(e) && record_format_error(e, "Lookup record must have at least 2 fields"@)),
{
    if fields.len() < 2 {
        return Err(Error::Data(DataError::invalid_format(owned("Lookup record must have at least 2 fields"))));
    }
    Ok(Lookup::new(fields[0].as_str(), fields[1].as_str()))
}

/// Whether a file can be read, from whether it exists and is a regular
/// file, and its path: a file with extension "series", "data", "area",
/// "item" or "txt"; a file without extension whose name contains ".series",
/// ".data", ".area" or ".item".
pub open spec fn readable(path: Seq<char>, file_exists: bool, is_file: bool) -> bool {
    &&& file_exists
    &&& is_file
    &&& match extension(path) {
        Some(e) => e == "series"@ || e == "data"@ || e == "area"@ || e == "item"@ || e == "txt"@,
        None => match file_name(path) {
            Some(n) => has_sub(n, ".series"@) || has_sub(n, ".data"@) || has_sub(n, ".area"@) || has_sub(
                n,
                ".item"@,
            ),
            None => false,
        },
    }
}

/// A reader of delimited files: its settings, statistics and the file it
/// has open. The caller opens the file and reads its lines.
#[derive(Debug)]
pub struct FileReader {
    config: ReaderConfig,
    stats: ReadStats,
    current_file: Option<String>,
}

/// Progress of a scan over a series file.
#[derive(Debug)]
pub struct SeriesScan {
    /// The series read so far.
    pub series: Vec<Series>,
    /// Malformed lines so far.
    pub errors: u64,
    /// Bytes of the lines so far.
    pub bytes: u64,
}

/// Progress of a scan over a lookup file.
#[derive(Debug)]
pub struct LookupScan {
    /// The lookups read so far.
    pub lookups: Vec<Lookup>,
    /// Malformed lines so far.
    pub errors: u64,
    /// Bytes of the lines so far.
    pub bytes: u64,
}

/// Progress of a count of records.
#[derive(Debug, Clone, Copy, PartialEq, Eq, Structural)]
pub struct RecordCount {
    /// Records counted so far.
    pub count: u64,
    /// Bytes of the lines so far.
    pub bytes: u64,
}

impl SeriesScan {
    /// Nothing read yet.
    pub fn new() -> (s: Self)
        ensures
            s.series@.len() == 0,
            s.errors == 0,
            s.bytes == 0,
    {
        SeriesScan { series: Vec::new(), errors: 0, bytes: 0 }
    }
}

impl LookupScan {
    /// Nothing read yet.
    pub fn new() -> (s: Self)
        ensures
            s.lookups@.len() == 0,
            s.errors == 0,
            s.bytes == 0,
    {
        LookupScan { lookups: Vec::new(), errors: 0, bytes: 0 }
    }
}

impl RecordCount {
    /// Nothing counted yet.
    pub fn new() -> (c: Self)
        ensures
            c.count == 0,
            c.bytes == 0,
    {
        RecordCount { count: 0, bytes: 0 }
    }
}

impl FileReader {
    /// A reader with `config`, zero statistics and no file open.
    pub fn new(config: ReaderConfig) -> (r: Self)
        ensures
            r.config_of() == config,
            r.stats_of() == zero_read_stats(),
            r.current_file_of() is None,
    {
        FileReader { config, stats: ReadStats::default(), current_file: None }
    }

    /// The settings.
    pub closed spec fn config_of(&self) -> ReaderConfig {
        self.config
    }

    /// The statistics.
    pub closed spec fn stats_of(&self) -> ReadStats {
        self.stats
    }

    /// The path of the open file, if one is open.
    pub closed spec fn current_file_of(&self) -> Option<Seq<char>> {
        match self.current_file {
            Some(p) => Some(p@),
            None => None,
        }
    }

    /// The settings.
    pub fn config(&self) -> (r: &ReaderConfig)
        ensures
            *r == self.config_of(),
    {
        &self.config
    }

    /// The statistics.
    pub fn stats(&self) -> (r: &ReadStats)
        ensures
            *r == self.stats_of(),
    {
        &self.stats
    }

    /// Sets all statistics to zero.
    pub fn reset_stats(&mut self)
        ensures
            final(self).stats_of() == zero_read_stats(),
            final(self).config_of() == old(self).config_of(),
            final(self).current_file_of() == old(self).current_file_of(),
    {
        self.stats = ReadStats::default();
    }

    /// Whether a file is open.
    pub fn is_open(&self) -> (b: bool)
        ensures
            b == self.current_file_of() is Some,
    {
        self.current_file.is_some()
    }

    /// The path of the open file, if one is open.
    pub fn current_file(&self) -> (r: Option<&str>)
        ensures
            match r {
                Some(p) => self.current_file_of() == Some(p@),
                None => self.current_file_of() is None,
            },
    {
        match &self.current_file {
            Some(p) => Some(p.as_str()),
            None => None,
        }
    }

    /// Records that the file at `path` was opened: it is the current file
    /// and the statistics start from zero.
    pub fn opened(&mut self, path: &str)
        ensures
            final(self).current_file_of() == Some(path@),
            final(self).stats_of() == zero_read_stats(),
            final(self).config_of() == old(self).config_of(),
    {
        self.current_file = Some(owned(path));
        self.reset_stats();
    }

    /// Records that the file was closed.
    pub fn closed(&mut self)
        ensures
            final(self).current_file_of() is None,
            final(self).stats_of() == old(self).stats_of(),
            final(self).config_of() == old(self).config_of(),
    {
        self.current_file = None;
    }

    /// Whether the file at `path` can be read (see `readable`), given
    /// whether it exists and is a regular file.
    pub fn can_read(&self, path: &str, file_exists: bool, is_file: bool) -> (r: crate::error::Result<bool>)
        ensures
            r matches Ok(b) && b == readable(path@, file_exists, is_file),
    {
        if !file_exists || !is_file {
            return Ok(false);
        }
        match path_extension(path) {
            Some(ext) => {
                let e = ext.as_str();
                Ok(
                    str_eq(e, "series") || str_eq(e, "data") || str_eq(e, "area") || str_eq(e, "item") || str_eq(
                        e,
                        "txt",
                    ),
                )
            },
            None => match path_file_name(path) {
                Some(name) => {
                    let n = name.as_str();
                    Ok(
                        contains_str(n, ".series") || contains_str(n, ".data") || contains_str(n, ".area")
                            || contains_str(n, ".item"),
                    )
                },
                None => Ok(false),
            },
        }
    }

    /// The fields of `line`, cut at the configured separator and each
    /// trimmed.
    pub fn parse_line(&self, line: &str) -> (r: Vec<String>)
        ensures
            views(r@) == line_fields(line@, self.config_of().field_separator),
    {
        split_fields(line, self.config.field_separator)
    }

    /// A series with default metadata from the fields of a series line: its
    /// id and title are the first two fields; with fewer than two fields,
    /// the error "Series record must have at least 2 fields". The id's
    /// second byte must not fall inside a character (see `Series::new`).
    pub fn parse_series_record(&self, fields: &[String]) -> (r: Result<Series, Error>)
        requires
            fields@.len() >= 2 ==> (at_least_two_bytes(fields@[0]@) ==> two_byte_boundary(fields@[0]@)),
        ensures
            fields@.len() >= 2 ==> (r matches Ok(s) && s.series_id@ == fields@[0]@ && s.title@ == fields@[1]@
                && s.survey_code@ == survey_code_of(fields@[0]@) && default_series_metadata(s.metadata)),
            fields@.len() < 2 ==> (r matches Err(e) && record_format_error(e, "Series record must have at least 2 fields"@)),
    {
        if fields.len() < 2 {
            return Err(Error::Data(DataError::invalid_format(owned("Series record must have at least 2 fields"))));
        }
        Ok(Series::new(fields[0].as_str(), fields[1].as_str()))
    }

    /// A lookup from the fields of a lookup line (see
    /// `parse_lookup_record_static`).
    pub fn parse_lookup_record(&self, fields: &[String]) -> (r: Result<Lookup, Error>)
        ensures
            fields@.len() >= 2 ==> (r matches Ok(l) && lookup_from_fields(l, views(fields@))),
            fields@.len() < 2 ==> (r matches Err(e) && record_format_error(e, "Lookup record must have at least 2 fields"@)),
    {
        parse_lookup_record_static(fields)
    }

    /// Adds a scan's counts and its duration, in milliseconds, to the
    /// statistics.
    pub fn update_stats(&mut self, records_processed: u64, bytes_processed: u64, errors: u64, elapsed_ms: u64)
        requires
            old(self).stats_of().records_read + records_processed <= u64::MAX,
            old(self).stats_of().bytes_processed + bytes_processed <= u64::MAX,
            old(self).stats_of().errors_encountered + errors <= u64::MAX,
            old(self).stats_of().read_time_ms + elapsed_ms <= u64::MAX,
        ensures
            final(self).stats_of() == (ReadStats {
                records_read: (old(self).stats_of().records_read + records_processed) as u64,
                bytes_processed: (old(self).stats_of().bytes_processed + bytes_processed) as u64,
                errors_encountered: (old(self).stats_of().errors_encountered + errors) as u64,
                read_time_ms: (old(self).stats_of().read_time_ms + elapsed_ms) as u64,
                ..old(self).stats_of()
            }),
            final(self).config_of() == old(self).config_of(),
            final(self).current_file_of() == old(self).current_file_of(),
    {
        self.stats.records_read = self.stats.records_read + records_processed;
        self.stats.bytes_processed = self.stats.bytes_processed + bytes_processed;
        self.stats.errors_encountered = self.stats.errors_encountered + errors;
        self.stats.read_time_ms = self.stats.read_time_ms + elapsed_ms;
    }
}

/// The error that ends a scan after too many malformed lines.
pub open spec fn too_many_errors(e: Error, max: usize) -> bool {
    record_validation_error(e, "Exceeded maximum error count: "@ + dec(max as nat))
}

impl FileReader {
    /// The fields of a record line under the configured separator.
    fn record_of(&self, line: &str) -> (r: Vec<String>)
        ensures
            views(r@) == record_fields(line@, self.config_of().field_separator),
    {
        split_record(line, self.config.field_separator)
    }

    /// One more line of a scan over a series file. Its bytes are counted.
    /// A line of at least four fields adds its series (see
    /// `series_from_fields`). Any other line is malformed: it is counted,
    /// and unless malformed lines are skipped the scan ends with the error
    /// "Invalid series record: " followed by the line. When more lines are
    /// then malformed than the configured maximum, the scan ends with the
    /// error "Exceeded maximum error count: " and the maximum.
    pub fn scan_series_line(&self, scan: &mut SeriesScan, line: &str) -> (r: Result<(), Error>)
        requires
            old(scan).bytes + byte_len(line@) <= u64::MAX,
            old(scan).errors <= self.config_of().max_errors,
            old(scan).errors < u64::MAX,
        ensures
            final(scan).bytes == old(scan).bytes + byte_len(line@),
            ({
                let f = record_fields(line@, self.config_of().field_separator);
                let max = self.config_of().max_errors;
                if f.len() >= 4 {
                    &&& r is Ok
                    &&& final(scan).errors == old(scan).errors
                    &&& final(scan).series@.len() == old(scan).series@.len() + 1
                    &&& final(scan).series@.drop_last() == old(scan).series@
                    &&& series_from_fields(final(scan).series@.last(), f)
                } else {
                    &&& final(scan).series@ == old(scan).series@
                    &&& final(scan).errors == old(scan).errors + 1
                    &&& !self.config_of().skip_malformed ==> (r matches Err(e) && record_validation_error(
                        e,
                        "Invalid series record: "@ + line@,
                    ))
                    &&& self.config_of().skip_malformed ==> if final(scan).errors > max {
                        r matches Err(e) && too_many_errors(e, max)
                    } else {
                        r is Ok
                    }
                }
            }),
    {
        scan.bytes = scan.bytes + line.len() as u64;
        let fields = self.record_of(line);
        if fields.len() >= 4 {
            match parse_series_record_static(fields.as_slice()) {
                Ok(series) => {
                    scan.series.push(series);
                    assert(scan.series@.drop_last() =~= old(scan).series@);
                },
                Err(_) => {
                    scan.errors = scan.errors + 1;
                    if !self.config.skip_malformed {
                        return Err(Error::Data(DataError::parse_error(cat("Failed to parse series record: ", line))));
                    }
                },
            }
        } else {
            scan.errors = scan.errors + 1;
            if !self.config.skip_malformed {
                return Err(Error::Data(DataError::missing_value(cat("Invalid series record: ", line))));
            }
        }
        if scan.errors > self.config.max_errors as u64 {
            return Err(
                Error::Data(
                    DataError::too_many_errors(
                        cat("Exceeded maximum error count: ", decimal(self.config.max_errors as u64).as_str()),
                    ),
                ),
            );
        }
        Ok(())
    }

    /// One more line of a search for the series `series_id`: its bytes are
    /// counted; the line's series when its first field is `series_id` and
    /// it has at least four fields.
    pub fn scan_series_by_id_line(&self, bytes: &mut u64, line: &str, series_id: &str) -> (r: Option<Series>)
        requires
            *old(bytes) + byte_len(line@) <= u64::MAX,
        ensures
            *final(bytes) == *old(bytes) + byte_len(line@),
            ({
                let f = record_fields(line@, self.config_of().field_separator);
                if f.len() >= 4 && f[0] == series_id@ {
                    r matches Some(s) && series_from_fields(s, f)
                } else {
                    r is None
                }
            }),
    {
        *bytes = *bytes + line.len() as u64;
        let fields = self.record_of(line);
        if fields.len() > 0 && str_eq(fields[0].as_str(), series_id) {
            if fields.len() >= 4 {
                match parse_series_record_static(fields.as_slice()) {
                    Ok(series) => return Some(series),
                    Err(_) => {},
                }
            }
        }
        None
    }

    /// One more line of a count of series: its bytes are counted, and the
    /// line is counted when it has at least four fields.
    pub fn count_series_line(&self, c: &mut RecordCount, line: &str)
        requires
            old(c).bytes + byte_len(line@) <= u64::MAX,
            old(c).count < u64::MAX,
        ensures
            final(c).bytes == old(c).bytes + byte_len(line@),
            final(c).count == old(c).count + if record_fields(line@, self.config_of().field_separator).len() >= 4 {
                1int
            } else {
                0int
            },
    {
        c.bytes = c.bytes + line.len() as u64;
        let fields = self.record_of(line);
        if fields.len() >= 4 {
            c.count = c.count + 1;
        }
    }

    /// One more line of a walk over the series of a file: its bytes are
    /// counted; the line's series when it has at least four fields.
    pub fn each_series_line(&self, bytes: &mut u64, line: &str) -> (r: Option<Series>)
        requires
            *old(bytes) + byte_len(line@) <= u64::MAX,
        ensures
            *final(bytes) == *old(bytes) + byte_len(line@),
            ({
                let f = record_fields(line@, self.config_of().field_separator);
                if f.len() >= 4 {
                    r matches Some(s) && series_from_fields(s, f)
                } else {
                    r is None
                }
            }),
    {
        *bytes = *bytes + line.len() as u64;
        let fields = self.record_of(line);
        if fields.len() >= 4 {
            match parse_series_record_static(fields.as_slice()) {
                Ok(series) => return Some(series),
                Err(_) => {},
            }
        }
        None
    }

    /// One more line of a scan over a lookup file: its bytes are counted;
    /// a line of at least two fields adds its lookup (see
    /// `lookup_from_fields`); shorter lines are passed over.
    pub fn scan_lookup_line(&self, scan: &mut LookupScan, line: &str)
        requires
            old(scan).bytes + byte_len(line@) <= u64::MAX,
        ensures
            final(scan).bytes == old(scan).bytes + byte_len(line@),
            final(scan).errors == old(scan).errors,
            ({
                let f = record_fields(line@, self.config_of().field_separator);
                if f.len() >= 2 {
                    &&& final(scan).lookups@.len() == old(scan).lookups@.len() + 1
                    &&& final(scan).lookups@.drop_last() == old(scan).lookups@
                    &&& lookup_from_fields(final(scan).lookups@.last(), f)
                } else {
                    final(scan).lookups@ == old(scan).lookups@
                }
            }),
    {
        scan.bytes = scan.bytes + line.len() as u64;
        let fields = self.record_of(line);
        if fields.len() >= 2 {
            match parse_lookup_record_static(fields.as_slice()) {
                Ok(lookup) => {
                    scan.lookups.push(lookup);
                    assert(scan.lookups@.drop_last() =~= old(scan).lookups@);
                },
                Err(_) => {},
            }
        }
    }

    /// One more line of a search for the lookup holding the entry `code`:
    /// its bytes are counted; the line's lookup when it has at least two
    /// fields and holds an entry `code`. A lookup read from a line holds no
    /// entries, so none is found.
    pub fn scan_lookup_by_code_line(&self, bytes: &mut u64, line: &str, code: &str) -> (r: Option<Lookup>)
        requires
            *old(bytes) + byte_len(line@) <= u64::MAX,
        ensures
            *final(bytes) == *old(bytes) + byte_len(line@),
            r is None,
    {
        *bytes = *bytes + line.len() as u64;
        let fields = self.record_of(line);
        if fields.len() >= 2 {
            match parse_lookup_record_static(fields.as_slice()) {
                Ok(lookup) => {
                    if lookup.contains_entry(code) {
                        return Some(lookup);
                    }
                },
                Err(_) => {},
            }
        }
        None
    }

    /// One more line of a count of lookups: its bytes are counted, and the
    /// line is counted when it has at least two fields.
    pub fn count_lookup_line(&self, c: &mut RecordCount, line: &str)
        requires
            old(c).bytes + byte_len(line@) <= u64::MAX,
            old(c).count < u64::MAX,
        ensures
            final(c).bytes == old(c).bytes + byte_len(line@),
            final(c).count == old(c).count + if record_fields(line@, self.config_of().field_separator).len() >= 2 {
                1int
            } else {
                0int
            },
    {
        c.bytes = c.bytes + line.len() as u64;
        let fields = self.record_of(line);
        if fields.len() >= 2 {
            c.count = c.count + 1;
        }
    }

    /// One more line of a walk over the lookups of a file: its bytes are
    /// counted; the line's lookup when it has at least two fields.
    pub fn each_lookup_line(&self, bytes: &mut u64, line: &str) -> (r: Option<Lookup>)
        requires
            *old(bytes) + byte_len(line@) <= u64::MAX,
        ensures
            *final(bytes) == *old(bytes) + byte_len(line@),
            ({
                let f = record_fields(line@, self.config_of().field_separator);
                if f.len() >= 2 {
                    r matches Some(l) && lookup_from_fields(l, f)
                } else {
                    r is None
                }
            }),
    {
        *bytes = *bytes + line.len() as u64;
        let fields = self.record_of(line);
        if fields.len() >= 2 {
            match parse_lookup_record_static(fields.as_slice()) {
                Ok(lookup) => return Some(lookup),
                Err(_) => {},
            }
        }
        None
    }
}


/// The plain parts of an observation record: series id, year, period and
/// the text of the value. The value is a floating-point number, which the
/// caller reads from its text.
#[derive(Debug)]
pub struct ObservationFields {
    pub series_id: String,
    pub year: i32,
    pub period: String,
    /// The value's text; none where the field is empty or "-".
    pub value_text: Option<String>,
}

/// The text of an observation's value field: none where it is empty or "-".
pub open spec fn value_text_of(f: Seq<char>) -> Option<Seq<char>> {
    if f.len() == 0 || f == "-"@ {
        None
    } else {
        Some(f)
    }
}

/// The fields `f` make an observation record: there are at least four and
/// the second is an `i32`.
pub open spec fn observation_record(f: Seq<Seq<char>>) -> bool {
    f.len() >= 4 && parse_signed(f[1], i32::MIN as int, i32::MAX as int) is Some
}

/// The parts of the observation record of fields `f`: series id, year,
/// period and value, in that order.
pub open spec fn observation_parts(o: ObservationFields, f: Seq<Seq<char>>) -> bool {
    &&& o.series_id@ == f[0]
    &&& parse_signed(f[1], i32::MIN as int, i32::MAX as int) == Some(o.year as int)
    &&& o.period@ == f[2]
    &&& opt_text(o.value_text) == value_text_of(f[3])
}

/// The parts of an observation record (see `observation_parts`), or none
/// where the fields make no observation record.
pub fn observation_fields(fields: &[String]) -> (r: Option<ObservationFields>)
    ensures
        r is Some <==> observation_record(views(fields@)),
        r matches Some(o) ==> observation_parts(o, views(fields@)),
{
    if fields.len() < 4 {
        return None;
    }
    proof {
        assert(views(fields@)[1] == fields@[1]@);
        assert(views(fields@)[0] == fields@[0]@);
        assert(views(fields@)[2] == fields@[2]@);
        assert(views(fields@)[3] == fields@[3]@);
    }
    let year = match parse_i32(fields[1].as_str()) {
        Some(y) => y,
        None => return None,
    };
    let v = fields[3].as_str();
    let value_text = if v.unicode_len() == 0 || str_eq(v, "-") {
        None
    } else {
        Some(owned(v))
    };
    proof {
        reveal_strlit("-");
    }
    Some(ObservationFields { series_id: owned(fields[0].as_str()), year, period: owned(fields[2].as_str()), value_text })
}

/// What a line of an observation file holds.
#[derive(Debug)]
pub enum ObservationLine {
    /// Fewer than four fields: the line is passed over.
    Short,
    /// Four fields or more, but no `i32` year.
    Malformed,
    /// The parts of an observation record.
    Record(ObservationFields),
}

/// `period` lies between `start` and `end`, both included, in the order of
/// strings.
pub open spec fn period_in_range(period: Seq<char>, start: Seq<char>, end: Seq<char>) -> bool {
    lex_le(start, period) && lex_le(period, end)
}

/// Whether `period` lies between `start` and `end` (see `period_in_range`).
pub fn in_period_range(period: &str, start: &str, end: &str) -> (b: bool)
    ensures
        b == period_in_range(period@, start@, end@),
{
    lex_le_exec(start, period) && lex_le_exec(period, end)
}

/// Which observation records a read takes: all of them, those of one
/// series, or those whose period lies in a range.
#[derive(Debug, Clone)]
pub enum ObservationFilter {
    All,
    Series(String),
    Periods(String, String),
}

/// Whether a read with `filter` takes the record of series `series_id`
/// for `period`.
pub open spec fn filter_takes(filter: ObservationFilter, series_id: Seq<char>, period: Seq<char>) -> bool {
    match filter {
        ObservationFilter::All => true,
        ObservationFilter::Series(id) => series_id == id@,
        ObservationFilter::Periods(start, end) => period_in_range(period, start@, end@),
    }
}

/// Whether a read with `filter` takes the record of series `series_id` for
/// `period` (see `filter_takes`).
pub fn takes_observation(filter: &ObservationFilter, series_id: &str, period: &str) -> (b: bool)
    ensures
        b == filter_takes(*filter, series_id@, period@),
{
    match filter {
        ObservationFilter::All => true,
        ObservationFilter::Series(id) => str_eq(series_id, id.as_str()),
        ObservationFilter::Periods(start, end) => in_period_range(period, start.as_str(), end.as_str()),
    }
}

/// Whether a read that has taken `taken` records is done before the next
/// line: only a batch read is, once it holds `limit` records.
pub fn batch_full(taken: u64, limit: Option<usize>) -> (b: bool)
    ensures
        b == match limit {
            Some(n) => taken >= n,
            None => false,
        },
{
    match limit {
        Some(n) => taken as u128 >= n as u128,
        None => false,
    }
}

/// The validation error "`message`" of the file `path`, without a line.
pub open spec fn file_validation_error(e: Error, message: Seq<char>, path: Seq<char>) -> bool {
    &&& e matches Error::Data(DataError::ValidationError { message: m, path: p, line: l })
    &&& m@ == message
    &&& opt_text(p) == Some(path)
    &&& l is None
}

impl FileReader {
    /// The path of the open file, or the empty text.
    pub open spec fn file_name(&self) -> Seq<char> {
        match self.current_file_of() {
            Some(p) => p,
            None => Seq::empty(),
        }
    }

    fn file_name_text(&self) -> (r: String)
        ensures
            r@ == self.file_name(),
    {
        match &self.current_file {
            Some(p) => owned(p.as_str()),
            None => {
                proof {
                    reveal_strlit("");
                }
                owned("")
            },
        }
    }

    /// One more line of an observation file: its bytes are counted and its
    /// record fields read (see `record_fields`): with fewer than four the
    /// line is short; otherwise it is a record when its fields make one
    /// (see `observation_fields`), else malformed.
    pub fn observation_line(&self, bytes: &mut u64, line: &str) -> (r: ObservationLine)
        requires
            *old(bytes) + byte_len(line@) <= u64::MAX,
        ensures
            *final(bytes) == *old(bytes) + byte_len(line@),
            ({
                let f = record_fields(line@, self.config_of().field_separator);
                if f.len() < 4 {
                    r is Short
                } else if observation_record(f) {
                    r matches ObservationLine::Record(o) && observation_parts(o, f)
                } else {
                    r is Malformed
                }
            }),
    {
        *bytes = *bytes + line.len() as u64;
        let fields = self.record_of(line);
        if fields.len() < 4 {
            return ObservationLine::Short;
        }
        match observation_fields(fields.as_slice()) {
            Some(o) => ObservationLine::Record(o),
            None => ObservationLine::Malformed,
        }
    }

    /// A malformed observation line: it is counted, and unless malformed
    /// lines are skipped the error "Failed to parse observation record: "
    /// followed by the trimmed line, naming the open file.
    pub fn malformed_observation(&self, errors: &mut u64, line: &str) -> (r: Result<(), Error>)
        requires
            *old(errors) < u64::MAX,
        ensures
            *final(errors) == *old(errors) + 1,
            self.config_of().skip_malformed ==> r is Ok,
            !self.config_of().skip_malformed ==> (r matches Err(e) && file_validation_error(
                e,
                "Failed to parse observation record: "@ + trim_seq(line@),
                self.file_name(),
            )),
    {
        *errors = *errors + 1;
        if self.config.skip_malformed {
            Ok(())
        } else {
            let t = trim(line);
            Err(
                Error::Data(
                    DataError::ValidationError {
                        message: cat("Failed to parse observation record: ", t.as_str()),
                        path: Some(self.file_name_text()),
                        line: None,
                    },
                ),
            )
        }
    }

    /// The end of a read of all observations once more lines were malformed
    /// than the configured maximum: the error "Exceeded maximum error count:
    /// " and the maximum, naming the open file.
    pub fn observation_error_limit(&self, errors: u64) -> (r: Result<(), Error>)
        ensures
            errors <= self.config_of().max_errors ==> r is Ok,
            errors > self.config_of().max_errors ==> (r matches Err(e) && file_validation_error(
                e,
                "Exceeded maximum error count: "@ + dec(self.config_of().max_errors as nat),
                self.file_name(),
            )),
    {
        if errors > self.config.max_errors as u64 {
            Err(
                Error::Data(
                    DataError::ValidationError {
                        message: cat(
                            "Exceeded maximum error count: ",
                            decimal(self.config.max_errors as u64).as_str(),
                        ),
                        path: Some(self.file_name_text()),
                        line: None,
                    },
                ),
            )
        } else {
            Ok(())
        }
    }
}

} // verus!
