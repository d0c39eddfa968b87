//! Reading the bytes of a memory-mapped file: lines, line starts, byte
//! ranges and the places where a pattern occurs, and which files are worth
//! mapping. The mapping itself is made by the caller, which hands its bytes
//! to these functions.

use vstd::prelude::*;
use vstd::utf8::{decode_utf8, valid_utf8};
use crate::error::types::{DataError, Error};
use crate::paths::{extension, file_name, path_extension, path_file_name};
use crate::reader::records::readable;
use crate::reader::traits::{zero_read_stats, ReadStats, ReaderConfig};
use crate::text::{cat6, contains_str, dec, decimal, has_sub, owned, str_eq};

verus! {

/// `std::str::from_utf8`: the text of `bytes` when they are valid UTF-8,
/// `None` otherwise.
#[verifier::external_body]
fn utf8_text(bytes: &[u8]) -> (r: Option<String>)
    ensures
        r is Some <==> valid_utf8(bytes@),
        r matches Some(s) ==> s@ == decode_utf8(bytes@),
{
    match std::str::from_utf8(bytes) {
        Ok(s) => Some(s.to_string()),
        Err(_) => None,
    }
}

/// What `String::from_utf8_lossy` makes of `bytes`: invalid sequences
/// become U+FFFD.
pub uninterp spec fn utf8_lossy(bytes: Seq<u8>) -> Seq<char>;

/// `String::from_utf8_lossy`: the result is named `utf8_lossy`; valid
/// UTF-8 is decoded as it is.
#[verifier::external_body]
fn lossy_text(bytes: &[u8]) -> (r: String)
    ensures
        r@ == utf8_lossy(bytes@),
        valid_utf8(bytes@) ==> r@ == decode_utf8(bytes@),
{
    String::from_utf8_lossy(bytes).to_string()
}

/// A line-break byte: '\n' or '\r'.
pub open spec fn is_break(b: u8) -> bool {
    b == 10 || b == 13
}

/// The text of `bytes`: decoded when they are valid UTF-8, else decoded
/// with invalid sequences replaced.
pub open spec fn bytes_text(bytes: Seq<u8>) -> Seq<char> {
    if valid_utf8(bytes) {
        decode_utf8(bytes)
    } else {
        utf8_lossy(bytes)
    }
}

/// The first line break of `data` at or after `i`, or its end.
pub open spec fn break_from(data: Seq<u8>, i: int) -> int
    decreases data.len() - i,
{
    if i < 0 || i >= data.len() || is_break(data[i]) {
        i
    } else {
        break_from(data, i + 1)
    }
}

/// The first byte of `data` at or after `i` that is not a line break, or
/// its end.
pub open spec fn skip_breaks(data: Seq<u8>, i: int) -> int
    decreases data.len() - i,
{
    if i < 0 || i >= data.len() || !is_break(data[i]) {
        i
    } else {
        skip_breaks(data, i + 1)
    }
}

/// The line of `data` that starts at `start`: its text, up to the first
/// line break or the end, and where the next line starts, after the run
/// of line breaks that follows.
pub open spec fn line_from(data: Seq<u8>, start: int) -> (Seq<char>, int) {
    let end = break_from(data, start);
    (bytes_text(data.subrange(start, end)), skip_breaks(data, end))
}

/// The line of `data` that starts at `start`, and where the next line
/// starts (see `line_from`); `None` at or past the end of the data.
pub fn line_at(data: &[u8], start: usize) -> (r: Option<(String, usize)>)
    ensures
        start >= data@.len() ==> r is None,
        start < data@.len() ==> (r matches Some((line, next)) && (line@, next as int) == line_from(
            data@,
            start as int,
        )),
{
    if start >= data.len() {
        return None;
    }
    let mut end = start;
    while end < data.len() && data[end] != 10u8 && data[end] != 13u8
        invariant
            start <= end <= data@.len(),
            break_from(data@, start as int) == break_from(data@, end as int),
        decreases data@.len() - end,
    {
        end = end + 1;
    }
    let mut next = end;
    while next < data.len() && (data[next] == 10u8 || data[next] == 13u8)
        invariant
            end <= next <= data@.len(),
            skip_breaks(data@, end as int) == skip_breaks(data@, next as int),
        decreases data@.len() - next,
    {
        next = next + 1;
    }
    let bytes = vstd::slice::slice_subrange(data, start, end);
    let line = match utf8_text(bytes) {
        Some(s) => s,
        None => lossy_text(bytes),
    };
    Some((line, next))
}

/// How many of `data` are the byte `b`.
pub open spec fn count_byte(data: Seq<u8>, b: u8) -> nat
    decreases data.len(),
{
    if data.len() == 0 {
        0
    } else {
        count_byte(data.drop_last(), b) + if data.last() == b {
            1nat
        } else {
            0nat
        }
    }
}

/// The number of '\n' bytes in `data`.
pub fn count_lines(data: &[u8]) -> (n: u64)
    ensures
        n == count_byte(data@, 10),
{
    let mut n: u64 = 0;
    let mut i: usize = 0;
    while i < data.len()
        invariant
            i <= data@.len(),
            n == count_byte(data@.take(i as int), 10),
            n <= i,
        decreases data@.len() - i,
    {
        assert(data@.take(i + 1).drop_last() =~= data@.take(i as int));
        if data[i] == 10u8 {
            n = n + 1;
        }
        i = i + 1;
    }
    assert(data@.take(data@.len() as int) =~= data@);
    n
}

/// The positions where lines of `data` start: 0, then every position
/// right after a '\n' that is not the end of the data.
pub open spec fn line_starts(data: Seq<u8>) -> Seq<usize>
    decreases data.len(),
{
    if data.len() == 0 {
        seq![0usize]
    } else {
        let before = line_starts(data.drop_last());
        let i = data.len() - 1;
        if data.drop_last().len() > 0 && data[i - 1] == 10 {
            before.push(i as usize)
        } else {
            before
        }
    }
}

/// The positions where lines of `data` start (see `line_starts`).
pub fn find_line_positions(data: &[u8]) -> (r: Vec<usize>)
    ensures
        r@ == line_starts(data@),
{
    let mut positions: Vec<usize> = Vec::new();
    positions.push(0);
    let mut i: usize = 0;
    assert(positions@ =~= line_starts(data@.take(0)));
    while i < data.len()
        invariant
            i <= data@.len(),
            positions@ == line_starts(data@.take(i as int)),
        decreases data@.len() - i,
    {
        assert(data@.take(i + 1).drop_last() =~= data@.take(i as int));
        if i >= 1 && data[i - 1] == 10u8 {
            positions.push(i);
        }
        i = i + 1;
    }
    assert(data@.take(data@.len() as int) =~= data@);
    positions
}

/// The positions at which `pattern` occurs in `data`, in order, among the
/// positions up to `limit`.
pub open spec fn occurrences_below(data: Seq<u8>, pattern: Seq<u8>, limit: int) -> Seq<usize>
    decreases limit,
{
    if limit <= 0 {
        Seq::empty()
    } else {
        let before = occurrences_below(data, pattern, limit - 1);
        let i = limit - 1;
        if data.subrange(i, i + pattern.len()) == pattern {
            before.push(i as usize)
        } else {
            before
        }
    }
}

/// Whether `data` holds `pattern` at `i`.
fn bytes_match_at(data: &[u8], pattern: &[u8], i: usize) -> (r: bool)
    requires
        i + pattern@.len() <= data@.len(),
    ensures
        r == (data@.subrange(i as int, i + pattern@.len()) == pattern@),
{
    let mut j: usize = 0;
    while j < pattern.len()
        invariant
            i + pattern@.len() <= data@.len(),
            data@.len() == data.len(),
            j <= pattern@.len(),
            forall|k: int| 0 <= k < j ==> data@[i + k] == pattern@[k],
        decreases pattern@.len() - j,
    {
        if data[i + j] != pattern[j] {
            assert(data@.subrange(i as int, i + pattern@.len())[j as int] != pattern@[j as int]);
            return false;
        }
        j = j + 1;
    }
    assert(data@.subrange(i as int, i + pattern@.len()) =~= pattern@);
    true
}

/// The positions at which `pattern` occurs in `data`, in order; none for
/// an empty pattern. A non-empty pattern longer than the data makes the
/// search read past the data, which panics; such patterns are left out.
pub fn find_pattern(data: &[u8], pattern: &[u8]) -> (r: Vec<usize>)
    requires
        pattern@.len() == 0 || pattern@.len() <= data@.len(),
    ensures
        pattern@.len() == 0 ==> r@.len() == 0,
        pattern@.len() > 0 ==> r@ == occurrences_below(data@, pattern@, data@.len() - pattern@.len() + 1),
{
    let mut positions: Vec<usize> = Vec::new();
    if pattern.len() == 0 {
        return positions;
    }
    let last = data.len() - pattern.len();
    let mut i: usize = 0;
    while i <= last
        invariant
            last + pattern@.len() == data@.len(),
            data@.len() == data.len(),
            pattern@.len() > 0,
            i <= last + 1,
            positions@ == occurrences_below(data@, pattern@, i as int),
        decreases last + 1 - i,
    {
        if bytes_match_at(data, pattern, i) {
            positions.push(i);
        }
        i = i + 1;
    }
    positions
}

/// The bytes `start..start + len` of `data`, or, when they run past its
/// end, the error "Slice range {start}..{end} exceeds file size {size}".
pub fn slice(data: &[u8], start: usize, len: usize) -> (r: Result<&[u8], Error>)
    requires
        start + len <= usize::MAX,
    ensures
        start + len <= data@.len() ==> (r matches Ok(s) && s@ == data@.subrange(start as int, start + len)),
        start + len > data@.len() ==> (r matches Err(Error::Data(DataError::ValidationError { message: m, path: p, line: l })) && m@ == "Slice range "@ + dec(start as nat) + ".."@ + dec((start + len) as nat)
            + " exceeds file size "@ + dec(data@.len()) && p is None && l is None),
{
    if start + len <= data.len() {
        Ok(vstd::slice::slice_subrange(data, start, start + len))
    } else {
        let message = cat6(
            "Slice range ",
            decimal(start as u64).as_str(),
            "..",
            decimal((start + len) as u64).as_str(),
            " exceeds file size ",
            decimal(data.len() as u64).as_str(),
        );
        Err(Error::Data(DataError::invalid_range(message)))
    }
}

/// The size from which files are memory-mapped: 10 MB.
pub const MMAP_MIN_SIZE: u64 = 10000000;

/// Whether a file is worth mapping: a readable file (see `readable`) whose
/// size, when it is known, is at least 10 MB.
pub open spec fn mappable(path: Seq<char>, file_exists: bool, is_file: bool, size: Option<u64>) -> bool {
    &&& readable(path, file_exists, is_file)
    &&& match size {
        Some(n) => n >= MMAP_MIN_SIZE,
        None => true,
    }
}

/// A reader of memory-mapped files: its settings, statistics, the file it
/// has open and the position reached in it. The caller maps the file and
/// hands its bytes to the reader's methods.
#[derive(Debug)]
pub struct MmapReader {
    config: ReaderConfig,
    stats: ReadStats,
    current_file: Option<String>,
    current_position: usize,
}

impl MmapReader {
    /// A reader with `config`, zero statistics and no file open.
    pub fn new(config: ReaderConfig) -> (r: Self)
        ensures
            r.config_of() == config,
            r.stats_of() == zero_read_stats(),
            r.current_file_of() is None,
            r.position() == 0,
    {
        MmapReader { config, stats: ReadStats::default(), current_file: None, current_position: 0 }
    }

    /// The settings.
    pub closed spec fn config_of(&self) -> ReaderConfig {
        self.config
    }

    /// The statistics.
    pub closed spec fn stats_of(&self) -> ReadStats {
        self.stats
    }

    /// The path of the mapped file, if one is open.
    pub closed spec fn current_file_of(&self) -> Option<Seq<char>> {
        match self.current_file {
            Some(p) => Some(p@),
            None => None,
        }
    }

    /// The position reached in the mapped file.
    pub closed spec fn position(&self) -> usize {
        self.current_position
    }

    /// The settings.
    pub fn config(&self) -> (r: &ReaderConfig)
        ensures
            *r == self.config_of(),
    {
        &self.config
    }

    /// The statistics.
    pub fn stats(&self) -> (r: &ReadStats)
        ensures
            *r == self.stats_of(),
    {
        &self.stats
    }

    /// Sets all statistics to zero.
    pub fn reset_stats(&mut self)
        ensures
            final(self).stats_of() == zero_read_stats(),
            final(self).config_of() == old(self).config_of(),
            final(self).current_file_of() == old(self).current_file_of(),
            final(self).position() == old(self).position(),
    {
        self.stats = ReadStats::default();
    }

    /// Adds a read's counts and its duration, in milliseconds, to the
    /// statistics.
    pub fn update_stats(&mut self, records_processed: u64, bytes_processed: u64, errors: u64, elapsed_ms: u64)
        requires
            old(self).stats_of().records_read + records_processed <= u64::MAX,
            old(self).stats_of().bytes_processed + bytes_processed <= u64::MAX,
            old(self).stats_of().errors_encountered + errors <= u64::MAX,
            old(self).stats_of().read_time_ms + elapsed_ms <= u64::MAX,
        ensures
            final(self).stats_of() == (ReadStats {
                records_read: (old(self).stats_of().records_read + records_processed) as u64,
                bytes_processed: (old(self).stats_of().bytes_processed + bytes_processed) as u64,
                errors_encountered: (old(self).stats_of().errors_encountered + errors) as u64,
                read_time_ms: (old(self).stats_of().read_time_ms + elapsed_ms) as u64,
                ..old(self).stats_of()
            }),
            final(self).config_of() == old(self).config_of(),
            final(self).current_file_of() == old(self).current_file_of(),
            final(self).position() == old(self).position(),
    {
        self.stats.records_read = self.stats.records_read + records_processed;
        self.stats.bytes_processed = self.stats.bytes_processed + bytes_processed;
        self.stats.errors_encountered = self.stats.errors_encountered + errors;
        self.stats.read_time_ms = self.stats.read_time_ms + elapsed_ms;
    }

    /// Whether a file is mapped.
    pub fn is_open(&self) -> (b: bool)
        ensures
            b == self.current_file_of() is Some,
    {
        self.current_file.is_some()
    }

    /// The path of the mapped file, if one is open.
    pub fn current_file(&self) -> (r: Option<&str>)
        ensures
            match r {
                Some(p) => self.current_file_of() == Some(p@),
                None => self.current_file_of() is None,
            },
    {
        match &self.current_file {
            Some(p) => Some(p.as_str()),
            None => None,
        }
    }

    /// Records that the file at `path` was mapped: it is the current file,
    /// reading starts at its beginning and the statistics from zero.
    pub fn opened(&mut self, path: &str)
        ensures
            final(self).current_file_of() == Some(path@),
            final(self).position() == 0,
            final(self).stats_of() == zero_read_stats(),
            final(self).config_of() == old(self).config_of(),
    {
        self.current_file = Some(owned(path));
        self.current_position = 0;
        self.reset_stats();
    }

    /// Records that the mapping was dropped.
    pub fn closed(&mut self)
        ensures
            final(self).current_file_of() is None,
            final(self).position() == 0,
            final(self).stats_of() == old(self).stats_of(),
            final(self).config_of() == old(self).config_of(),
    {
        self.current_file = None;
        self.current_position = 0;
    }

    /// Whether the file at `path` is worth mapping (see `mappable`), given
    /// whether it exists, is a regular file, and its size when known.
    pub fn can_read(&self, path: &str, file_exists: bool, is_file: bool, file_size: Option<u64>) -> (r: crate::error::Result<bool>)
        ensures
            r matches Ok(b) && b == mappable(path@, file_exists, is_file, file_size),
    {
        if !file_exists || !is_file {
            return Ok(false);
        }
        match file_size {
            Some(n) => {
                if n < MMAP_MIN_SIZE {
                    return Ok(false);
                }
            },
            None => {},
        }
        match path_extension(path) {
            Some(ext) => {
                let e = ext.as_str();
                Ok(
                    str_eq(e, "series") || str_eq(e, "data") || str_eq(e, "area") || str_eq(e, "item") || str_eq(
                        e,
                        "txt",
                    ),
                )
            },
            None => match path_file_name(path) {
                Some(name) => {
                    let n = name.as_str();
                    Ok(
                        contains_str(n, ".series") || contains_str(n, ".data") || contains_str(n, ".area")
                            || contains_str(n, ".item"),
                    )
                },
                None => Ok(false),
            },
        }
    }

    /// The bytes `start..start + len` of the mapped `data` (see `slice`).
    pub fn slice<'a>(&self, data: &'a [u8], start: usize, len: usize) -> (r: Result<&'a [u8], Error>)
        requires
            start + len <= usize::MAX,
        ensures
            start + len <= data@.len() ==> (r matches Ok(s) && s@ == data@.subrange(start as int, start + len)),
            start + len > data@.len() ==> (r matches Err(Error::Data(DataError::ValidationError { message: m, path: p, line: l })) && m@ == "Slice range "@ + dec(start as nat) + ".."@ + dec((start + len) as nat)
                + " exceeds file size "@ + dec(data@.len()) && p is None && l is None),
    {
        slice(data, start, len)
    }

    /// The positions at which `pattern` occurs in the mapped `data` (see
    /// `find_pattern`).
    pub fn find_pattern(&self, data: &[u8], pattern: &[u8]) -> (r: Vec<usize>)
        requires
            pattern@.len() == 0 || pattern@.len() <= data@.len(),
        ensures
            pattern@.len() == 0 ==> r@.len() == 0,
            pattern@.len() > 0 ==> r@ == occurrences_below(data@, pattern@, data@.len() - pattern@.len() + 1),
    {
        find_pattern(data, pattern)
    }

    /// The next line of the mapped `data` from the reader's position, which
    /// moves to the start of the following line (see `line_at`); `None` at
    /// the end, where the position stays.
    pub fn next_line(&mut self, data: &[u8]) -> (r: Option<String>)
        ensures
            final(self).config_of() == old(self).config_of(),
            final(self).stats_of() == old(self).stats_of(),
            final(self).current_file_of() == old(self).current_file_of(),
            old(self).position() >= data@.len() ==> r is None && final(self).position() == old(self).position(),
            old(self).position() < data@.len() ==> (r matches Some(line) && (line@, final(self).position() as int)
                == line_from(data@, old(self).position() as int)),
    {
        match line_at(data, self.current_position) {
            Some((line, next)) => {
                self.current_position = next;
                Some(line)
            },
            None => None,
        }
    }
}

} // verus!
