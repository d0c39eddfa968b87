//! What each output format accepts and how records are laid out in it:
//! which files a CSV, JSON or Parquet writer writes, the extensions it
//! supports, the header rows of CSV files, and the framing of JSON records
//! as an array or one per line. The files themselves are written by the
//! caller.

use vstd::prelude::*;
use crate::model::lookup::Lookup;
use crate::model::series::Series;
use crate::model::survey::Survey;
use crate::paths::{extension, file_stem, path_extension, path_stem};
use crate::text::{byte_len, cat, ends_with_str, has_suffix, owned, str_eq, views};

verus! {

/// The output formats of the writers.
#[derive(Debug, Clone, Copy, PartialEq, Eq, Structural)]
pub enum OutputFormat {
    Csv,
    Json,
    Parquet,
}

/// Whether a writer of `format` writes the file at `path`, given that the
/// path's directory exists: CSV writes "csv", "tsv" and "txt" files and
/// gzip files whose stem ends in ".csv" or ".tsv"; JSON writes "json" and
/// "jsonl" files and gzip files whose stem ends in ".json" or ".jsonl";
/// Parquet writes "parquet" files.
pub open spec fn writable(format: OutputFormat, path: Seq<char>) -> bool {
    match extension(path) {
        Some(e) => match format {
            OutputFormat::Csv => e == "csv"@ || e == "tsv"@ || e == "txt"@ || (e == "gz"@ && match file_stem(path) {
                Some(s) => has_suffix(s, ".csv"@) || has_suffix(s, ".tsv"@),
                None => false,
            }),
            OutputFormat::Json => e == "json"@ || e == "jsonl"@ || (e == "gz"@ && match file_stem(path) {
                Some(s) => has_suffix(s, ".json"@) || has_suffix(s, ".jsonl"@),
                None => false,
            }),
            OutputFormat::Parquet => e == "parquet"@,
        },
        None => false,
    }
}

/// Whether a writer of `format` can write the file at `path`:
/// `directory_exists` tells whether the path's directory exists (or the
/// path has none); see `writable` for the files each format writes.
pub fn can_write(format: OutputFormat, path: &str, directory_exists: bool) -> (r: crate::error::Result<bool>)
    ensures
        r matches Ok(b) && b == (directory_exists && writable(format, path@)),
{
    if !directory_exists {
        return Ok(false);
    }
    match path_extension(path) {
        Some(ext) => {
            let e = ext.as_str();
            match format {
                OutputFormat::Csv => {
                    if str_eq(e, "csv") || str_eq(e, "tsv") || str_eq(e, "txt") {
                        Ok(true)
                    } else if str_eq(e, "gz") {
                        match path_stem(path) {
                            Some(stem) => Ok(ends_with_str(stem.as_str(), ".csv") || ends_with_str(stem.as_str(), ".tsv")),
                            None => Ok(false),
                        }
                    } else {
                        Ok(false)
                    }
                },
                OutputFormat::Json => {
                    if str_eq(e, "json") || str_eq(e, "jsonl") {
                        Ok(true)
                    } else if str_eq(e, "gz") {
                        match path_stem(path) {
                            Some(stem) => Ok(
                                ends_with_str(stem.as_str(), ".json") || ends_with_str(stem.as_str(), ".jsonl"),
                            ),
                            None => Ok(false),
                        }
                    } else {
                        Ok(false)
                    }
                },
                OutputFormat::Parquet => Ok(str_eq(e, "parquet")),
            }
        },
        None => Ok(false),
    }
}

/// The extensions a writer of `format` supports.
pub open spec fn extensions_of(format: OutputFormat) -> Seq<Seq<char>> {
    match format {
        OutputFormat::Csv => seq!["csv"@, "tsv"@, "txt"@],
        OutputFormat::Json => seq!["json"@, "jsonl"@],
        OutputFormat::Parquet => seq!["parquet"@],
    }
}

/// The extensions a writer of `format` supports.
pub fn supported_extensions(format: OutputFormat) -> (r: Vec<String>)
    ensures
        views(r@) == extensions_of(format),
{
    let mut r: Vec<String> = Vec::new();
    match format {
        OutputFormat::Csv => {
            r.push(owned("csv"));
            r.push(owned("tsv"));
            r.push(owned("txt"));
        },
        OutputFormat::Json => {
            r.push(owned("json"));
            r.push(owned("jsonl"));
        },
        OutputFormat::Parquet => {
            r.push(owned("parquet"));
        },
    }
    assert(views(r@) =~= extensions_of(format));
    r
}

/// The kinds of records written.
#[derive(Debug, Clone, Copy, PartialEq, Eq, Structural)]
pub enum RecordKind {
    Series,
    Observation,
    Lookup,
}

/// The header row of a CSV file of records of `kind`.
pub open spec fn header_row(kind: RecordKind) -> Seq<Seq<char>> {
    match kind {
        RecordKind::Series => seq![
            "series_id"@,
            "title"@,
            "area_code"@,
            "item_code"@,
            "frequency"@,
            "units"@,
            "seasonal_adjustment"@,
            "begin_year"@,
            "begin_period"@,
            "end_year"@,
            "end_period"@,
        ],
        RecordKind::Observation => seq!["series_id"@, "year"@, "period"@, "value"@, "footnote_codes"@],
        RecordKind::Lookup => seq!["code"@, "name"@, "description"@],
    }
}

/// The header row of a CSV file of records of `kind`.
pub fn csv_headers(kind: RecordKind) -> (r: Vec<String>)
    ensures
        views(r@) == header_row(kind),
{
    let mut r: Vec<String> = Vec::new();
    match kind {
        RecordKind::Series => {
            r.push(owned("series_id"));
            r.push(owned("title"));
            r.push(owned("area_code"));
            r.push(owned("item_code"));
            r.push(owned("frequency"));
            r.push(owned("units"));
            r.push(owned("seasonal_adjustment"));
            r.push(owned("begin_year"));
            r.push(owned("begin_period"));
            r.push(owned("end_year"));
            r.push(owned("end_period"));
        },
        RecordKind::Observation => {
            r.push(owned("series_id"));
            r.push(owned("year"));
            r.push(owned("period"));
            r.push(owned("value"));
            r.push(owned("footnote_codes"));
        },
        RecordKind::Lookup => {
            r.push(owned("code"));
            r.push(owned("name"));
            r.push(owned("description"));
        },
    }
    assert(views(r@) =~= header_row(kind));
    r
}

/// Whether a header row is due: headers are wanted and none was written
/// to the file yet.
pub fn headers_due(include_headers: bool, headers_written: bool) -> (b: bool)
    ensures
        b == (include_headers && !headers_written),
{
    include_headers && !headers_written
}

/// How JSON records are laid out: as one array, or one record per line.
#[derive(Debug, Clone, Copy, PartialEq, Eq, Structural)]
pub struct JsonFraming {
    /// Records go into one array.
    pub is_array_format: bool,
    /// No record was written yet.
    pub first_record: bool,
}

/// The text written for one more record `json` under `framing`, and the
/// bytes counted for it: in an array, "[\n" before the first record and
/// ",\n" before the others, counted as two bytes more than the record;
/// one per line, the record and "\n", counted as one byte more.
pub open spec fn framed(framing: JsonFraming, json: Seq<char>) -> (Seq<char>, int) {
    if framing.is_array_format {
        if framing.first_record {
            ("[\n"@ + json, byte_len(json) + 2)
        } else {
            (",\n"@ + json, byte_len(json) + 2)
        }
    } else {
        (json + "\n"@, byte_len(json) + 1)
    }
}

impl JsonFraming {
    /// Framing of a new file: nothing written yet.
    pub fn new(is_array_format: bool) -> (f: Self)
        ensures
            f.is_array_format == is_array_format,
            f.first_record,
    {
        JsonFraming { is_array_format, first_record: true }
    }

    /// The text to write for one more record, and the bytes counted for it
    /// (see `framed`); after it, no record is the first.
    pub fn frame(&mut self, json: &str) -> (r: (String, u64))
        requires
            byte_len(json@) + 2 <= u64::MAX,
        ensures
            (r.0@, r.1 as int) == framed(*old(self), json@),
            *final(self) == next_framing(*old(self)),
    {
        let n = json.len() as u64;
        if self.is_array_format {
            if self.first_record {
                self.first_record = false;
                (cat("[\n", json), n + 2)
            } else {
                (cat(",\n", json), n + 2)
            }
        } else {
            (cat(json, "\n"), n + 1)
        }
    }

    /// The text that opens a stream: "[\n" in array format, after which no
    /// record is the first; nothing one record per line.
    pub fn start_stream(&mut self) -> (r: String)
        ensures
            old(self).is_array_format ==> r@ == "[\n"@ && *final(self) == (JsonFraming {
                first_record: false,
                ..*old(self)
            }),
            !old(self).is_array_format ==> r@ == Seq::<char>::empty() && *final(self) == *old(self),
    {
        if self.is_array_format {
            self.first_record = false;
            owned("[\n")
        } else {
            proof {
                reveal_strlit("");
            }
            owned("")
        }
    }

    /// The text that ends a stream: "\n]" in array format, whether records
    /// were written or not; nothing one record per line.
    pub fn end_stream(&self) -> (r: String)
        ensures
            self.is_array_format ==> r@ == "\n]"@,
            !self.is_array_format ==> r@ == Seq::<char>::empty(),
    {
        if self.is_array_format {
            owned("\n]")
        } else {
            proof {
                reveal_strlit("");
            }
            owned("")
        }
    }

    /// The text that closes the output: "\n]" after an array with records,
    /// nothing otherwise.
    pub fn closing(&self) -> (r: String)
        ensures
            r@ == closing_text(*self),
    {
        if self.is_array_format && !self.first_record {
            owned("\n]")
        } else {
            proof {
                reveal_strlit("");
            }
            owned("")
        }
    }
}

/// The framing after one more record under `framing`: in an array, no
/// record is the first any more.
pub open spec fn next_framing(framing: JsonFraming) -> JsonFraming {
    if framing.is_array_format {
        JsonFraming { first_record: false, ..framing }
    } else {
        framing
    }
}

/// The text that closes an output framed by `framing`.
pub open spec fn closing_text(framing: JsonFraming) -> Seq<char> {
    if framing.is_array_format && !framing.first_record {
        "\n]"@
    } else {
        Seq::empty()
    }
}

/// The framing and the text written after the records `records`, in
/// order, starting from `framing`.
pub open spec fn frame_all(framing: JsonFraming, records: Seq<Seq<char>>) -> (JsonFraming, Seq<char>)
    decreases records.len(),
{
    if records.len() == 0 {
        (framing, Seq::empty())
    } else {
        let (f, text) = frame_all(framing, records.drop_last());
        (next_framing(f), text + framed(f, records.last()).0)
    }
}

/// The records, each followed by a line break.
pub open spec fn lines_of(records: Seq<Seq<char>>) -> Seq<char>
    decreases records.len(),
{
    if records.len() == 0 {
        Seq::empty()
    } else {
        lines_of(records.drop_last()) + records.last() + "\n"@
    }
}

/// Records written in array format to a new file, then closed, make one
/// JSON array: "[\n", the records separated by ",\n", then "\n]"; with no
/// record, the output is empty.
pub proof fn lemma_array_output(records: Seq<Seq<char>>)
    ensures
        ({
            let (f, text) = frame_all(JsonFraming { is_array_format: true, first_record: true }, records);
            text + closing_text(f) == if records.len() == 0 {
                Seq::<char>::empty()
            } else {
                "[\n"@ + crate::text::join_seq(records, ",\n"@) + "\n]"@
            }
        }),
    decreases records.len(),
{
    let start = JsonFraming { is_array_format: true, first_record: true };
    if records.len() == 0 {
        assert(closing_text(start) =~= Seq::<char>::empty());
        assert(Seq::<char>::empty() + Seq::<char>::empty() =~= Seq::<char>::empty());
    } else {
        lemma_array_framing(records);
        let (f, text) = frame_all(start, records);
        assert(!f.first_record && f.is_array_format);
        assert(text + closing_text(f) =~= "[\n"@ + crate::text::join_seq(records, ",\n"@) + "\n]"@);
    }
}

/// In array format, after at least one record the framing is past its
/// first record and the text is "[\n" and the records joined by ",\n".
proof fn lemma_array_framing(records: Seq<Seq<char>>)
    requires
        records.len() > 0,
    ensures
        frame_all(JsonFraming { is_array_format: true, first_record: true }, records).0 == (JsonFraming {
            is_array_format: true,
            first_record: false,
        }),
        frame_all(JsonFraming { is_array_format: true, first_record: true }, records).1 == "[\n"@
            + crate::text::join_seq(records, ",\n"@),
    decreases records.len(),
{
    let start = JsonFraming { is_array_format: true, first_record: true };
    if records.len() == 1 {
        assert(records.drop_last() =~= Seq::<Seq<char>>::empty());
        assert(frame_all(start, records.drop_last()) == (start, Seq::<char>::empty()));
        assert(frame_all(start, records).1 =~= "[\n"@ + records[0]);
    } else {
        lemma_array_framing(records.drop_last());
        let prev = frame_all(start, records.drop_last()).1;
        assert(frame_all(start, records).1 =~= prev + (",\n"@ + records.last()));
        assert("[\n"@ + crate::text::join_seq(records, ",\n"@) =~= ("[\n"@ + crate::text::join_seq(
            records.drop_last(),
            ",\n"@,
        )) + (",\n"@ + records.last()));
    }
}

/// Records written one per line make the records, each followed by a line
/// break, and nothing closes the output.
pub proof fn lemma_line_output(records: Seq<Seq<char>>)
    ensures
        ({
            let (f, text) = frame_all(JsonFraming { is_array_format: false, first_record: true }, records);
            text + closing_text(f) == lines_of(records)
        }),
    decreases records.len(),
{
    let start = JsonFraming { is_array_format: false, first_record: true };
    lemma_line_framing(records);
    let (f, text) = frame_all(start, records);
    assert(text + closing_text(f) =~= text);
}

proof fn lemma_line_framing(records: Seq<Seq<char>>)
    ensures
        frame_all(JsonFraming { is_array_format: false, first_record: true }, records) == (JsonFraming {
            is_array_format: false,
            first_record: true,
        }, lines_of(records)),
    decreases records.len(),
{
    if records.len() > 0 {
        lemma_line_framing(records.drop_last());
        let start = JsonFraming { is_array_format: false, first_record: true };
        let prev = frame_all(start, records.drop_last()).1;
        assert(prev + (records.last() + "\n"@) =~= lines_of(records.drop_last()) + records.last() + "\n"@);
    }
}


/// The CSV fields of a series, in the order of its header row: id, title,
/// area and item codes, frequency, the unit's name, the seasonal
/// adjustment, and empty begin and end years and periods (a series keeps
/// its dates as instants, not as years and periods). Missing values are
/// empty.
pub open spec fn series_fields(s: Series) -> Seq<Seq<char>> {
    seq![
        s.series_id@,
        s.title@,
        s.area_code@,
        s.item_code@,
        s.metadata.frequency.name(),
        match s.metadata.unit {
            Some(u) => u.name@,
            None => Seq::empty(),
        },
        match s.metadata.seasonal_adjustment {
            Some(a) => a@,
            None => Seq::empty(),
        },
        Seq::empty(),
        Seq::empty(),
        Seq::empty(),
        Seq::empty(),
    ]
}

/// The CSV record of a series (see `series_fields`).
pub fn series_record(series: &Series) -> (r: Vec<String>)
    ensures
        views(r@) == series_fields(*series),
{
    let unit = match &series.metadata.unit {
        Some(u) => u.name.clone(),
        None => String::new(),
    };
    let seasonal = match &series.metadata.seasonal_adjustment {
        Some(a) => a.clone(),
        None => String::new(),
    };
    let r = vec![
        series.series_id.clone(),
        series.title.clone(),
        series.area_code.clone(),
        series.item_code.clone(),
        series.metadata.frequency.to_string(),
        unit,
        seasonal,
        String::new(),
        String::new(),
        String::new(),
        String::new(),
    ];
    assert(views(r@) =~= series_fields(*series));
    r
}

/// The CSV fields of a lookup, in the order of its header row: table id,
/// table name, and an empty description.
pub open spec fn lookup_fields(l: Lookup) -> Seq<Seq<char>> {
    seq![l.table_id@, l.table_name@, Seq::empty()]
}

/// The CSV record of a lookup (see `lookup_fields`).
pub fn lookup_record(lookup: &Lookup) -> (r: Vec<String>)
    ensures
        views(r@) == lookup_fields(*lookup),
{
    let r = vec![lookup.table_id.clone(), lookup.table_name.clone(), String::new()];
    assert(views(r@) =~= lookup_fields(*lookup));
    r
}


/// Whether records of a file at `path` go into one array: a ".jsonl" file
/// takes one record per line; any other file keeps the format chosen.
pub fn array_format_for(path: &str, array_format: bool) -> (b: bool)
    ensures
        b == (array_format && extension(path@) != Some("jsonl"@)),
{
    proof {
        reveal_strlit("jsonl");
    }
    match path_extension(path) {
        Some(e) => array_format && !str_eq(e.as_str(), "jsonl"),
        None => array_format,
    }
}

/// The CSV records of a survey: key and value pairs for its code, its name
/// and its description.
pub open spec fn survey_rows(s: Survey) -> Seq<Seq<Seq<char>>> {
    seq![
        seq!["survey_code"@, s.survey_code@],
        seq!["survey_name"@, s.name@],
        seq!["description"@, match s.metadata.description {
            Some(d) => d@,
            None => Seq::empty(),
        }],
    ]
}

/// The CSV records of a survey (see `survey_rows`).
pub fn survey_records(survey: &Survey) -> (r: Vec<Vec<String>>)
    ensures
        r@.len() == 3,
        forall|i: int| 0 <= i < 3 ==> views(#[trigger] r@[i]@) == survey_rows(*survey)[i],
{
    let description = match &survey.metadata.description {
        Some(d) => d.clone(),
        None => String::new(),
    };
    let a = vec![owned("survey_code"), survey.survey_code.clone()];
    let b = vec![owned("survey_name"), survey.name.clone()];
    let c = vec![owned("description"), description];
    assert(views(a@) =~= survey_rows(*survey)[0]);
    assert(views(b@) =~= survey_rows(*survey)[1]);
    assert(views(c@) =~= survey_rows(*survey)[2]);
    vec![a, b, c]
}


/// The codecs a Parquet file is compressed with.
#[derive(Debug, Clone, Copy, PartialEq, Eq, Structural)]
pub enum ParquetCodec {
    Uncompressed,
    Snappy,
    Gzip,
    Zstd,
}

/// The codec of a compression level: none at 0, Snappy from 1 to 3, gzip
/// from 4 to 6, Zstandard from 7 to 9, and Snappy above.
pub open spec fn codec_of(level: u8) -> ParquetCodec {
    if level == 0 {
        ParquetCodec::Uncompressed
    } else if level <= 3 {
        ParquetCodec::Snappy
    } else if level <= 6 {
        ParquetCodec::Gzip
    } else if level <= 9 {
        ParquetCodec::Zstd
    } else {
        ParquetCodec::Snappy
    }
}

/// The codec of a compression level (see `codec_of`).
pub fn parquet_codec(level: u8) -> (c: ParquetCodec)
    ensures
        c == codec_of(level),
{
    if level == 0 {
        ParquetCodec::Uncompressed
    } else if level <= 3 {
        ParquetCodec::Snappy
    } else if level <= 6 {
        ParquetCodec::Gzip
    } else if level <= 9 {
        ParquetCodec::Zstd
    } else {
        ParquetCodec::Snappy
    }
}

impl ParquetCodec {
    /// The codec's name in compression statistics.
    pub open spec fn name(self) -> Seq<char> {
        match self {
            ParquetCodec::Uncompressed => "none"@,
            ParquetCodec::Snappy => "snappy"@,
            ParquetCodec::Gzip => "gzip"@,
            ParquetCodec::Zstd => "zstd"@,
        }
    }

    /// The codec's name in compression statistics.
    pub fn to_string(&self) -> (r: String)
        ensures
            r@ == self.name(),
    {
        match self {
            ParquetCodec::Uncompressed => owned("none"),
            ParquetCodec::Snappy => owned("snappy"),
            ParquetCodec::Gzip => owned("gzip"),
            ParquetCodec::Zstd => owned("zstd"),
        }
    }
}

} // verus!
