//! Choice of a writer for an output: the format of a file, the writer
//! settings for that format, and which formats support what.

use vstd::prelude::*;
use crate::error::types::{DataError, Error};
use crate::paths::{extension, file_name, file_stem, last_dot, lemma_last_dot_facts, lemma_with_extension, path_extension, path_stem, strip_trailing};
use crate::strmap::StrMap;
use crate::text::{cat, contains_str, ends_with_str, has_sub, has_suffix, lower_of, owned, str_eq, to_lower};
use crate::writer::traits::WriterConfig;

verus! {

/// Settings of the writer factory.
#[derive(Debug)]
pub struct WriterFactoryConfig {
    /// Default buffer size, in bytes.
    pub default_buffer_size: usize,
    /// Default records per batch.
    pub default_batch_size: usize,
    /// Whether records are validated by default.
    pub enable_validation: bool,
    /// Whether output is compressed by default.
    pub enable_compression: bool,
    /// Default compression level.
    pub default_compression_level: u8,
    /// Errors tolerated by default.
    pub max_errors: usize,
    /// Whether headers are written by default.
    pub include_headers: bool,
    /// Default digits after the point.
    pub float_precision: usize,
    /// Writer settings by format, replacing the built-in ones.
    pub format_configs: StrMap<WriterConfig>,
}

/// The factory defaults.
pub open spec fn default_writer_factory_config(c: WriterFactoryConfig) -> bool {
    &&& c.default_buffer_size == 64 * 1024
    &&& c.default_batch_size == 1000
    &&& c.enable_validation
    &&& !c.enable_compression
    &&& c.default_compression_level == 6
    &&& c.max_errors == 100
    &&& c.include_headers
    &&& c.float_precision == 6
    &&& c.format_configs@ == Map::<Seq<char>, WriterConfig>::empty()
}

impl Default for WriterFactoryConfig {
    fn default() -> (c: Self)
        ensures
            default_writer_factory_config(c),
    {
        WriterFactoryConfig {
            default_buffer_size: 64 * 1024,
            default_batch_size: 1000,
            enable_validation: true,
            enable_compression: false,
            default_compression_level: 6,
            max_errors: 100,
            include_headers: true,
            float_precision: 6,
            format_configs: StrMap::new(),
        }
    }
}

/// Which writer writes an output.
#[derive(Debug, Clone, Copy, PartialEq, Eq, Structural)]
pub enum WriterKind {
    /// Delimited text (CSV or TSV).
    Csv,
    /// Parquet.
    Parquet,
    /// JSON: an array of records, or one record per line.
    Json { array: bool },
}

/// A writer to create: its kind and its settings.
#[derive(Debug)]
pub struct WriterChoice {
    pub kind: WriterKind,
    pub config: WriterConfig,
}

/// The writer factory.
#[derive(Debug)]
pub struct DefaultWriterFactory {
    /// Factory settings.
    pub config: WriterFactoryConfig,
    /// Writer settings by format.
    pub format_configs: StrMap<WriterConfig>,
}

/// Writer settings made from the factory settings.
pub open spec fn derived_writer(
    w: WriterConfig,
    c: WriterFactoryConfig,
    batch_size: int,
    separator: char,
    headers: bool,
    compress: bool,
) -> bool {
    &&& w.buffer_size == c.default_buffer_size
    &&& w.batch_size == batch_size
    &&& w.validate_on_write == c.enable_validation
    &&& w.encoding@ == "UTF-8"@
    &&& w.field_separator == separator
    &&& w.include_headers == headers
    &&& w.compress_output == compress
    &&& w.compression_level == c.default_compression_level
    &&& !w.overwrite_existing
    &&& w.max_file_size == 0
    &&& w.float_precision == c.float_precision
}

/// The built-in writer settings of a format, if it has any.
pub open spec fn builtin_writer(w: WriterConfig, c: WriterFactoryConfig, format: Seq<char>) -> bool {
    if format == "csv"@ {
        derived_writer(w, c, c.default_batch_size as int, ',', c.include_headers, c.enable_compression)
    } else if format == "tsv"@ {
        derived_writer(w, c, c.default_batch_size as int, '\t', c.include_headers, c.enable_compression)
    } else if format == "parquet"@ {
        derived_writer(w, c, c.default_batch_size * 10, ',', false, true)
    } else if format == "json"@ {
        derived_writer(w, c, c.default_batch_size as int, ',', true, c.enable_compression)
    } else if format == "jsonl"@ {
        derived_writer(w, c, c.default_batch_size as int, ',', false, c.enable_compression)
    } else {
        false
    }
}

/// The writer settings of a factory made from `c`: built-in settings for
/// csv, tsv, parquet, json and jsonl, replaced by the per-format settings of `c`.
pub open spec fn writer_configs(m: Map<Seq<char>, WriterConfig>, c: WriterFactoryConfig) -> bool {
    let user = c.format_configs@;
    &&& m.dom() == set!["csv"@, "tsv"@, "parquet"@, "json"@, "jsonl"@].union(user.dom())
    &&& forall|k: Seq<char>| #[trigger] user.contains_key(k) ==> m[k] == user[k]
    &&& forall|k: Seq<char>| #[trigger] m.contains_key(k) && !user.contains_key(k) ==> builtin_writer(m[k], c, k)
}

/// Whether `format` is one of the formats with built-in writer settings.
pub open spec fn builtin_format(format: Seq<char>) -> bool {
    format == "csv"@ || format == "tsv"@ || format == "parquet"@ || format == "json"@ || format == "jsonl"@
}

/// Asking a factory made with `with_config(c)` for the writer settings of
/// a format (`get_writer_config`) gives the settings that `c` names for it;
/// failing that, the built-in settings of csv, tsv (tab-separated),
/// parquet (ten times the batch size, no headers, compressed), json (with
/// headers) and jsonl (without); and for any other format generic
/// comma-separated settings made from the factory defaults.
pub proof fn lemma_factory_writer_config(
    m: Map<Seq<char>, WriterConfig>,
    c: WriterFactoryConfig,
    format: Seq<char>,
    w: WriterConfig,
)
    requires
        writer_configs(m, c),
        m.contains_key(format) ==> w == m[format],
        !m.contains_key(format) ==> derived_writer(w, c, c.default_batch_size as int, ',', c.include_headers, c.enable_compression),
    ensures
        c.format_configs@.contains_key(format) ==> w == c.format_configs@[format],
        !c.format_configs@.contains_key(format) && builtin_format(format) ==> builtin_writer(w, c, format),
        !c.format_configs@.contains_key(format) && !builtin_format(format) ==> derived_writer(
            w,
            c,
            c.default_batch_size as int,
            ',',
            c.include_headers,
            c.enable_compression,
        ),
{
    if !c.format_configs@.contains_key(format) && builtin_format(format) {
        assert(m.dom().contains(format));
    }
    if !c.format_configs@.contains_key(format) && !builtin_format(format) {
        assert(!m.dom().contains(format));
    }
}

/// The output format of a file, from its extension.
pub open spec fn format_of(path: Seq<char>) -> Option<Seq<char>> {
    match extension(path) {
        Some(e) => if e == "csv"@ {
            Some("csv"@)
        } else if e == "tsv"@ {
            Some("tsv"@)
        } else if e == "txt"@ {
            match file_stem(path) {
                Some(s) => if has_sub(s, "tsv"@) {
                    Some("tsv"@)
                } else {
                    Some("csv"@)
                },
                None => Some("csv"@),
            }
        } else if e == "parquet"@ {
            Some("parquet"@)
        } else if e == "json"@ {
            Some("json"@)
        } else if e == "jsonl"@ {
            Some("jsonl"@)
        } else if e == "gz"@ {
            match file_stem(path) {
                Some(s) => if has_suffix(s, ".csv"@) {
                    Some("csv"@)
                } else if has_suffix(s, ".tsv"@) {
                    Some("tsv"@)
                } else if has_suffix(s, ".json"@) {
                    Some("json"@)
                } else if has_suffix(s, ".jsonl"@) {
                    Some("jsonl"@)
                } else {
                    Some("csv"@)
                },
                None => Some("csv"@),
            }
        } else {
            None
        },
        None => None,
    }
}

/// A file's extension names its format when it is one of csv, tsv,
/// parquet, json and jsonl.
pub proof fn lemma_extension_names_format(p: Seq<char>, e: Seq<char>)
    requires
        e == "csv"@ || e == "tsv"@ || e == "parquet"@ || e == "json"@ || e == "jsonl"@,
        extension(p) == Some(e),
    ensures
        format_of(p) == Some(e),
{
    reveal_strlit("csv");
    reveal_strlit("tsv");
    reveal_strlit("txt");
    reveal_strlit("parquet");
    reveal_strlit("json");
    reveal_strlit("jsonl");
}

/// Compressing a file keeps its format: a csv, tsv, json or jsonl file
/// named directly by its path (no trailing separator or "." component)
/// has, once ".gz" is added to the path, the format it had before.
pub proof fn lemma_gz_keeps_format(p: Seq<char>, e: Seq<char>)
    requires
        e == "csv"@ || e == "tsv"@ || e == "json"@ || e == "jsonl"@,
        extension(p) == Some(e),
        strip_trailing(p) == p,
    ensures
        format_of(p) == Some(e),
        format_of(p + ".gz"@) == Some(e),
{
    reveal_strlit("csv");
    reveal_strlit("tsv");
    reveal_strlit("json");
    reveal_strlit("jsonl");
    reveal_strlit("txt");
    reveal_strlit("parquet");
    reveal_strlit("gz");
    reveal_strlit(".gz");
    reveal_strlit(".");
    reveal_strlit(".csv");
    reveal_strlit(".tsv");
    reveal_strlit(".json");
    reveal_strlit(".jsonl");
    let n = file_name(p)->0;
    lemma_last_dot_facts(n);
    let d = last_dot(n);
    assert(n.skip(d + 1) == e);
    assert(".gz"@ =~= "."@ + "gz"@);
    assert(p + ".gz"@ =~= p + "."@ + "gz"@);
    lemma_with_extension(p, "gz"@);
    assert(file_stem(p + ".gz"@) == Some(n));
    let len = n.len() as int;
    assert(n[d] == '.');
    assert forall|i: int| 0 <= i < e.len() implies n[d + 1 + i] == #[trigger] e[i] by {
        assert(n.skip(d + 1)[i] == n[d + 1 + i]);
    }
    assert(len == d + 1 + e.len());
    let dot_e = "."@ + e;
    assert(n.subrange(len - dot_e.len(), len) =~= dot_e) by {
        assert forall|i: int| 0 <= i < dot_e.len() implies n.subrange(len - dot_e.len(), len)[i] == dot_e[i] by {
            if i > 0 {
                assert(dot_e[i] == e[i - 1]);
            }
        }
    }
    assert(has_suffix(n, dot_e));
    if e == "csv"@ {
        assert(dot_e =~= ".csv"@);
    } else if e == "tsv"@ {
        assert(dot_e =~= ".tsv"@);
        assert(e[0] == 't' && n[d + 1 + 0] == e[0]);
        assert(n[len - 4] == '.' && n[len - 3] == 't');
        assert(n.subrange(len - 4, len)[1] == 't');
        assert(!has_suffix(n, ".csv"@));
    } else if e == "json"@ {
        assert(dot_e =~= ".json"@);
        assert(e[0] == 'j' && n[d + 1 + 0] == e[0]);
        assert(n[len - 4] == 'j');
        assert(n.subrange(len - 4, len)[0] == 'j');
        assert(!has_suffix(n, ".csv"@));
        assert(!has_suffix(n, ".tsv"@));
    } else {
        assert(dot_e =~= ".jsonl"@);
        assert(e[1] == 's' && n[d + 1 + 1] == e[1]);
        assert(e[0] == 'j' && n[d + 1 + 0] == e[0]);
        assert(n[len - 4] == 's');
        assert(n[len - 5] == 'j');
        assert(n.subrange(len - 4, len)[0] == 's');
        assert(n.subrange(len - 5, len)[0] == 'j');
        assert(!has_suffix(n, ".csv"@));
        assert(!has_suffix(n, ".tsv"@));
        assert(!has_suffix(n, ".json"@));
    }
}

/// The error message for a path whose format is unknown.
pub open spec fn format_error_message(path: Seq<char>) -> Seq<char> {
    match extension(path) {
        Some(e) => "Unsupported file extension: "@ + e,
        None => "Cannot determine format from file path"@,
    }
}

/// An unsupported-format data error with `message`.
pub open spec fn unsupported_format_error(e: Error, message: Seq<char>) -> bool {
    e matches Error::Data(DataError::FormatError { message: m, expected: x, actual: a }) && m@ == message
        && x@ == "supported format"@ && a@ == "unsupported format"@
}

/// The writer for one of the formats a path can have.
pub open spec fn kind_of_format(f: Seq<char>) -> WriterKind {
    if f == "parquet"@ {
        WriterKind::Parquet
    } else if f == "json"@ {
        WriterKind::Json { array: true }
    } else if f == "jsonl"@ {
        WriterKind::Json { array: false }
    } else {
        WriterKind::Csv
    }
}

/// The writer for a format, by its lower-cased name; `None` for an unknown
/// format. A JSON writer writes an array unless the format is exactly "jsonl".
pub open spec fn writer_kind_of(format: Seq<char>) -> Option<WriterKind> {
    let f = lower_of(format);
    if f == "csv"@ || f == "tsv"@ {
        Some(WriterKind::Csv)
    } else if f == "parquet"@ {
        Some(WriterKind::Parquet)
    } else if f == "json"@ || f == "jsonl"@ {
        Some(WriterKind::Json { array: format != "jsonl"@ })
    } else {
        None
    }
}

/// The names of the formats differ from one another.
proof fn lemma_format_names_distinct()
    ensures
        "csv"@ != "tsv"@,
        "csv"@ != "parquet"@,
        "csv"@ != "json"@,
        "csv"@ != "jsonl"@,
        "tsv"@ != "parquet"@,
        "tsv"@ != "json"@,
        "tsv"@ != "jsonl"@,
        "parquet"@ != "json"@,
        "parquet"@ != "jsonl"@,
        "json"@ != "jsonl"@,
{
    reveal_strlit("csv");
    reveal_strlit("tsv");
    reveal_strlit("parquet");
    reveal_strlit("json");
    reveal_strlit("jsonl");
    assert("csv"@[0] != "tsv"@[0]);
    assert("parquet"@.len() == 7);
    assert("json"@.len() == 4);
    assert("jsonl"@.len() == 5);
}

fn make_writer(c: &WriterFactoryConfig, batch_size: usize, separator: char, headers: bool, compress: bool) -> (w: WriterConfig)
    ensures
        derived_writer(w, *c, batch_size as int, separator, headers, compress),
{
    WriterConfig {
        buffer_size: c.default_buffer_size,
        batch_size,
        validate_on_write: c.enable_validation,
        encoding: owned("UTF-8"),
        field_separator: separator,
        include_headers: headers,
        compress_output: compress,
        compression_level: c.default_compression_level,
        overwrite_existing: false,
        max_file_size: 0,
        float_precision: c.float_precision,
    }
}

/// The writer for a format, or an unsupported-format error with `prefix`
/// and the format.
fn writer_for(format: &str, config: WriterConfig, prefix: &str) -> (r: crate::error::Result<WriterChoice>)
    ensures
        match writer_kind_of(format@) {
            Some(k) => r matches Ok(c) && c.kind == k && c.config == config,
            None => r matches Err(e) && unsupported_format_error(e, prefix@ + format@),
        },
{
    let f = to_lower(format);
    if str_eq(f.as_str(), "csv") || str_eq(f.as_str(), "tsv") {
        Ok(WriterChoice { kind: WriterKind::Csv, config })
    } else if str_eq(f.as_str(), "parquet") {
        Ok(WriterChoice { kind: WriterKind::Parquet, config })
    } else if str_eq(f.as_str(), "json") || str_eq(f.as_str(), "jsonl") {
        let array = !str_eq(format, "jsonl");
        Ok(WriterChoice { kind: WriterKind::Json { array }, config })
    } else {
        Err(Error::Data(DataError::unsupported_format(cat(prefix, format))))
    }
}

impl DefaultWriterFactory {
    /// A factory with the default settings.
    pub fn new() -> (f: Self)
        ensures
            default_writer_factory_config(f.config),
            writer_configs(f.format_configs@, f.config),
    {
        Self::with_config(WriterFactoryConfig::default())
    }

    /// A factory with the given settings (see `writer_configs`).
    pub fn with_config(config: WriterFactoryConfig) -> (f: Self)
        requires
            config.default_batch_size * 10 <= usize::MAX,
        ensures
            f.config == config,
            writer_configs(f.format_configs@, config),
    {
        let mut m: StrMap<WriterConfig> = StrMap::new();
        m.insert(owned("csv"), make_writer(&config, config.default_batch_size, ',', config.include_headers, config.enable_compression));
        m.insert(owned("tsv"), make_writer(&config, config.default_batch_size, '\t', config.include_headers, config.enable_compression));
        m.insert(owned("parquet"), make_writer(&config, config.default_batch_size * 10, ',', false, true));
        m.insert(owned("json"), make_writer(&config, config.default_batch_size, ',', true, config.enable_compression));
        m.insert(owned("jsonl"), make_writer(&config, config.default_batch_size, ',', false, config.enable_compression));
        let ghost base = m@;
        proof {
            assert(base.dom() =~= set!["csv"@, "tsv"@, "parquet"@, "json"@, "jsonl"@]);
            lemma_format_names_distinct();
            assert forall|k: Seq<char>| #[trigger] base.contains_key(k) implies builtin_writer(base[k], config, k) by {
            }
        }
        let ghost user = config.format_configs@;
        let ghost ukeys = config.format_configs.key_list();
        let n = config.format_configs.len();
        let mut i: usize = 0;
        while i < n
            invariant
                n == ukeys.len(),
                ukeys == config.format_configs.key_list(),
                user == config.format_configs@,
                i <= n,
                m@.dom() == base.dom().union(ukeys.take(i as int).to_set()),
                forall|j: int| 0 <= j < i ==> #[trigger] m@[ukeys[j]] == user[ukeys[j]],
                forall|k: Seq<char>| !ukeys.take(i as int).contains(k) && base.contains_key(k) ==> #[trigger] m@[k] == base[k],
            decreases n - i,
        {
            let (k, v) = config.format_configs.entry_at(i);
            m.insert(k.clone(), v.clone());
            proof {
                ukeys.take(i as int).lemma_push_to_set_commute(ukeys[i as int]);
                assert(ukeys.take(i + 1) =~= ukeys.take(i as int).push(ukeys[i as int]));
                assert forall|j: int| 0 <= j < i + 1 implies #[trigger] m@[ukeys[j]] == user[ukeys[j]] by {
                    if ukeys[j] != ukeys[i as int] {
                        assert(j < i);
                    }
                }
                assert forall|key: Seq<char>| !ukeys.take(i + 1).contains(key) && base.contains_key(key) implies #[trigger] m@[key]
                    == base[key] by {
                    assert(ukeys.take(i + 1)[i as int] == ukeys[i as int]);
                    assert(!ukeys.take(i as int).contains(key)) by {
                        if ukeys.take(i as int).contains(key) {
                            let j = choose|j: int| 0 <= j < i && ukeys.take(i as int)[j] == key;
                            assert(ukeys.take(i + 1)[j] == key);
                        }
                    }
                }
            }
            i = i + 1;
        }
        proof {
            config.format_configs.lemma_view_dom();
            assert(ukeys.take(n as int) =~= ukeys);
            assert(ukeys.to_set() =~= user.dom()) by {
                assert forall|k: Seq<char>| ukeys.to_set().contains(k) <==> user.contains_key(k) by {
                    if ukeys.to_set().contains(k) {
                        assert(ukeys.contains(k));
                    }
                }
            }
            assert forall|k: Seq<char>| #[trigger] user.contains_key(k) implies m@[k] == user[k] by {
                let j = choose|j: int| 0 <= j < ukeys.len() && ukeys[j] == k;
                assert(m@[ukeys[j]] == user[ukeys[j]]);
            }
            assert forall|k: Seq<char>| #[trigger] m@.contains_key(k) && !user.contains_key(k) implies builtin_writer(
                m@[k],
                config,
                k,
            ) by {
                assert(!ukeys.contains(k));
            }
            assert(m@.dom() =~= set!["csv"@, "tsv"@, "parquet"@, "json"@, "jsonl"@].union(user.dom()));
        }
        DefaultWriterFactory { config, format_configs: m }
    }

    /// The output format of a file, from its extension: csv, tsv, parquet,
    /// json, jsonl; "txt" files are tsv when their stem says so, else csv;
    /// "gz" files by the extension before it, csv by default. Other
    /// extensions, or none, are unsupported-format errors.
    pub fn determine_format(&self, path: &str) -> (r: crate::error::Result<String>)
        ensures
            match format_of(path@) {
                Some(f) => r matches Ok(s) && s@ == f,
                None => r matches Err(e) && unsupported_format_error(e, format_error_message(path@)),
            },
    {
        match path_extension(path) {
            Some(ext) => {
                let e = ext.as_str();
                if str_eq(e, "csv") {
                    Ok(owned("csv"))
                } else if str_eq(e, "tsv") {
                    Ok(owned("tsv"))
                } else if str_eq(e, "txt") {
                    match path_stem(path) {
                        Some(stem) => {
                            if contains_str(stem.as_str(), "tsv") {
                                Ok(owned("tsv"))
                            } else {
                                Ok(owned("csv"))
                            }
                        },
                        None => Ok(owned("csv")),
                    }
                } else if str_eq(e, "parquet") {
                    Ok(owned("parquet"))
                } else if str_eq(e, "json") {
                    Ok(owned("json"))
                } else if str_eq(e, "jsonl") {
                    Ok(owned("jsonl"))
                } else if str_eq(e, "gz") {
                    match path_stem(path) {
                        Some(stem) => {
                            let s = stem.as_str();
                            if ends_with_str(s, ".csv") {
                                Ok(owned("csv"))
                            } else if ends_with_str(s, ".tsv") {
                                Ok(owned("tsv"))
                            } else if ends_with_str(s, ".json") {
                                Ok(owned("json"))
                            } else if ends_with_str(s, ".jsonl") {
                                Ok(owned("jsonl"))
                            } else {
                                Ok(owned("csv"))
                            }
                        },
                        None => Ok(owned("csv")),
                    }
                } else {
                    Err(Error::Data(DataError::unsupported_format(cat("Unsupported file extension: ", e))))
                }
            },
            None => Err(Error::Data(DataError::unsupported_format(owned("Cannot determine format from file path")))),
        }
    }

    /// The writer settings of a format: its own, else generic ones made from
    /// the factory settings.
    pub fn get_writer_config(&self, format: &str) -> (w: WriterConfig)
        ensures
            self.format_configs@.contains_key(format@) ==> w == self.format_configs@[format@],
            !self.format_configs@.contains_key(format@) ==> derived_writer(
                w,
                self.config,
                self.config.default_batch_size as int,
                ',',
                self.config.include_headers,
                self.config.enable_compression,
            ),
    {
        match self.format_configs.get(format) {
            Some(c) => c.clone(),
            None => make_writer(
                &self.config,
                self.config.default_batch_size,
                ',',
                self.config.include_headers,
                self.config.enable_compression,
            ),
        }
    }

    /// The writer for a file: the format of its path with that format's
    /// settings, compressed when the file is a ".gz" file.
    pub fn create_optimized_writer(&self, path: &str) -> (r: crate::error::Result<WriterChoice>)
        ensures
            match format_of(path@) {
                Some(f) => r matches Ok(c) && c.kind == kind_of_format(f) && c.config.compress_output == (
                extension(path@) == Some("gz"@) || (if self.format_configs@.contains_key(f) {
                    self.format_configs@[f].compress_output
                } else {
                    self.config.enable_compression
                })),
                None => r matches Err(e) && unsupported_format_error(e, format_error_message(path@)),
            },
    {
        let format = self.determine_format(path)?;
        let mut config = self.get_writer_config(format.as_str());
        match path_extension(path) {
            Some(ext) => {
                if str_eq(ext.as_str(), "gz") {
                    config.compress_output = true;
                }
            },
            None => {},
        }
        let f = format.as_str();
        let kind = if str_eq(f, "parquet") {
            WriterKind::Parquet
        } else if str_eq(f, "json") {
            WriterKind::Json { array: true }
        } else if str_eq(f, "jsonl") {
            WriterKind::Json { array: false }
        } else {
            WriterKind::Csv
        };
        Ok(WriterChoice { kind, config })
    }

    /// The formats with writer settings, in the order they were added.
    pub fn get_supported_formats(&self) -> (r: Vec<String>)
        ensures
            crate::text::views(r@) == self.format_configs.key_list(),
    {
        self.format_configs.keys()
    }

    /// Sets the writer settings of a format.
    pub fn set_format_config(&mut self, format: String, config: WriterConfig)
        ensures
            final(self).format_configs@ == old(self).format_configs@.insert(format@, config),
            final(self).config == old(self).config,
    {
        self.format_configs.insert(format, config);
    }

    /// Removes the writer settings of a format.
    pub fn remove_format_config(&mut self, format: &str)
        ensures
            final(self).format_configs@ == old(self).format_configs@.remove(format@),
            final(self).config == old(self).config,
    {
        self.format_configs.remove(format);
    }

    /// Compression is recommended for parquet, json and jsonl.
    pub fn is_compression_recommended(&self, format: &str) -> (b: bool)
        ensures
            b == (format@ == "parquet"@ || format@ == "json"@ || format@ == "jsonl"@),
    {
        str_eq(format, "parquet") || str_eq(format, "json") || str_eq(format, "jsonl")
    }

    /// The batch size for a format: ten times the default for parquet, half
    /// of it for json and jsonl, the default otherwise.
    pub fn get_optimal_batch_size(&self, format: &str) -> (n: usize)
        requires
            self.config.default_batch_size * 10 <= usize::MAX,
        ensures
            n == (if format@ == "parquet"@ {
                self.config.default_batch_size * 10
            } else if format@ == "json"@ || format@ == "jsonl"@ {
                (self.config.default_batch_size / 2) as int
            } else {
                self.config.default_batch_size as int
            }),
    {
        if str_eq(format, "parquet") {
            self.config.default_batch_size * 10
        } else if str_eq(format, "json") || str_eq(format, "jsonl") {
            self.config.default_batch_size / 2
        } else {
            self.config.default_batch_size
        }
    }

    /// A writer for a format, by its lower-cased name.
    pub fn create_writer(&self, format: &str, config: WriterConfig) -> (r: crate::error::Result<WriterChoice>)
        ensures
            match writer_kind_of(format@) {
                Some(k) => r matches Ok(c) && c.kind == k && c.config == config,
                None => r matches Err(e) && unsupported_format_error(e, "Unsupported writer format: "@ + format@),
            },
    {
        writer_for(format, config, "Unsupported writer format: ")
    }

    /// A series writer for a format.
    pub fn create_series_writer(&self, format: &str, config: WriterConfig) -> (r: crate::error::Result<WriterChoice>)
        ensures
            match writer_kind_of(format@) {
                Some(k) => r matches Ok(c) && c.kind == k && c.config == config,
                None => r matches Err(e) && unsupported_format_error(e, "Unsupported series writer format: "@ + format@),
            },
    {
        writer_for(format, config, "Unsupported series writer format: ")
    }

    /// An observation writer for a format.
    pub fn create_observation_writer(&self, format: &str, config: WriterConfig) -> (r: crate::error::Result<WriterChoice>)
        ensures
            match writer_kind_of(format@) {
                Some(k) => r matches Ok(c) && c.kind == k && c.config == config,
                None => r matches Err(e) && unsupported_format_error(e, "Unsupported observation writer format: "@ + format@),
            },
    {
        writer_for(format, config, "Unsupported observation writer format: ")
    }

    /// A lookup writer for a format.
    pub fn create_lookup_writer(&self, format: &str, config: WriterConfig) -> (r: crate::error::Result<WriterChoice>)
        ensures
            match writer_kind_of(format@) {
                Some(k) => r matches Ok(c) && c.kind == k && c.config == config,
                None => r matches Err(e) && unsupported_format_error(e, "Unsupported lookup writer format: "@ + format@),
            },
    {
        writer_for(format, config, "Unsupported lookup writer format: ")
    }

    /// A survey writer for a format.
    pub fn create_survey_writer(&self, format: &str, config: WriterConfig) -> (r: crate::error::Result<WriterChoice>)
        ensures
            match writer_kind_of(format@) {
                Some(k) => r matches Ok(c) && c.kind == k && c.config == config,
                None => r matches Err(e) && unsupported_format_error(e, "Unsupported survey writer format: "@ + format@),
            },
    {
        writer_for(format, config, "Unsupported survey writer format: ")
    }

    /// A streaming writer: only JSON writers stream.
    pub fn create_streaming_writer(&self, format: &str, config: WriterConfig) -> (r: crate::error::Result<WriterChoice>)
        ensures
            match writer_kind_of(format@) {
                Some(WriterKind::Json { array }) => r matches Ok(c) && c.kind == (WriterKind::Json { array })
                    && c.config == config,
                _ => r matches Err(e) && unsupported_format_error(
                    e,
                    "Streaming writer not supported for format: "@ + format@,
                ),
            },
    {
        proof {
            lemma_format_names_distinct();
        }
        let f = to_lower(format);
        if str_eq(f.as_str(), "json") || str_eq(f.as_str(), "jsonl") {
            let array = !str_eq(format, "jsonl");
            Ok(WriterChoice { kind: WriterKind::Json { array }, config })
        } else {
            Err(Error::Data(DataError::unsupported_format(cat("Streaming writer not supported for format: ", format))))
        }
    }

    /// A compressed writer: Parquet and JSON writers compress.
    pub fn create_compressed_writer(&self, format: &str, config: WriterConfig) -> (r: crate::error::Result<WriterChoice>)
        ensures
            match writer_kind_of(format@) {
                Some(WriterKind::Csv) => r matches Err(e) && unsupported_format_error(
                    e,
                    "Compressed writer not supported for format: "@ + format@,
                ),
                Some(k) => r matches Ok(c) && c.kind == k && c.config == config,
                None => r matches Err(e) && unsupported_format_error(
                    e,
                    "Compressed writer not supported for format: "@ + format@,
                ),
            },
    {
        proof {
            lemma_format_names_distinct();
        }
        let f = to_lower(format);
        if str_eq(f.as_str(), "parquet") {
            Ok(WriterChoice { kind: WriterKind::Parquet, config })
        } else if str_eq(f.as_str(), "json") || str_eq(f.as_str(), "jsonl") {
            let array = !str_eq(format, "jsonl");
            Ok(WriterChoice { kind: WriterKind::Json { array }, config })
        } else {
            Err(Error::Data(DataError::unsupported_format(cat("Compressed writer not supported for format: ", format))))
        }
    }

    /// No transactional writer exists: a not-implemented error.
    pub fn create_transactional_writer(&self, _format: &str, _config: WriterConfig) -> (r: crate::error::Result<WriterChoice>)
        ensures
            r matches Err(Error::Data(DataError::FormatError { message: m, expected: x, actual: a })) && m@
                == "Transactional writers are not yet implemented"@ && x@ == "implemented feature"@ && a@
                == "not implemented"@,
    {
        Err(Error::Data(DataError::not_implemented(owned("Transactional writers are not yet implemented"))))
    }

    /// The formats with writer settings.
    pub fn supported_formats(&self) -> (r: Vec<String>)
        ensures
            crate::text::views(r@) == self.format_configs.key_list(),
    {
        self.get_supported_formats()
    }

    /// Every writer format can be compressed: parquet, json and jsonl
    /// natively, csv and tsv through gzip.
    pub fn supports_compression(&self, format: &str) -> (b: bool)
        ensures
            b == (writer_kind_of(format@) is Some),
    {
        let f = to_lower(format);
        str_eq(f.as_str(), "parquet") || str_eq(f.as_str(), "json") || str_eq(f.as_str(), "jsonl")
            || str_eq(f.as_str(), "csv") || str_eq(f.as_str(), "tsv")
    }

    /// No format supports transactions.
    pub fn supports_transactions(&self, _format: &str) -> (b: bool)
        ensures
            !b,
    {
        false
    }
}

impl Default for DefaultWriterFactory {
    fn default() -> (f: Self)
        ensures
            default_writer_factory_config(f.config),
            writer_configs(f.format_configs@, f.config),
    {
        Self::new()
    }
}

/// Builder for writer factory settings.
#[derive(Debug)]
pub struct WriterFactoryConfigBuilder {
    /// The settings being built.
    pub config: WriterFactoryConfig,
}

impl WriterFactoryConfigBuilder {
    /// A builder starting from the defaults.
    pub fn new() -> (b: Self)
        ensures
            default_writer_factory_config(b.config),
    {
        WriterFactoryConfigBuilder { config: WriterFactoryConfig::default() }
    }

    /// Sets the default buffer size.
    pub fn default_buffer_size(self, size: usize) -> (b: Self)
        ensures
            b.config == (WriterFactoryConfig { default_buffer_size: size, ..self.config }),
    {
        let mut b = self;
        b.config.default_buffer_size = size;
        b
    }

    /// Sets the default batch size.
    pub fn default_batch_size(self, size: usize) -> (b: Self)
        ensures
            b.config == (WriterFactoryConfig { default_batch_size: size, ..self.config }),
    {
        let mut b = self;
        b.config.default_batch_size = size;
        b
    }

    /// Turns default validation on or off.
    pub fn enable_validation(self, enable: bool) -> (b: Self)
        ensures
            b.config == (WriterFactoryConfig { enable_validation: enable, ..self.config }),
    {
        let mut b = self;
        b.config.enable_validation = enable;
        b
    }

    /// Turns default compression on or off.
    pub fn enable_compression(self, enable: bool) -> (b: Self)
        ensures
            b.config == (WriterFactoryConfig { enable_compression: enable, ..self.config }),
    {
        let mut b = self;
        b.config.enable_compression = enable;
        b
    }

    /// Sets the default compression level.
    pub fn default_compression_level(self, level: u8) -> (b: Self)
        ensures
            b.config == (WriterFactoryConfig { default_compression_level: level, ..self.config }),
    {
        let mut b = self;
        b.config.default_compression_level = level;
        b
    }

    /// Sets the errors tolerated.
    pub fn max_errors(self, max: usize) -> (b: Self)
        ensures
            b.config == (WriterFactoryConfig { max_errors: max, ..self.config }),
    {
        let mut b = self;
        b.config.max_errors = max;
        b
    }

    /// Sets whether headers are written.
    pub fn include_headers(self, headers: bool) -> (b: Self)
        ensures
            b.config == (WriterFactoryConfig { include_headers: headers, ..self.config }),
    {
        let mut b = self;
        b.config.include_headers = headers;
        b
    }

    /// Sets the default digits after the point.
    pub fn float_precision(self, precision: usize) -> (b: Self)
        ensures
            b.config == (WriterFactoryConfig { float_precision: precision, ..self.config }),
    {
        let mut b = self;
        b.config.float_precision = precision;
        b
    }

    /// Sets the writer settings of a format.
    pub fn format_config(self, format: String, config: WriterConfig) -> (b: Self)
        ensures
            b.config.format_configs@ == self.config.format_configs@.insert(format@, config),
            b.config.default_buffer_size == self.config.default_buffer_size,
            b.config.default_batch_size == self.config.default_batch_size,
            b.config.enable_validation == self.config.enable_validation,
            b.config.enable_compression == self.config.enable_compression,
            b.config.default_compression_level == self.config.default_compression_level,
            b.config.max_errors == self.config.max_errors,
            b.config.include_headers == self.config.include_headers,
            b.config.float_precision == self.config.float_precision,
    {
        let mut b = self;
        b.config.format_configs.insert(format, config);
        b
    }

    /// The settings built.
    pub fn build(self) -> (c: WriterFactoryConfig)
        ensures
            c == self.config,
    {
        self.config
    }
}

impl Default for WriterFactoryConfigBuilder {
    fn default() -> (b: Self)
        ensures
            default_writer_factory_config(b.config),
    {
        Self::new()
    }
}

} // verus!
