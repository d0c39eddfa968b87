//! Choice of a reader for a file: the file's type, the reader settings for
//! that type, and whether the file is read through memory mapping.

use vstd::prelude::*;
use crate::error::types::{DataError, Error};
use crate::paths::{extension, file_name, file_stem, path_extension, path_file_name, path_stem};
use crate::reader::traits::ReaderConfig;
use crate::strmap::StrMap;
use crate::text::{cat, contains_str, ends_with_str, has_sub, has_suffix, owned, str_eq};

verus! {

/// Settings of the reader factory.
#[derive(Debug)]
pub struct ReaderFactoryConfig {
    /// File size from which memory mapping is used, in bytes.
    pub mmap_threshold: u64,
    /// Default buffer size, in bytes.
    pub default_buffer_size: usize,
    /// Default records per batch.
    pub default_batch_size: usize,
    /// Whether records are validated by default.
    pub enable_validation: bool,
    /// Errors tolerated by default.
    pub max_errors: usize,
    /// Whether memory mapping is preferred.
    pub prefer_mmap: bool,
    /// Reader settings by file type, replacing the built-in ones.
    pub file_type_configs: StrMap<ReaderConfig>,
}

/// The factory defaults.
pub open spec fn default_factory_config(c: ReaderFactoryConfig) -> bool {
    &&& c.mmap_threshold == 100 * 1024 * 1024
    &&& c.default_buffer_size == 64 * 1024
    &&& c.default_batch_size == 1000
    &&& c.enable_validation
    &&& c.max_errors == 100
    &&& c.prefer_mmap
    &&& c.file_type_configs@ == Map::<Seq<char>, ReaderConfig>::empty()
}

impl Default for ReaderFactoryConfig {
    /// A 100 MiB mapping threshold, 64 KiB buffers, batches of 1000,
    /// validation on, 100 errors, memory mapping preferred, no per-type settings.
    fn default() -> (c: Self)
        ensures
            default_factory_config(c),
    {
        ReaderFactoryConfig {
            mmap_threshold: 100 * 1024 * 1024,
            default_buffer_size: 64 * 1024,
            default_batch_size: 1000,
            enable_validation: true,
            max_errors: 100,
            prefer_mmap: true,
            file_type_configs: StrMap::new(),
        }
    }
}

/// Which reader reads a file.
#[derive(Debug, Clone, Copy, PartialEq, Eq, Structural)]
pub enum ReaderKind {
    /// A buffered file reader.
    File,
    /// A memory-mapped reader.
    Mmap,
}

/// A reader to create: its kind and its settings.
#[derive(Debug)]
pub struct ReaderChoice {
    pub kind: ReaderKind,
    pub config: ReaderConfig,
}

/// The reader factory.
#[derive(Debug)]
pub struct DefaultReaderFactory {
    /// Factory settings.
    pub config: ReaderFactoryConfig,
    /// Reader settings by file type.
    pub reader_configs: StrMap<ReaderConfig>,
}

/// Reader settings made from the factory settings.
pub open spec fn derived_config(
    r: ReaderConfig,
    buffer_size: int,
    batch_size: int,
    validate: bool,
    mmap: bool,
    skip_malformed: bool,
    max_errors: int,
) -> bool {
    &&& r.buffer_size == buffer_size
    &&& r.batch_size == batch_size
    &&& r.validate_on_read == validate
    &&& r.use_memory_mapping == mmap
    &&& r.encoding@ == "UTF-8"@
    &&& r.field_separator == '\t'
    &&& r.skip_malformed == skip_malformed
    &&& r.max_errors == max_errors
}

/// The reader settings for series files.
pub open spec fn series_config(r: ReaderConfig, c: ReaderFactoryConfig) -> bool {
    derived_config(r, c.default_buffer_size as int, c.default_batch_size as int, c.enable_validation, c.prefer_mmap, false, c.max_errors as int)
}

/// The reader settings for data files: larger batches, malformed records
/// skipped, twice the errors.
pub open spec fn data_config(r: ReaderConfig, c: ReaderFactoryConfig) -> bool {
    derived_config(r, c.default_buffer_size as int, c.default_batch_size * 2, c.enable_validation, c.prefer_mmap, true, c.max_errors * 2)
}

/// The reader settings for lookup files: half buffers, half batches, half
/// the errors, no memory mapping.
pub open spec fn lookup_config(r: ReaderConfig, c: ReaderFactoryConfig) -> bool {
    derived_config(r, (c.default_buffer_size / 2) as int, (c.default_batch_size / 2) as int, c.enable_validation, false, false, (c.max_errors / 2) as int)
}

/// The reader settings for files of no known type.
pub open spec fn generic_config(r: ReaderConfig, c: ReaderFactoryConfig) -> bool {
    series_config(r, c)
}

/// The reader settings of a factory made from `c`: built-in settings for
/// series, data and lookup files, replaced by the per-type settings of `c`.
pub open spec fn factory_configs(m: Map<Seq<char>, ReaderConfig>, c: ReaderFactoryConfig) -> bool {
    let user = c.file_type_configs@;
    &&& m.dom() == set!["series"@, "data"@, "lookup"@].union(user.dom())
    &&& forall|k: Seq<char>| #[trigger] user.contains_key(k) ==> m[k] == user[k]
    &&& !user.contains_key("series"@) ==> series_config(m["series"@], c)
    &&& !user.contains_key("data"@) ==> data_config(m["data"@], c)
    &&& !user.contains_key("lookup"@) ==> lookup_config(m["lookup"@], c)
}

/// The type of a file, from its name and extension.
pub open spec fn file_type_of(path: Seq<char>) -> Option<Seq<char>> {
    let by_name = match file_name(path) {
        Some(n) => if has_sub(n, ".series"@) {
            Some("series"@)
        } else if has_sub(n, ".data"@) {
            Some("data"@)
        } else if has_sub(n, ".area"@) || has_sub(n, ".item"@) {
            Some("lookup"@)
        } else {
            None
        },
        None => None,
    };
    match by_name {
        Some(t) => Some(t),
        None => match extension(path) {
            Some(e) => if e == "series"@ {
                Some("series"@)
            } else if e == "data"@ {
                Some("data"@)
            } else if e == "area"@ || e == "item"@ {
                Some("lookup"@)
            } else if e == "txt"@ {
                match file_stem(path) {
                    Some(s) => if has_suffix(s, "series"@) {
                        Some("series"@)
                    } else if has_suffix(s, "data"@) {
                        Some("data"@)
                    } else {
                        Some("generic"@)
                    },
                    None => Some("generic"@),
                }
            } else {
                Some("generic"@)
            },
            None => None,
        },
    }
}

/// Series files are told by ".series" in their name, and data files by
/// ".data" when the name does not also say ".series"; a name that says
/// neither is told by its extension "series" or "data" the same way.
pub proof fn lemma_series_and_data_file_types(p: Seq<char>)
    requires
        file_name(p) is Some,
    ensures
        has_sub(file_name(p)->0, ".series"@) ==> file_type_of(p) == Some("series"@),
        !has_sub(file_name(p)->0, ".series"@) && has_sub(file_name(p)->0, ".data"@) ==> file_type_of(p) == Some("data"@),
        !has_sub(file_name(p)->0, ".series"@) && !has_sub(file_name(p)->0, ".data"@) && !has_sub(file_name(p)->0, ".area"@)
            && !has_sub(file_name(p)->0, ".item"@) ==> {
            &&& extension(p) == Some("series"@) ==> file_type_of(p) == Some("series"@)
            &&& extension(p) == Some("data"@) ==> file_type_of(p) == Some("data"@)
        },
{
    reveal_strlit("series");
    reveal_strlit("data");
    assert("series"@.len() == 6 && "data"@.len() == 4);
}

/// Lookup files are told by ".area" or ".item": a file whose name holds
/// neither ".series" nor ".data" is a lookup file when its name holds
/// ".area" or ".item", or when its extension is "area" or "item"; both
/// markers count alike.
pub proof fn lemma_lookup_file_types(p: Seq<char>)
    requires
        file_name(p) is Some,
        !has_sub(file_name(p)->0, ".series"@),
        !has_sub(file_name(p)->0, ".data"@),
    ensures
        has_sub(file_name(p)->0, ".item"@) ==> file_type_of(p) == Some("lookup"@),
        has_sub(file_name(p)->0, ".area"@) ==> file_type_of(p) == Some("lookup"@),
        extension(p) == Some("item"@) ==> file_type_of(p) == Some("lookup"@),
        extension(p) == Some("area"@) ==> file_type_of(p) == Some("lookup"@),
{
    reveal_strlit("series");
    reveal_strlit("data");
    reveal_strlit("area");
    reveal_strlit("item");
    reveal_strlit("txt");
    let n = file_name(p)->0;
    if extension(p) == Some("item"@) || extension(p) == Some("area"@) {
        let e = extension(p)->0;
        assert("item"@.len() == 4 && "area"@.len() == 4 && "series"@.len() == 6);
        assert("item"@[0] == 'i' && "area"@[0] == 'a' && "data"@[0] == 'd');
        assert(e != "series"@);
        assert(e != "data"@);
        if has_sub(n, ".area"@) || has_sub(n, ".item"@) {
            assert(file_type_of(p) == Some("lookup"@));
        } else {
            assert(e == "area"@ || e == "item"@);
            assert(file_type_of(p) == Some("lookup"@));
        }
    }
}

/// An unsupported-format data error with `message`.
pub open spec fn unsupported_data(e: Error, message: Seq<char>) -> bool {
    e matches Error::Data(DataError::FormatError { message: m, expected: x, actual: a }) && m@ == message
        && x@ == "supported format"@ && a@ == "unsupported format"@
}

/// A not-implemented data error with `message`.
pub open spec fn not_implemented(e: Error, message: Seq<char>) -> bool {
    e matches Error::Data(DataError::FormatError { message: m, expected: x, actual: a }) && m@ == message
        && x@ == "implemented feature"@ && a@ == "not implemented"@
}

fn make_config(buffer_size: usize, batch_size: usize, validate: bool, mmap: bool, skip_malformed: bool, max_errors: usize) -> (r: ReaderConfig)
    ensures
        derived_config(r, buffer_size as int, batch_size as int, validate, mmap, skip_malformed, max_errors as int),
{
    ReaderConfig {
        buffer_size,
        batch_size,
        validate_on_read: validate,
        use_memory_mapping: mmap,
        encoding: owned("UTF-8"),
        field_separator: '\t',
        skip_malformed,
        max_errors,
    }
}

impl DefaultReaderFactory {
    /// A factory with the default settings.
    pub fn new() -> (f: Self)
        ensures
            default_factory_config(f.config),
            factory_configs(f.reader_configs@, f.config),
            f.reader_configs.key_list() == seq!["series"@, "data"@, "lookup"@],
    {
        Self::with_config(ReaderFactoryConfig::default())
    }

    /// A factory with the given settings (see `factory_configs`).
    pub fn with_config(config: ReaderFactoryConfig) -> (f: Self)
        requires
            config.default_batch_size * 2 <= usize::MAX,
            config.max_errors * 2 <= usize::MAX,
        ensures
            f.config == config,
            factory_configs(f.reader_configs@, config),
            f.reader_configs.key_list().take(3) == seq!["series"@, "data"@, "lookup"@],
            config.file_type_configs@ == Map::<Seq<char>, ReaderConfig>::empty() ==> f.reader_configs.key_list()
                == seq!["series"@, "data"@, "lookup"@],
    {
        proof {
            reveal_strlit("series");
            reveal_strlit("data");
            reveal_strlit("lookup");
        }
        let mut reader_configs: StrMap<ReaderConfig> = StrMap::new();
        assert(reader_configs.key_list() =~= Seq::<Seq<char>>::empty());
        reader_configs.insert(
            owned("series"),
            make_config(config.default_buffer_size, config.default_batch_size, config.enable_validation, config.prefer_mmap, false, config.max_errors),
        );
        assert(reader_configs.key_list() =~= seq!["series"@]);
        assert("data"@ != "series"@) by {
            assert("data"@.len() != "series"@.len());
        }
        assert(!reader_configs@.contains_key("data"@));
        reader_configs.insert(
            owned("data"),
            make_config(
                config.default_buffer_size,
                config.default_batch_size * 2,
                config.enable_validation,
                config.prefer_mmap,
                true,
                config.max_errors * 2,
            ),
        );
        assert(reader_configs.key_list() =~= seq!["series"@, "data"@]);
        assert("lookup"@ != "series"@ && "lookup"@ != "data"@) by {
            assert("lookup"@[0] != "series"@[0]);
            assert("lookup"@.len() != "data"@.len());
        }
        assert(!reader_configs@.contains_key("lookup"@));
        reader_configs.insert(
            owned("lookup"),
            make_config(config.default_buffer_size / 2, config.default_batch_size / 2, config.enable_validation, false, false, config.max_errors / 2),
        );
        let ghost base = reader_configs@;
        assert(reader_configs.key_list() =~= seq!["series"@, "data"@, "lookup"@]);
        let ghost user = config.file_type_configs@;
        let ghost ukeys = config.file_type_configs.key_list();
        let n = config.file_type_configs.len();
        let mut i: usize = 0;
        while i < n
            invariant
                n == ukeys.len(),
                ukeys == config.file_type_configs.key_list(),
                user == config.file_type_configs@,
                i <= n,
                reader_configs@.dom() == base.dom().union(ukeys.take(i as int).to_set()),
                forall|j: int| 0 <= j < i ==> #[trigger] reader_configs@[ukeys[j]] == user[ukeys[j]],
                forall|k: Seq<char>| !ukeys.take(i as int).contains(k) && base.contains_key(k) ==> #[trigger] reader_configs@[k] == base[k],
                reader_configs.key_list().take(3) == seq!["series"@, "data"@, "lookup"@],
                reader_configs.key_list().len() >= 3,
                reader_configs.key_list().len() <= 3 + i,
            decreases n - i,
        {
            let (k, v) = config.file_type_configs.entry_at(i);
            let ghost before_keys = reader_configs.key_list();
            reader_configs.insert(k.clone(), v.clone());
            proof {
                ukeys.take(i as int).lemma_push_to_set_commute(ukeys[i as int]);
                assert(ukeys.take(i + 1) =~= ukeys.take(i as int).push(ukeys[i as int]));
                assert(reader_configs.key_list().take(3) =~= before_keys.take(3));
                assert forall|j: int| 0 <= j < i + 1 implies #[trigger] reader_configs@[ukeys[j]] == user[ukeys[j]] by {
                    if ukeys[j] != ukeys[i as int] {
                        assert(j < i);
                    }
                }
                assert forall|key: Seq<char>| !ukeys.take(i + 1).contains(key) && base.contains_key(key) implies #[trigger] reader_configs@[key]
                    == base[key] by {
                    assert(ukeys.take(i + 1)[i as int] == ukeys[i as int]);
                    assert(!ukeys.take(i as int).contains(key)) by {
                        if ukeys.take(i as int).contains(key) {
                            let j = choose|j: int| 0 <= j < i && ukeys.take(i as int)[j] == key;
                            assert(ukeys.take(i + 1)[j] == key);
                        }
                    }
                }
            }
            i = i + 1;
        }
        proof {
            config.file_type_configs.lemma_view_dom();
            assert(ukeys.take(n as int) =~= ukeys);
            assert(ukeys.to_set() =~= user.dom()) by {
                assert forall|k: Seq<char>| ukeys.to_set().contains(k) <==> user.contains_key(k) by {
                    if ukeys.to_set().contains(k) {
                        assert(ukeys.contains(k));
                    }
                }
            }
            assert forall|k: Seq<char>| #[trigger] user.contains_key(k) implies reader_configs@[k] == user[k] by {
                let j = choose|j: int| 0 <= j < ukeys.len() && ukeys[j] == k;
                assert(reader_configs@[ukeys[j]] == user[ukeys[j]]);
            }
            assert(reader_configs@.dom() =~= set!["series"@, "data"@, "lookup"@].union(user.dom()));
            if !user.contains_key("series"@) {
                assert(!ukeys.contains("series"@));
            }
            if !user.contains_key("data"@) {
                assert(!ukeys.contains("data"@));
            }
            if !user.contains_key("lookup"@) {
                assert(!ukeys.contains("lookup"@));
            }
            if user == Map::<Seq<char>, ReaderConfig>::empty() {
                assert(n == 0) by {
                    if n > 0 {
                        assert(user.contains_key(ukeys[0]));
                    }
                }
                assert(reader_configs.key_list().len() == 3);
                assert(reader_configs.key_list() =~= reader_configs.key_list().take(3));
            }
        }
        DefaultReaderFactory { config, reader_configs }
    }

    /// The type of a file: "series", "data" or "lookup" when its name says
    /// so, else by its extension ("txt" files by the end of their stem),
    /// "generic" for other extensions; a file without extension is an
    /// unsupported-format error.
    pub fn determine_file_type(&self, path: &str) -> (r: crate::error::Result<String>)
        ensures
            match file_type_of(path@) {
                Some(t) => r matches Ok(s) && s@ == t,
                None => r matches Err(e) && unsupported_data(e, "Cannot determine file type for: "@ + path@),
            },
    {
        match path_file_name(path) {
            Some(name) => {
                if contains_str(name.as_str(), ".series") {
                    return Ok(owned("series"));
                } else if contains_str(name.as_str(), ".data") {
                    return Ok(owned("data"));
                } else if contains_str(name.as_str(), ".area") || contains_str(name.as_str(), ".item") {
                    return Ok(owned("lookup"));
                }
            },
            None => {},
        }
        match path_extension(path) {
            Some(ext) => {
                let e = ext.as_str();
                if str_eq(e, "series") {
                    Ok(owned("series"))
                } else if str_eq(e, "data") {
                    Ok(owned("data"))
                } else if str_eq(e, "area") || str_eq(e, "item") {
                    Ok(owned("lookup"))
                } else if str_eq(e, "txt") {
                    match path_stem(path) {
                        Some(stem) => {
                            if ends_with_str(stem.as_str(), "series") {
                                Ok(owned("series"))
                            } else if ends_with_str(stem.as_str(), "data") {
                                Ok(owned("data"))
                            } else {
                                Ok(owned("generic"))
                            }
                        },
                        None => Ok(owned("generic")),
                    }
                } else {
                    Ok(owned("generic"))
                }
            },
            None => Err(Error::Data(DataError::unsupported_format(cat("Cannot determine file type for: ", path)))),
        }
    }

    /// Whether a file of `file_size` bytes (`None` when its size cannot be
    /// read) is memory-mapped: only when the settings ask for it and the
    /// file is at least as large as the threshold.
    pub fn should_use_mmap(&self, file_size: Option<u64>, config: &ReaderConfig) -> (r: crate::error::Result<bool>)
        ensures
            r matches Ok(b) && b == (config.use_memory_mapping && match file_size {
                Some(n) => n >= self.config.mmap_threshold,
                None => false,
            }),
    {
        if !config.use_memory_mapping {
            return Ok(false);
        }
        match file_size {
            Some(n) => Ok(n >= self.config.mmap_threshold),
            None => Ok(false),
        }
    }

    /// The reader settings for a file type: its own, else generic ones made
    /// from the factory settings.
    pub fn get_reader_config(&self, file_type: &str) -> (r: ReaderConfig)
        ensures
            self.reader_configs@.contains_key(file_type@) ==> r == self.reader_configs@[file_type@],
            !self.reader_configs@.contains_key(file_type@) ==> generic_config(r, self.config),
    {
        match self.reader_configs.get(file_type) {
            Some(c) => c.clone(),
            None => make_config(
                self.config.default_buffer_size,
                self.config.default_batch_size,
                self.config.enable_validation,
                self.config.prefer_mmap,
                false,
                self.config.max_errors,
            ),
        }
    }

    /// The reader for a file of `file_size` bytes: the settings of its type,
    /// memory-mapped when `should_use_mmap` says so.
    pub fn create_optimized_reader(&self, path: &str, file_size: Option<u64>) -> (r: crate::error::Result<ReaderChoice>)
        ensures
            match file_type_of(path@) {
                Some(t) => r matches Ok(c) && (self.reader_configs@.contains_key(t) ==> c.config
                    == self.reader_configs@[t]) && (!self.reader_configs@.contains_key(t) ==> generic_config(
                    c.config,
                    self.config,
                )) && (c.kind == ReaderKind::Mmap <==> (c.config.use_memory_mapping && match file_size {
                    Some(n) => n >= self.config.mmap_threshold,
                    None => false,
                })),
                None => r matches Err(e) && unsupported_data(e, "Cannot determine file type for: "@ + path@),
            },
    {
        let file_type = self.determine_file_type(path)?;
        let config = self.get_reader_config(file_type.as_str());
        let mmap = self.should_use_mmap(file_size, &config)?;
        if mmap {
            Ok(ReaderChoice { kind: ReaderKind::Mmap, config })
        } else {
            Ok(ReaderChoice { kind: ReaderKind::File, config })
        }
    }

    /// The file types with reader settings, in the order they were added.
    pub fn get_supported_file_types(&self) -> (r: Vec<String>)
        ensures
            crate::text::views(r@) == self.reader_configs.key_list(),
    {
        self.reader_configs.keys()
    }

    /// Sets the reader settings of a file type.
    pub fn set_file_type_config(&mut self, file_type: String, config: ReaderConfig)
        ensures
            final(self).reader_configs@ == old(self).reader_configs@.insert(file_type@, config),
            final(self).config == old(self).config,
    {
        self.reader_configs.insert(file_type, config);
    }

    /// Removes the reader settings of a file type.
    pub fn remove_file_type_config(&mut self, file_type: &str)
        ensures
            final(self).reader_configs@ == old(self).reader_configs@.remove(file_type@),
            final(self).config == old(self).config,
    {
        self.reader_configs.remove(file_type);
    }

    /// A reader for an explicit file type: memory-mapped when the settings
    /// ask for it, else a file reader.
    pub fn create_reader(&self, file_type: &str, config: ReaderConfig) -> (r: crate::error::Result<ReaderChoice>)
        ensures
            r matches Ok(c) && c.config == config && (c.kind == ReaderKind::Mmap <==> config.use_memory_mapping),
    {
        if config.use_memory_mapping {
            Ok(ReaderChoice { kind: ReaderKind::Mmap, config })
        } else {
            Ok(ReaderChoice { kind: ReaderKind::File, config })
        }
    }

    /// A series reader: memory-mapped when the settings ask for it.
    pub fn create_series_reader(&self, config: ReaderConfig) -> (r: crate::error::Result<ReaderChoice>)
        ensures
            r matches Ok(c) && c.config == config && (c.kind == ReaderKind::Mmap <==> config.use_memory_mapping),
    {
        self.create_reader("series", config)
    }

    /// An observation reader: only the file reader reads observations, so a
    /// memory-mapped one is a not-implemented error.
    pub fn create_observation_reader(&self, config: ReaderConfig) -> (r: crate::error::Result<ReaderChoice>)
        ensures
            config.use_memory_mapping ==> (r matches Err(e) && not_implemented(
                e,
                "ObservationReader for MmapReader is not yet implemented"@,
            )),
            !config.use_memory_mapping ==> (r matches Ok(c) && c.config == config && c.kind == ReaderKind::File),
    {
        if config.use_memory_mapping {
            Err(Error::Data(DataError::not_implemented(owned("ObservationReader for MmapReader is not yet implemented"))))
        } else {
            Ok(ReaderChoice { kind: ReaderKind::File, config })
        }
    }

    /// No lookup reader exists: a not-implemented error.
    pub fn create_lookup_reader(&self, _config: ReaderConfig) -> (r: crate::error::Result<ReaderChoice>)
        ensures
            r matches Err(e) && not_implemented(e, "LookupReader implementation is not yet available"@),
    {
        Err(Error::Data(DataError::not_implemented(owned("LookupReader implementation is not yet available"))))
    }

    /// No survey reader exists: a not-implemented error.
    pub fn create_survey_reader(&self, _config: ReaderConfig) -> (r: crate::error::Result<ReaderChoice>)
        ensures
            r matches Err(e) && not_implemented(e, "SurveyReader implementation is not yet available"@),
    {
        Err(Error::Data(DataError::not_implemented(owned("SurveyReader implementation is not yet available"))))
    }

    /// No streaming reader exists: a not-implemented error.
    pub fn create_streaming_reader(&self, _config: ReaderConfig) -> (r: crate::error::Result<ReaderChoice>)
        ensures
            r matches Err(e) && not_implemented(e, "StreamingReader implementation is not yet available"@),
    {
        Err(Error::Data(DataError::not_implemented(owned("StreamingReader implementation is not yet available"))))
    }

    /// A memory-mapped reader with the given settings.
    pub fn create_memory_mapped_reader(&self, config: ReaderConfig) -> (r: crate::error::Result<ReaderChoice>)
        ensures
            r matches Ok(c) && c.config == config && c.kind == ReaderKind::Mmap,
    {
        Ok(ReaderChoice { kind: ReaderKind::Mmap, config })
    }

    /// The file types with reader settings.
    pub fn supported_file_types(&self) -> (r: Vec<String>)
        ensures
            crate::text::views(r@) == self.reader_configs.key_list(),
    {
        self.get_supported_file_types()
    }
}

/// Builder for reader factory settings.
#[derive(Debug)]
pub struct ReaderFactoryConfigBuilder {
    /// The settings being built.
    pub config: ReaderFactoryConfig,
}

impl ReaderFactoryConfigBuilder {
    /// A builder starting from the defaults.
    pub fn new() -> (b: Self)
        ensures
            default_factory_config(b.config),
    {
        ReaderFactoryConfigBuilder { config: ReaderFactoryConfig::default() }
    }

    /// Sets the memory-mapping threshold.
    pub fn mmap_threshold(self, threshold: u64) -> (b: Self)
        ensures
            b.config == (ReaderFactoryConfig { mmap_threshold: threshold, ..self.config }),
    {
        let mut b = self;
        b.config.mmap_threshold = threshold;
        b
    }

    /// Sets the default buffer size.
    pub fn default_buffer_size(self, size: usize) -> (b: Self)
        ensures
            b.config == (ReaderFactoryConfig { default_buffer_size: size, ..self.config }),
    {
        let mut b = self;
        b.config.default_buffer_size = size;
        b
    }

    /// Sets the default batch size.
    pub fn default_batch_size(self, size: usize) -> (b: Self)
        ensures
            b.config == (ReaderFactoryConfig { default_batch_size: size, ..self.config }),
    {
        let mut b = self;
        b.config.default_batch_size = size;
        b
    }

    /// Turns default validation on or off.
    pub fn enable_validation(self, enable: bool) -> (b: Self)
        ensures
            b.config == (ReaderFactoryConfig { enable_validation: enable, ..self.config }),
    {
        let mut b = self;
        b.config.enable_validation = enable;
        b
    }

    /// Sets the errors tolerated.
    pub fn max_errors(self, max: usize) -> (b: Self)
        ensures
            b.config == (ReaderFactoryConfig { max_errors: max, ..self.config }),
    {
        let mut b = self;
        b.config.max_errors = max;
        b
    }

    /// Sets whether memory mapping is preferred.
    pub fn prefer_mmap(self, prefer: bool) -> (b: Self)
        ensures
            b.config == (ReaderFactoryConfig { prefer_mmap: prefer, ..self.config }),
    {
        let mut b = self;
        b.config.prefer_mmap = prefer;
        b
    }

    /// Sets the reader settings of a file type.
    pub fn file_type_config(self, file_type: String, config: ReaderConfig) -> (b: Self)
        ensures
            b.config.file_type_configs@ == self.config.file_type_configs@.insert(file_type@, config),
            b.config.mmap_threshold == self.config.mmap_threshold,
            b.config.default_buffer_size == self.config.default_buffer_size,
            b.config.default_batch_size == self.config.default_batch_size,
            b.config.enable_validation == self.config.enable_validation,
            b.config.max_errors == self.config.max_errors,
            b.config.prefer_mmap == self.config.prefer_mmap,
    {
        let mut b = self;
        b.config.file_type_configs.insert(file_type, config);
        b
    }

    /// The settings built.
    pub fn build(self) -> (c: ReaderFactoryConfig)
        ensures
            c == self.config,
    {
        self.config
    }
}

impl Default for ReaderFactoryConfigBuilder {
    fn default() -> (b: Self)
        ensures
            default_factory_config(b.config),
    {
        Self::new()
    }
}

} // verus!
