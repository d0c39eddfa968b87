//! The configuration loader's decisions: where configuration files are,
//! which format a file is in, which of several sources is used, and which
//! survey codes a directory listing names. Reading and parsing the files is
//! left to the caller.
//!
//! Layers are applied in increasing precedence: shared base files
//! (`surveys/_shared/base_*.yml`), the survey's own files
//! (`surveys/<CODE>/*.yml`), then the overrides `overrides/defaults.yml`,
//! `overrides/env/<env>.yml` and `overrides/local.yml`.

use vstd::prelude::*;
use crate::config::model::{survey_name, Config, ProcessingStrategy, fresh_config, valid_survey_code, validate_survey_code};
use crate::config::yaml_adapter::strategy_named;
use crate::error::types::{ConfigError, Error};
use crate::order::{sort_strings, sorted};
use crate::paths::{extension, file_stem, join, join_path, path_extension, path_stem};
use crate::text::{cat, cat3, contains_string, lower_of, owned, parse_u32, parse_unsigned, parse_usize, str_eq, to_lower, to_upper, unsigned_error, unsigned_error_text, upper_of, views};

verus! {

/// Where a configuration comes from.
#[derive(Debug)]
pub enum ConfigSource {
    /// A file path.
    File(String),
    /// Text in a given format.
    String(String, ConfigFormat),
    /// Environment variables.
    Environment,
    /// The default configuration of a survey.
    Default(String),
}

/// Configuration text formats.
#[derive(Debug, Clone, Copy, PartialEq, Eq, Structural)]
pub enum ConfigFormat {
    /// YAML.
    Yaml,
    /// JSON.
    Json,
    /// YAML if it parses, else JSON.
    Auto,
}

/// The configuration loader, rooted at a configuration directory.
#[derive(Debug)]
pub struct ConfigLoader {
    /// Base directory for configuration files.
    pub config_dir: String,
}

/// The format of a file with extension `ext`, by its lower-cased form.
pub open spec fn format_of_extension(ext: Seq<char>) -> Option<ConfigFormat> {
    let e = lower_of(ext);
    if e == "yml"@ || e == "yaml"@ {
        Some(ConfigFormat::Yaml)
    } else if e == "json"@ {
        Some(ConfigFormat::Json)
    } else {
        None
    }
}

/// An unsupported-format error with `message`.
pub open spec fn unsupported(e: Error, message: Seq<char>) -> bool {
    e matches Error::Config(ConfigError::ParseError { message: m, line: None, column: None }) && m@ == message
}

/// The three files a survey's configuration may be kept in, below
/// `surveys/`, named by its lower-cased code.
pub open spec fn survey_files(dir: Seq<char>, code: Seq<char>) -> Seq<Seq<char>> {
    let lc = lower_of(code);
    seq![
        join_path(dir, "surveys/"@ + lc + ".yml"@),
        join_path(dir, "surveys/"@ + lc + ".yaml"@),
        join_path(dir, "surveys/"@ + lc + ".json"@),
    ]
}

/// What `load_from_sources` does with a list of sources.
#[derive(Debug)]
pub enum SourceSelection {
    /// Load the source at this position (an existing file or text).
    Load(usize),
    /// Use the fresh configuration of this survey.
    Fresh(String),
    /// No source can be used.
    Nothing,
}

/// The source at `i` ends the search: a file that exists, or text.
pub open spec fn ends_search(s: ConfigSource, exists: bool) -> bool {
    match s {
        ConfigSource::File(_) => exists,
        ConfigSource::String(_, _) => true,
        _ => false,
    }
}

/// The upper-cased stem of a path, if it has one.
pub open spec fn stem_code(p: Seq<char>) -> Option<Seq<char>> {
    match file_stem(p) {
        Some(s) => Some(upper_of(s)),
        None => None,
    }
}

/// The upper-cased stems of the YAML files of a listing, in order, one
/// for each file that has a stem.
pub open spec fn yml_codes(yml: Seq<Seq<char>>) -> Seq<Seq<char>>
    decreases yml.len(),
{
    if yml.len() == 0 {
        Seq::empty()
    } else {
        let rest = yml_codes(yml.drop_last());
        match stem_code(yml.last()) {
            Some(c) => rest.push(c),
            None => rest,
        }
    }
}

/// `codes` followed by the upper-cased stems of the JSON files, in order,
/// each added only when it is not already there.
pub open spec fn with_json_codes(codes: Seq<Seq<char>>, json: Seq<Seq<char>>) -> Seq<Seq<char>>
    decreases json.len(),
{
    if json.len() == 0 {
        codes
    } else {
        let acc = with_json_codes(codes, json.drop_last());
        match stem_code(json.last()) {
            Some(c) => if acc.contains(c) {
                acc
            } else {
                acc.push(c)
            },
            None => acc,
        }
    }
}

/// The codes a listing names before they are sorted: those of the YAML
/// files, then those of the JSON files not already named.
pub open spec fn listed_sequence(yml: Seq<Seq<char>>, json: Seq<Seq<char>>) -> Seq<Seq<char>> {
    with_json_codes(yml_codes(yml), json)
}

/// The codes named by the files of a survey directory listing: the
/// upper-cased stems of the YAML files, then those of the JSON files not
/// already named.
pub open spec fn listed_codes(yml: Seq<Seq<char>>, json: Seq<Seq<char>>) -> Set<Seq<char>> {
    Set::new(
        |c: Seq<char>|
            exists|i: int|
                #![trigger yml[i]]
                0 <= i < yml.len() && stem_code(yml[i]) == Some(c),
    ).union(
        Set::new(
            |c: Seq<char>|
                exists|i: int|
                    #![trigger json[i]]
                    0 <= i < json.len() && stem_code(json[i]) == Some(c),
        ),
    )
}

impl ConfigLoader {
    /// A loader rooted at "config".
    pub fn new() -> (l: Self)
        ensures
            l.config_dir@ == "config"@,
    {
        ConfigLoader { config_dir: owned("config") }
    }

    /// A loader rooted at `config_dir`.
    pub fn with_config_dir(config_dir: &str) -> (l: Self)
        ensures
            l.config_dir@ == config_dir@,
    {
        ConfigLoader { config_dir: owned(config_dir) }
    }

    /// `path` as given when absolute, else below the configuration directory.
    pub fn resolve_path(&self, path: &str) -> (r: String)
        ensures
            r@ == join_path(self.config_dir@, path@),
    {
        join(self.config_dir.as_str(), path)
    }

    /// The format of a file, from its extension in any letter case: "yml"
    /// and "yaml" are YAML, "json" is JSON; any other extension, or none, is
    /// an unsupported-format error naming the extension, or saying there is
    /// none.
    pub fn detect_format(&self, path: &str) -> (r: crate::error::Result<ConfigFormat>)
        ensures
            match extension(path@) {
                Some(ext) => match format_of_extension(ext) {
                    Some(f) => r == Ok::<ConfigFormat, Error>(f),
                    None => r matches Err(e) && unsupported(e, lower_of(ext)),
                },
                None => r matches Err(e) && unsupported(e, "No file extension"@),
            },
    {
        match path_extension(path) {
            Some(ext) => {
                let e = to_lower(ext.as_str());
                if str_eq(e.as_str(), "yml") || str_eq(e.as_str(), "yaml") {
                    Ok(ConfigFormat::Yaml)
                } else if str_eq(e.as_str(), "json") {
                    Ok(ConfigFormat::Json)
                } else {
                    Err(ConfigError::UnsupportedFormat(e))
                }
            },
            None => Err(ConfigError::UnsupportedFormat(owned("No file extension"))),
        }
    }

    /// The files a survey's configuration may be kept in, in the order they
    /// are tried: `surveys/<code>.yml`, `.yaml`, `.json`, with the code
    /// lower-cased, below the configuration directory.
    pub fn candidate_files(&self, survey_code: &str) -> (r: Vec<String>)
        ensures
            views(r@) == survey_files(self.config_dir@, survey_code@),
    {
        let lc = to_lower(survey_code);
        let mut r: Vec<String> = Vec::new();
        r.push(self.resolve_path(cat3("surveys/", lc.as_str(), ".yml").as_str()));
        r.push(self.resolve_path(cat3("surveys/", lc.as_str(), ".yaml").as_str()));
        r.push(self.resolve_path(cat3("surveys/", lc.as_str(), ".json").as_str()));
        assert(views(r@) =~= survey_files(self.config_dir@, survey_code@));
        r
    }

    /// The files to try for `load_for_survey`, once the survey code is
    /// checked: two ASCII capital letters, else an invalid-argument error.
    pub fn survey_file_candidates(&self, survey_code: &str) -> (r: crate::error::Result<Vec<String>>)
        ensures
            valid_survey_code(survey_code@) ==> (r matches Ok(v) && views(v@) == survey_files(
                self.config_dir@,
                survey_code@,
            )),
            !valid_survey_code(survey_code@) ==> (r matches Err(Error::Config(
                ConfigError::ValidationError { message: m, field: None },
            )) && m@ == "Invalid survey code: "@ + "invalid_survey_code"@),
    {
        match validate_survey_code(survey_code) {
            Ok(()) => Ok(self.candidate_files(survey_code)),
            Err(e) => Err(Error::Config(ConfigError::InvalidArgument(cat("Invalid survey code: ", e.as_str())))),
        }
    }

    /// The configuration used when no file of the survey exists: the fresh
    /// one for its code.
    pub fn default_for_survey(&self, survey_code: &str) -> (c: Config)
        ensures
            fresh_config(c, survey_code@),
    {
        Config::new(survey_code)
    }

    /// The directory of a survey's layered configuration: `surveys/<CODE>`.
    pub fn survey_dir(&self, survey_code: &str) -> (r: String)
        ensures
            r@ == join_path(self.config_dir@, "surveys/"@ + upper_of(survey_code@)),
    {
        let code = to_upper(survey_code);
        self.resolve_path(cat("surveys/", code.as_str()).as_str())
    }

    /// The override files of a survey, in the order they are applied, each
    /// with the name it is recorded under: `overrides/defaults.yml` as
    /// "defaults", `overrides/env/<env>.yml` as "env/<env>", and
    /// `overrides/local.yml` as "local".
    pub fn override_files(&self, survey_code: &str, environment: &str) -> (r: Vec<(String, String)>)
        ensures
            r@.len() == 3,
            ({
                let dir = join_path(join_path(self.config_dir@, "surveys/"@ + upper_of(survey_code@)), "overrides"@);
                &&& r@[0].0@ == join_path(dir, "defaults.yml"@)
                &&& r@[0].1@ == "defaults"@
                &&& r@[1].0@ == join_path(join_path(dir, "env"@), environment@ + ".yml"@)
                &&& r@[1].1@ == "env/"@ + environment@
                &&& r@[2].0@ == join_path(dir, "local.yml"@)
                &&& r@[2].1@ == "local"@
            }),
    {
        let sd = self.survey_dir(survey_code);
        let dir = join(sd.as_str(), "overrides");
        let env_dir = join(dir.as_str(), "env");
        let mut r: Vec<(String, String)> = Vec::new();
        r.push((join(dir.as_str(), "defaults.yml"), owned("defaults")));
        r.push((join(env_dir.as_str(), cat(environment, ".yml").as_str()), cat("env/", environment)));
        r.push((join(dir.as_str(), "local.yml"), owned("local")));
        r
    }

    /// Which source `load_from_sources` uses, given whether each source that
    /// is a file exists: the first existing file or text ends the search;
    /// before that, each default source replaces the configuration; without
    /// any of them nothing can be used.
    pub fn select_source(sources: &Vec<ConfigSource>, exists: &Vec<bool>) -> (r: SourceSelection)
        requires
            exists@.len() == sources@.len(),
        ensures
            match r {
                SourceSelection::Load(i) => i < sources@.len() && ends_search(sources@[i as int], exists@[i as int])
                    && forall|j: int| 0 <= j < i ==> !ends_search(#[trigger] sources@[j], exists@[j]),
                SourceSelection::Fresh(code) => (forall|j: int|
                    0 <= j < sources@.len() ==> !ends_search(#[trigger] sources@[j], exists@[j]))
                    && exists|j: int|
                    #![trigger sources@[j]]
                    0 <= j < sources@.len() && (sources@[j] matches ConfigSource::Default(c) && c@ == code@)
                        && forall|k: int| j < k < sources@.len() ==> !(#[trigger] sources@[k] is Default),
                SourceSelection::Nothing => forall|j: int|
                    0 <= j < sources@.len() ==> !ends_search(#[trigger] sources@[j], exists@[j])
                        && !(sources@[j] is Default),
            },
    {
        let mut chosen: Option<usize> = None;
        let mut i: usize = 0;
        while i < sources.len()
            invariant
                exists@.len() == sources@.len(),
                i <= sources@.len(),
                forall|j: int| 0 <= j < i ==> !ends_search(#[trigger] sources@[j], exists@[j]),
                match chosen {
                    Some(c) => c < i && sources@[c as int] is Default && forall|k: int|
                        c < k < i ==> !(#[trigger] sources@[k] is Default),
                    None => forall|k: int| 0 <= k < i ==> !(#[trigger] sources@[k] is Default),
                },
            decreases sources@.len() - i,
        {
            match &sources[i] {
                ConfigSource::File(_) => {
                    if exists[i] {
                        return SourceSelection::Load(i);
                    }
                },
                ConfigSource::String(_, _) => {
                    return SourceSelection::Load(i);
                },
                ConfigSource::Environment => {},
                ConfigSource::Default(_) => {
                    chosen = Some(i);
                },
            }
            i = i + 1;
        }
        match chosen {
            Some(c) => match &sources[c] {
                ConfigSource::Default(code) => SourceSelection::Fresh(code.clone()),
                _ => SourceSelection::Nothing,
            },
            None => SourceSelection::Nothing,
        }
    }

    /// The survey codes named by a listing of the surveys directory, sorted:
    /// the upper-cased stems of the YAML files and of the JSON files, a
    /// JSON file adding no code that is already there.
    pub fn survey_codes(yml_files: &Vec<String>, json_files: &Vec<String>) -> (r: Vec<String>)
        ensures
            sorted(views(r@)),
            views(r@).to_multiset() == listed_sequence(views(yml_files@), views(json_files@)).to_multiset(),
            views(r@).to_set() == listed_codes(views(yml_files@), views(json_files@)),
    {
        let ghost yv = views(yml_files@);
        let ghost jv = views(json_files@);
        let mut codes: Vec<String> = Vec::new();
        let mut i: usize = 0;
        while i < yml_files.len()
            invariant
                yv == views(yml_files@),
                i <= yml_files@.len(),
                views(codes@) == yml_codes(yv.take(i as int)),
                views(codes@).to_set() == Set::new(
                    |c: Seq<char>|
                        exists|k: int|
                            #![trigger yv[k]]
                            0 <= k < i && stem_code(yv[k]) == Some(c),
                ),
            decreases yml_files@.len() - i,
        {
            let ghost before = views(codes@);
            match path_stem(yml_files[i].as_str()) {
                Some(stem) => {
                    codes.push(to_upper(stem.as_str()));
                },
                None => {},
            }
            proof {
                let after = views(codes@);
                let old_set = Set::new(
                    |c: Seq<char>|
                        exists|k: int|
                            #![trigger yv[k]]
                            0 <= k < i && stem_code(yv[k]) == Some(c),
                );
                let new_set = Set::new(
                    |c: Seq<char>|
                        exists|k: int|
                            #![trigger yv[k]]
                            0 <= k < i + 1 && stem_code(yv[k]) == Some(c),
                );
                assert(yv[i as int] == yml_files@[i as int]@);
                assert(yv.take(i + 1).drop_last() =~= yv.take(i as int));
                if file_stem(yv[i as int]) is Some {
                    let c = stem_code(yv[i as int])->0;
                    assert(after =~= before.push(c));
                    before.lemma_push_to_set_commute(c);
                    assert(new_set =~= old_set.insert(c));
                } else {
                    assert(after =~= before);
                    assert(new_set =~= old_set);
                }
            }
            i = i + 1;
        }
        let ghost yml_set = views(codes@).to_set();
        proof {
            assert(yv.take(yv.len() as int) =~= yv);
        }
        let mut i: usize = 0;
        while i < json_files.len()
            invariant
                jv == views(json_files@),
                i <= json_files@.len(),
                views(codes@) == with_json_codes(yml_codes(yv), jv.take(i as int)),
                views(codes@).to_set() == yml_set.union(
                    Set::new(
                        |c: Seq<char>|
                            exists|k: int|
                                #![trigger jv[k]]
                                0 <= k < i && stem_code(jv[k]) == Some(c),
                    ),
                ),
            decreases json_files@.len() - i,
        {
            let ghost before = views(codes@);
            match path_stem(json_files[i].as_str()) {
                Some(stem) => {
                    let code = to_upper(stem.as_str());
                    let present = contains_string(&codes, code.as_str());
                    if !present {
                        codes.push(code);
                    }
                },
                None => {},
            }
            proof {
                let after = views(codes@);
                let old_set = Set::new(
                    |c: Seq<char>|
                        exists|k: int|
                            #![trigger jv[k]]
                            0 <= k < i && stem_code(jv[k]) == Some(c),
                );
                let new_set = Set::new(
                    |c: Seq<char>|
                        exists|k: int|
                            #![trigger jv[k]]
                            0 <= k < i + 1 && stem_code(jv[k]) == Some(c),
                );
                assert(jv[i as int] == json_files@[i as int]@);
                assert(jv.take(i + 1).drop_last() =~= jv.take(i as int));
                if file_stem(jv[i as int]) is Some {
                    let c = stem_code(jv[i as int])->0;
                    assert(new_set =~= old_set.insert(c));
                    if after.len() > before.len() {
                        assert(after =~= before.push(c));
                        before.lemma_push_to_set_commute(c);
                    } else {
                        assert(after =~= before);
                        assert(before.to_set().contains(c));
                    }
                    assert(after.to_set() =~= yml_set.union(new_set));
                } else {
                    assert(after =~= before);
                    assert(new_set =~= old_set);
                }
            }
            i = i + 1;
        }
        let ghost unsorted = views(codes@);
        let r = sort_strings(codes);
        proof {
            assert(jv.take(jv.len() as int) =~= jv);
            assert(views(r@).to_multiset() == unsorted.to_multiset());
            assert forall|c: Seq<char>| views(r@).to_set().contains(c) <==> unsorted.to_set().contains(c) by {
                views(r@).to_multiset_ensures();
                unsorted.to_multiset_ensures();
                if views(r@).contains(c) {
                    assert(views(r@).to_multiset().count(c) > 0);
                }
                if unsorted.contains(c) {
                    assert(unsorted.to_multiset().count(c) > 0);
                }
            }
            assert(views(r@).to_set() =~= unsorted.to_set());
            assert(listed_codes(yv, jv) =~= yml_set.union(
                Set::new(
                    |c: Seq<char>|
                        exists|k: int|
                            #![trigger jv[k]]
                            0 <= k < jv.len() && stem_code(jv[k]) == Some(c),
                ),
            ));
        }
        r
    }
}

/// Which of the candidate files `load_for_survey` reads, given whether
/// each exists: the first that does; with none, the survey's fresh
/// configuration is used.
pub fn first_existing(exists: &Vec<bool>) -> (r: Option<usize>)
    ensures
        match r {
            Some(i) => i < exists@.len() && exists@[i as int] && forall|j: int| 0 <= j < i ==> !exists@[j],
            None => forall|j: int| 0 <= j < exists@.len() ==> !exists@[j],
        },
{
    let mut i: usize = 0;
    while i < exists.len()
        invariant
            i <= exists@.len(),
            forall|j: int| 0 <= j < i ==> !exists@[j],
        decreases exists@.len() - i,
    {
        if exists[i] {
            return Some(i);
        }
        i = i + 1;
    }
    None
}

/// The error `load_from_sources` gives when no source can be used (see
/// `SourceSelection::Nothing`).
pub fn no_source_error() -> (e: Error)
    ensures
        e matches Error::Config(ConfigError::LoadError { path, source })
            && path@ == "multiple sources"@ && source@ == "No valid configuration source found"@,
{
    Error::Config(ConfigError::LoadError {
        path: owned("multiple sources"),
        source: owned("No valid configuration source found"),
    })
}

impl Default for ConfigLoader {
    fn default() -> (l: Self)
        ensures
            l.config_dir@ == "config"@,
    {
        Self::new()
    }
}


/// The text of an optional string slice.
pub open spec fn opt_str(o: Option<&str>) -> Option<Seq<char>> {
    match o {
        Some(s) => Some(s@),
        None => None,
    }
}

/// A strategy value that names no strategy.
pub open spec fn bad_strategy(s: Option<Seq<char>>) -> bool {
    match s {
        Some(v) => strategy_named(v) is None,
        None => false,
    }
}

/// A number value that is no unsigned integer up to `max`.
pub open spec fn bad_number(s: Option<Seq<char>>, max: nat) -> bool {
    match s {
        Some(v) => parse_unsigned(v, max) is None,
        None => false,
    }
}

/// The validation error "`message`" of the configuration field `field`.
pub open spec fn field_error(e: Error, message: Seq<char>, field: Seq<char>) -> bool {
    &&& e matches Error::Config(ConfigError::ValidationError { message: m, field: f })
    &&& m@ == message
    &&& f matches Some(g) && g@ == field
}

/// The merge error "`message`" between unknown layers.
pub open spec fn merge_error(e: Error, message: Seq<char>) -> bool {
    &&& e matches Error::Config(ConfigError::ConfigMergeError { source_layer: a, target_layer: b, message: m })
    &&& a@ == "unknown"@
    &&& b@ == "unknown"@
    &&& m@ == message
}

/// The fresh configuration of the survey `input` (see `fresh_config`), with
/// the strategy named by `strategy`, the thread count `threads`, the chunk
/// size `chunk` and the output directory `output` where these are given.
pub open spec fn environment_config(
    c: Config,
    input: Seq<char>,
    strategy: Option<Seq<char>>,
    threads: Option<Seq<char>>,
    chunk: Option<Seq<char>>,
    output: Option<Seq<char>>,
) -> bool {
    let code = upper_of(input);
    &&& c.survey.code@ == code
    &&& c.survey.name@ == survey_name(code)
    &&& c.processing.code@ == code
    &&& c.processing.strategy == match strategy {
        Some(v) => strategy_named(v).unwrap(),
        None => ProcessingStrategy::InMemory,
    }
    &&& c.processing.max_threads as nat == match threads {
        Some(v) => parse_unsigned(v, u32::MAX as nat).unwrap(),
        None => 4,
    }
    &&& c.processing.chunk_size as nat == match chunk {
        Some(v) => parse_unsigned(v, usize::MAX as nat).unwrap(),
        None => 1000,
    }
    &&& c.output.output_dir@ == match output {
        Some(v) => v,
        None => "data/processed"@,
    }
    &&& c.error_handling.on_error@ == "continue"@
    &&& c.error_handling.max_errors == 1000
    &&& c.error_handling.log_errors
    &&& c.error_handling.error_log_path is None
    &&& c.error_handling.create_reports
}

impl ConfigLoader {
    /// The fresh configuration of a survey with the settings of the
    /// environment, each given as the value of its variable or none where
    /// the variable is unset: `RUSTY_PROCESSING_STRATEGY` names the
    /// strategy ("in_memory", "chunked" or "mmap"), `RUSTY_MAX_THREADS` gives
    /// the thread count, `RUSTY_CHUNK_SIZE` the chunk size and
    /// `RUSTY_OUTPUT_DIR` the output directory. A strategy that names none is
    /// the error "Invalid processing strategy: " and the value, for field
    /// "strategy"; a thread count that is no `u32` is the error "Invalid
    /// max_threads: " and why, for field "max_threads"; then a chunk size that
    /// is no `usize` is the merge error "Invalid chunk_size: " and why.
    pub fn load_from_environment(
        &self,
        survey_code: &str,
        strategy: Option<&str>,
        max_threads: Option<&str>,
        chunk_size: Option<&str>,
        output_dir: Option<&str>,
    ) -> (r: crate::error::Result<Config>)
        ensures
            ({
                let s = opt_str(strategy);
                let t = opt_str(max_threads);
                let k = opt_str(chunk_size);
                if bad_strategy(s) {
                    r matches Err(e) && field_error(e, "Invalid processing strategy: "@ + s.unwrap(), "strategy"@)
                } else if bad_number(t, u32::MAX as nat) {
                    r matches Err(e) && field_error(
                        e,
                        "Invalid max_threads: "@ + unsigned_error(t.unwrap(), u32::MAX as nat),
                        "max_threads"@,
                    )
                } else if bad_number(k, usize::MAX as nat) {
                    r matches Err(e) && merge_error(
                        e,
                        "Invalid chunk_size: "@ + unsigned_error(k.unwrap(), usize::MAX as nat),
                    )
                } else {
                    r matches Ok(c) && environment_config(c, survey_code@, s, t, k, opt_str(output_dir))
                }
            }),
    {
        let mut config = Config::new(survey_code);
        match strategy {
            Some(s) => {
                proof {
                    reveal_strlit("in_memory");
                    reveal_strlit("chunked");
                    reveal_strlit("mmap");
                }
                if str_eq(s, "in_memory") {
                    config.processing.strategy = ProcessingStrategy::InMemory;
                } else if str_eq(s, "chunked") {
                    config.processing.strategy = ProcessingStrategy::Chunked;
                } else if str_eq(s, "mmap") {
                    config.processing.strategy = ProcessingStrategy::Mmap;
                } else {
                    return Err(
                        Error::Config(
                            ConfigError::ValidationError {
                                message: cat("Invalid processing strategy: ", s),
                                field: Some(owned("strategy")),
                            },
                        ),
                    );
                }
            },
            None => {},
        }
        match max_threads {
            Some(t) => match parse_u32(t) {
                Some(n) => {
                    config.processing.max_threads = n;
                },
                None => {
                    let why = unsigned_error_text(t, u32::MAX as u64);
                    return Err(
                        Error::Config(
                            ConfigError::ValidationError {
                                message: cat("Invalid max_threads: ", why.as_str()),
                                field: Some(owned("max_threads")),
                            },
                        ),
                    );
                },
            },
            None => {},
        }
        match chunk_size {
            Some(k) => match parse_usize(k) {
                Some(n) => {
                    config.processing.chunk_size = n;
                },
                None => {
                    let why = unsigned_error_text(k, usize::MAX as u64);
                    return Err(ConfigError::MergeError(cat("Invalid chunk_size: ", why.as_str())));
                },
            },
            None => {},
        }
        match output_dir {
            Some(o) => {
                config.output.output_dir = owned(o);
            },
            None => {},
        }
        Ok(config)
    }
}

} // verus!
