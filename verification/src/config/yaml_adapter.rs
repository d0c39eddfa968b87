//! Adapters from the YAML layouts found in survey directories (model.yml,
//! io.yml, processing.yml, dags.yml) to the configuration layers.

use vstd::prelude::*;
use crate::config::model::{
    BackoffStrategy, DagDefinition, DagsConfig, DataModel, FieldDefinition, FileFormatConfig,
    IndexDefinition, InputConfig, InputValidationConfig, IoConfig, IoOutputConfig, ModelConfig,
    NamingConfig, ProcessingConfig, ProcessingStrategy, RetryConfig, SlaConfig, TaskDefaults,
    TaskDefinition, default_max_threads, default_processing,
};
use crate::strmap::StrMap;
use crate::text::{cat, contains_str, contains_string, has_sub, owned, str_eq, views};

verus! {

/// The layout of model.yml.
#[derive(Debug)]
pub struct YamlModelConfig {
    pub config_version: u32,
    pub series: Option<SeriesDefinition>,
    pub data_files: Option<Vec<DataFileDefinition>>,
    pub lookups: Option<Vec<LookupDefinition>>,
    pub relationships: Option<Vec<RelationshipDefinition>>,
    pub constraints: Option<ConstraintsDefinition>,
    pub types: Option<StrMap<TypeDefinition>>,
}

/// The series file of a survey.
#[derive(Debug)]
pub struct SeriesDefinition {
    pub path: String,
    pub index: String,
    pub schema: StrMap<FieldSchema>,
}

/// A data file of a survey.
#[derive(Debug)]
pub struct DataFileDefinition {
    pub id: String,
    pub pattern: String,
    pub index: String,
    pub schema: StrMap<FieldSchema>,
}

/// A lookup table of a survey.
#[derive(Debug)]
pub struct LookupDefinition {
    pub id: String,
    pub path: String,
    pub index: String,
    pub description: String,
    pub schema: StrMap<FieldSchema>,
}

/// The schema of one column.
#[derive(Debug)]
pub struct FieldSchema {
    pub field_type: String,
    pub length: Option<u32>,
    pub nullable: Option<bool>,
    pub example_value: Option<serde_yaml::Value>,
    pub pattern: Option<String>,
    pub min: Option<i64>,
    pub max: Option<i64>,
    pub precision: Option<u32>,
    pub scale: Option<u32>,
}

/// A relationship between two columns.
#[derive(Debug)]
pub struct RelationshipDefinition {
    pub from: RelationshipEndpoint,
    pub to: RelationshipEndpoint,
    pub relationship_type: String,
}

/// One end of a relationship.
#[derive(Debug)]
pub struct RelationshipEndpoint {
    pub file: String,
    pub column: String,
}

/// Constraints on the data.
#[derive(Debug)]
pub struct ConstraintsDefinition {
    pub unique: Option<Vec<ConstraintItem>>,
    pub required_fields: Option<Vec<ConstraintItem>>,
}

/// Columns of a file that a constraint applies to.
#[derive(Debug)]
pub struct ConstraintItem {
    pub file: String,
    pub columns: Vec<String>,
}

/// A custom type.
#[derive(Debug)]
pub struct TypeDefinition {
    pub base: String,
    pub length: Option<u32>,
    pub pattern: Option<String>,
    pub precision: Option<u32>,
    pub scale: Option<u32>,
    pub min: Option<i64>,
    pub max: Option<i64>,
}

/// The field definition made from the schema of column `name`.
pub open spec fn field_from_schema(f: FieldDefinition, name: Seq<char>, s: FieldSchema) -> bool {
    &&& f.name@ == name
    &&& f.field_type == s.field_type
    &&& f.required == !(match s.nullable {
        Some(b) => b,
        None => true,
    })
    &&& f.description is None
    &&& f.validation@.len() == 0
    &&& f.default == s.example_value
}

/// The fields made from a schema, one per column in the schema's order.
pub open spec fn fields_from_schema(fs: Seq<FieldDefinition>, schema: StrMap<FieldSchema>) -> bool {
    &&& fs.len() == schema.key_list().len()
    &&& forall|i: int| 0 <= i < fs.len() ==> field_from_schema(#[trigger] fs[i], schema.key_list()[i], schema.value_list()[i])
}

/// A model with the given name, description and fields, keyed and indexed
/// (index "primary") by `index`.
pub open spec fn indexed_model(
    m: DataModel,
    name: Seq<char>,
    description: Seq<char>,
    schema: StrMap<FieldSchema>,
    index: Seq<char>,
    unique: bool,
) -> bool {
    &&& m.name@ == name
    &&& m.description matches Some(d) && d@ == description
    &&& fields_from_schema(m.fields@, schema)
    &&& views(m.primary_key@) == seq![index]
    &&& m.indexes@.len() == 1
    &&& m.indexes@[0].name@ == "primary"@
    &&& views(m.indexes@[0].fields@) == seq![index]
    &&& m.indexes@[0].unique == unique
}

/// The model made from the series file.
pub open spec fn series_model(m: DataModel, s: SeriesDefinition) -> bool {
    indexed_model(m, "series"@, "Series data model"@, s.schema, s.index@, true)
}

/// The model made from a data file.
pub open spec fn file_model(m: DataModel, d: DataFileDefinition) -> bool {
    indexed_model(m, d.id@, "Data file: "@ + d.pattern@, d.schema, d.index@, false)
}

/// The model made from a lookup table.
pub open spec fn lookup_model(m: DataModel, l: LookupDefinition) -> bool {
    indexed_model(m, l.id@, l.description@, l.schema, l.index@, true)
}

/// The data files of a model layout (none when absent).
pub open spec fn files_of(y: YamlModelConfig) -> Seq<DataFileDefinition> {
    match y.data_files {
        Some(v) => v@,
        None => Seq::empty(),
    }
}

/// The lookup tables of a model layout (none when absent).
pub open spec fn lookups_of(y: YamlModelConfig) -> Seq<LookupDefinition> {
    match y.lookups {
        Some(v) => v@,
        None => Seq::empty(),
    }
}

/// The ids of data files.
pub open spec fn file_ids(fs: Seq<DataFileDefinition>) -> Seq<Seq<char>> {
    fs.map_values(|d: DataFileDefinition| d.id@)
}

/// The ids of lookup tables.
pub open spec fn lookup_ids(ls: Seq<LookupDefinition>) -> Seq<Seq<char>> {
    ls.map_values(|l: LookupDefinition| l.id@)
}

/// Position `i` holds the last occurrence of its value in `s`.
pub open spec fn last_of(s: Seq<Seq<char>>, i: int) -> bool {
    forall|j: int| i < j < s.len() ==> s[j] != s[i]
}

/// The model names of a converted model layout.
pub open spec fn model_names(y: YamlModelConfig) -> Set<Seq<char>> {
    let s = if y.series is Some {
        set!["series"@]
    } else {
        Set::empty()
    };
    s.union(file_ids(files_of(y)).to_set()).union(lookup_ids(lookups_of(y)).to_set())
}

/// A converted model layout: one model for the series file ("series"), one
/// per data file and one per lookup table, keyed by name; where names
/// coincide, lookups win over data files, data files over the series, and a
/// later definition over an earlier one.
pub open spec fn models_of(y: YamlModelConfig, m: Map<Seq<char>, DataModel>) -> bool {
    let fs = files_of(y);
    let ls = lookups_of(y);
    &&& m.dom() == model_names(y)
    &&& forall|i: int| 0 <= i < ls.len() && last_of(lookup_ids(ls), i) ==> lookup_model(
        #[trigger] m[ls[i].id@],
        ls[i],
    )
    &&& forall|i: int|
        0 <= i < fs.len() && last_of(file_ids(fs), i) && !lookup_ids(ls).contains(fs[i].id@)
            ==> file_model(#[trigger] m[fs[i].id@], fs[i])
    &&& (y.series matches Some(s) && !file_ids(fs).contains("series"@) && !lookup_ids(ls).contains(
        "series"@,
    )) ==> series_model(m["series"@], y.series->0)
}

fn fields_of(schema: &StrMap<FieldSchema>) -> (r: Vec<FieldDefinition>)
    ensures
        fields_from_schema(r@, *schema),
{
    let n = schema.len();
    let mut r: Vec<FieldDefinition> = Vec::new();
    let mut i: usize = 0;
    while i < n
        invariant
            n == schema.key_list().len(),
            n == schema.value_list().len(),
            i <= n,
            r@.len() == i,
            forall|j: int| 0 <= j < i ==> field_from_schema(#[trigger] r@[j], schema.key_list()[j], schema.value_list()[j]),
        decreases n - i,
    {
        let (name, s) = schema.entry_at(i);
        let nullable = match s.nullable {
            Some(b) => b,
            None => true,
        };
        r.push(
            FieldDefinition {
                name: name.clone(),
                field_type: s.field_type.clone(),
                required: !nullable,
                description: None,
                validation: Vec::new(),
                default: s.example_value.clone(),
            },
        );
        i = i + 1;
    }
    r
}

fn single(s: &String) -> (r: Vec<String>)
    ensures
        views(r@) == seq![s@],
{
    let mut r: Vec<String> = Vec::new();
    r.push(s.clone());
    assert(views(r@) =~= seq![s@]);
    r
}

fn indexed(name: String, description: String, schema: &StrMap<FieldSchema>, index: &String, unique: bool) -> (m: DataModel)
    ensures
        indexed_model(m, name@, description@, *schema, index@, unique),
{
    let mut indexes: Vec<IndexDefinition> = Vec::new();
    indexes.push(IndexDefinition { name: owned("primary"), fields: single(index), unique });
    DataModel {
        name,
        description: Some(description),
        fields: fields_of(schema),
        primary_key: single(index),
        indexes,
    }
}

impl YamlModelConfig {
    /// The ids of the lookup tables, in order.
    pub fn lookup_table_ids(&self) -> (r: Vec<String>)
        ensures
            views(r@) == lookup_ids(lookups_of(*self)),
    {
        let mut ids: Vec<String> = Vec::new();
        match &self.lookups {
            Some(ls) => {
                let mut i: usize = 0;
                while i < ls.len()
                    invariant
                        i <= ls@.len(),
                        views(ids@) == lookup_ids(ls@).take(i as int),
                    decreases ls@.len() - i,
                {
                    let ghost before = views(ids@);
                    let id = ls[i].id.clone();
                    ids.push(id);
                    assert(views(ids@) =~= before.push(ls@[i as int].id@));
                    assert(lookup_ids(ls@).take(i + 1) =~= lookup_ids(ls@).take(i as int).push(ls@[i as int].id@));
                    assert(views(ids@) =~= lookup_ids(ls@).take(i + 1));
                    i = i + 1;
                }
                assert(lookup_ids(ls@).take(ls@.len() as int) =~= lookup_ids(ls@));
            },
            None => {
                assert(views(ids@) =~= lookup_ids(lookups_of(*self)));
            },
        }
        ids
    }

    /// The model layer described by this layout (see `models_of`), with its version.
    pub fn to_model_config(&self) -> (c: ModelConfig)
        ensures
            c.config_version == self.config_version,
            models_of(*self, c.models@),
    {
        let mut models: StrMap<DataModel> = StrMap::new();
        let ghost base = if self.series is Some {
            set!["series"@]
        } else {
            Set::<Seq<char>>::empty()
        };
        match &self.series {
            Some(series) => {
                let m = indexed(owned("series"), owned("Series data model"), &series.schema, &series.index, true);
                models.insert(owned("series"), m);
            },
            None => {},
        }
        assert(models@.dom() =~= base);
        let ghost fs = files_of(*self);
        let ghost ls = lookups_of(*self);
        match &self.data_files {
            Some(files) => {
                let mut i: usize = 0;
                while i < files.len()
                    invariant
                        fs == files@,
                        i <= fs.len(),
                        models@.dom() == base.union(file_ids(fs).take(i as int).to_set()),
                        forall|j: int| 0 <= j < i && (forall|k: int| j < k < i ==> fs[k].id@ != fs[j].id@)
                            ==> file_model(#[trigger] models@[fs[j].id@], fs[j]),
                        (self.series matches Some(s) && !file_ids(fs).take(i as int).contains("series"@))
                            ==> series_model(models@["series"@], self.series->0),
                    decreases fs.len() - i,
                {
                    let d = &files[i];
                    let m = indexed(
                        d.id.clone(),
                        cat("Data file: ", d.pattern.as_str()),
                        &d.schema,
                        &d.index,
                        false,
                    );
                    models.insert(d.id.clone(), m);
                    proof {
                        let ids = file_ids(fs);
                        assert(ids.take(i + 1) =~= ids.take(i as int).push(fs[i as int].id@));
                        ids.take(i as int).lemma_push_to_set_commute(fs[i as int].id@);
                        assert forall|j: int| 0 <= j < i + 1 && (forall|k: int| j < k < i + 1 ==> fs[k].id@ != fs[j].id@)
                            implies file_model(#[trigger] models@[fs[j].id@], fs[j]) by {
                            if j < i {
                                assert(fs[i as int].id@ != fs[j].id@);
                            }
                        }
                        if !ids.take(i + 1).contains("series"@) {
                            assert(ids.take(i + 1)[i as int] == fs[i as int].id@);
                            assert(!ids.take(i as int).contains("series"@)) by {
                                if ids.take(i as int).contains("series"@) {
                                    let k = choose|k: int| 0 <= k < i && ids.take(i as int)[k] == "series"@;
                                    assert(ids.take(i + 1)[k] == "series"@);
                                }
                            }
                        }
                    }
                    i = i + 1;
                }
                proof {
                    assert(file_ids(fs).take(fs.len() as int) =~= file_ids(fs));
                }
            },
            None => {
                assert(file_ids(fs) =~= Seq::<Seq<char>>::empty());
                assert(models@.dom() =~= base.union(file_ids(fs).to_set()));
            },
        }
        let ghost after_files = models@;
        match &self.lookups {
            Some(lookups) => {
                let mut i: usize = 0;
                while i < lookups.len()
                    invariant
                        ls == lookups@,
                        i <= ls.len(),
                        models@.dom() == base.union(file_ids(fs).to_set()).union(lookup_ids(ls).take(i as int).to_set()),
                        forall|j: int| 0 <= j < i && (forall|k: int| j < k < i ==> ls[k].id@ != ls[j].id@)
                            ==> lookup_model(#[trigger] models@[ls[j].id@], ls[j]),
                        forall|key: Seq<char>| !lookup_ids(ls).take(i as int).contains(key) ==> #[trigger] models@[key]
                            == after_files[key],
                    decreases ls.len() - i,
                {
                    let l = &lookups[i];
                    let m = indexed(l.id.clone(), l.description.clone(), &l.schema, &l.index, true);
                    models.insert(l.id.clone(), m);
                    proof {
                        let ids = lookup_ids(ls);
                        assert(ids.take(i + 1) =~= ids.take(i as int).push(ls[i as int].id@));
                        ids.take(i as int).lemma_push_to_set_commute(ls[i as int].id@);
                        assert forall|j: int| 0 <= j < i + 1 && (forall|k: int| j < k < i + 1 ==> ls[k].id@ != ls[j].id@)
                            implies lookup_model(#[trigger] models@[ls[j].id@], ls[j]) by {
                            if j < i {
                                assert(ls[i as int].id@ != ls[j].id@);
                            }
                        }
                        assert forall|key: Seq<char>| !ids.take(i + 1).contains(key) implies #[trigger] models@[key]
                            == after_files[key] by {
                            assert(ids.take(i + 1)[i as int] == ls[i as int].id@);
                            assert(!ids.take(i as int).contains(key)) by {
                                if ids.take(i as int).contains(key) {
                                    let k = choose|k: int| 0 <= k < i && ids.take(i as int)[k] == key;
                                    assert(ids.take(i + 1)[k] == key);
                                }
                            }
                        }
                    }
                    i = i + 1;
                }
                proof {
                    assert(lookup_ids(ls).take(ls.len() as int) =~= lookup_ids(ls));
                }
            },
            None => {
                assert(lookup_ids(ls) =~= Seq::<Seq<char>>::empty());
                assert(models@.dom() =~= base.union(file_ids(fs).to_set()).union(lookup_ids(ls).to_set()));
            },
        }
        proof {
            let fids = file_ids(fs);
            let lids = lookup_ids(ls);
            assert(models@.dom() =~= model_names(*self));
            assert forall|i: int| 0 <= i < ls.len() && last_of(lids, i) implies lookup_model(
                #[trigger] models@[ls[i].id@],
                ls[i],
            ) by {
                assert forall|k: int| i < k < ls.len() implies ls[k].id@ != ls[i].id@ by {
                    assert(lids[k] == ls[k].id@);
                    assert(lids[i] == ls[i].id@);
                }
            }
            assert forall|i: int|
                0 <= i < fs.len() && last_of(fids, i) && !lids.contains(fs[i].id@) implies file_model(
                #[trigger] models@[fs[i].id@],
                fs[i],
            ) by {
                assert forall|k: int| i < k < fs.len() implies fs[k].id@ != fs[i].id@ by {
                    assert(fids[k] == fs[k].id@);
                    assert(fids[i] == fs[i].id@);
                }
            }
        }
        ModelConfig { config_version: self.config_version, models }
    }
}

/// The layout of io.yml.
#[derive(Debug)]
pub struct YamlIoConfig {
    pub config_version: u32,
    pub discovery: Option<DiscoveryConfig>,
    pub combining: Option<StrMap<serde_yaml::Value>>,
    pub partition_hints: Option<StrMap<serde_yaml::Value>>,
    pub mmap: Option<StrMap<serde_yaml::Value>>,
    pub lookup_strategy: Option<StrMap<serde_yaml::Value>>,
}

/// Where a survey's files are found.
#[derive(Debug)]
pub struct DiscoveryConfig {
    pub root: String,
    pub includes: Vec<String>,
    pub exclude: Vec<String>,
}

/// Where a file pattern of a survey is found below its root: series files at
/// the root, data files under "data/", lookup files under "map/".
pub open spec fn located_pattern(p: Seq<char>) -> Seq<char> {
    if has_sub(p, ".series"@) {
        p
    } else if has_sub(p, ".data"@) {
        "data/"@ + p
    } else if has_sub(p, ".area"@) || has_sub(p, ".item"@) || has_sub(p, ".footnote"@) || has_sub(
        p,
        ".period"@,
    ) || has_sub(p, ".contacts"@) || has_sub(p, ".seasonal"@) {
        "map/"@ + p
    } else {
        p
    }
}

fn locate_pattern(p: &str) -> (r: String)
    ensures
        r@ == located_pattern(p@),
{
    if contains_str(p, ".series") {
        owned(p)
    } else if contains_str(p, ".data") {
        cat("data/", p)
    } else if contains_str(p, ".area") || contains_str(p, ".item") || contains_str(p, ".footnote")
        || contains_str(p, ".period") || contains_str(p, ".contacts") || contains_str(p, ".seasonal") {
        cat("map/", p)
    } else {
        owned(p)
    }
}

impl YamlIoConfig {
    /// The io layer described by this layout: the discovery root and its
    /// includes patterns, located; without discovery, "data/raw/bls" with the
    /// series and data patterns. Output goes to "data/processed", by survey.
    pub fn to_io_config(&self) -> (c: IoConfig)
        ensures
            c.config_version == self.config_version,
            match self.discovery {
                Some(d) => c.input.base_dir == d.root && views(c.input.patterns@) == views(d.includes@).map_values(
                    |p: Seq<char>| located_pattern(p),
                ),
                None => c.input.base_dir@ == "data/raw/bls"@ && views(c.input.patterns@) == seq![
                    "*.series"@,
                    "*.data.*"@,
                ],
            },
            c.input.format == (FileFormatConfig {
                encoding: None,
                delimiter: None,
                quote_char: None,
                escape_char: None,
                header: None,
            }),
            c.input.validation == (InputValidationConfig {
                strict_mode: false,
                skip_malformed: false,
                max_errors: None,
            }),
            c.output.base_dir@ == "data/processed"@,
            views(c.output.structure@) == seq!["survey"@],
            c.output.naming == (NamingConfig { pattern: None, timestamp_format: None, include_survey_code: false }),
    {
        let (base_dir, patterns) = match &self.discovery {
            Some(d) => {
                let mut mapped: Vec<String> = Vec::new();
                let mut i: usize = 0;
                while i < d.includes.len()
                    invariant
                        i <= d.includes@.len(),
                        views(mapped@) == views(d.includes@).take(i as int).map_values(
                            |p: Seq<char>| located_pattern(p),
                        ),
                    decreases d.includes@.len() - i,
                {
                    let ghost before = mapped@;
                    mapped.push(locate_pattern(d.includes[i].as_str()));
                    proof {
                        assert(views(d.includes@).take(i + 1) =~= views(d.includes@).take(i as int).push(
                            d.includes@[i as int]@,
                        ));
                        assert(views(mapped@) =~= views(before).push(located_pattern(d.includes@[i as int]@)));
                    }
                    i = i + 1;
                }
                proof {
                    assert(views(d.includes@).take(d.includes@.len() as int) =~= views(d.includes@));
                }
                (d.root.clone(), mapped)
            },
            None => {
                let mut v: Vec<String> = Vec::new();
                v.push(owned("*.series"));
                v.push(owned("*.data.*"));
                assert(views(v@) =~= seq!["*.series"@, "*.data.*"@]);
                (owned("data/raw/bls"), v)
            },
        };
        let mut structure: Vec<String> = Vec::new();
        structure.push(owned("survey"));
        assert(views(structure@) =~= seq!["survey"@]);
        IoConfig {
            config_version: self.config_version,
            input: InputConfig {
                base_dir,
                patterns,
                format: FileFormatConfig::default(),
                validation: InputValidationConfig::default(),
            },
            output: IoOutputConfig { base_dir: owned("data/processed"), structure, naming: NamingConfig::default() },
        }
    }
}

/// The layout of processing.yml.
#[derive(Debug)]
pub struct YamlProcessingConfig {
    pub config_version: Option<u32>,
    pub strategy: Option<YamlProcessingStrategy>,
    pub resources: Option<YamlProcessingResources>,
    pub io: Option<YamlProcessingIo>,
    pub features: Option<YamlProcessingFeatures>,
}

/// Strategy settings in processing.yml.
#[derive(Debug)]
pub struct YamlProcessingStrategy {
    pub mode: Option<String>,
    pub max_concurrency: Option<u32>,
}

/// Resource settings in processing.yml.
#[derive(Debug, Clone, Copy)]
pub struct YamlProcessingResources {
    pub max_threads: Option<u32>,
    pub memory_limit_gb: Option<u64>,
}

/// IO settings in processing.yml.
#[derive(Debug, Clone, Copy)]
pub struct YamlProcessingIo {
    pub chunk_size_mb: Option<usize>,
    pub buffer_pool_size: Option<usize>,
}

/// Feature switches in processing.yml.
#[derive(Debug, Clone, Copy)]
pub struct YamlProcessingFeatures {
    pub use_mmap: Option<bool>,
    pub enable_statistics: Option<bool>,
    pub enable_profiling: Option<bool>,
}

/// The strategy a mode names, if it names one.
pub open spec fn strategy_named(mode: Seq<char>) -> Option<ProcessingStrategy> {
    if mode == "in_memory"@ {
        Some(ProcessingStrategy::InMemory)
    } else if mode == "chunked"@ {
        Some(ProcessingStrategy::Chunked)
    } else if mode == "mmap"@ {
        Some(ProcessingStrategy::Mmap)
    } else {
        None
    }
}

/// The thread count after processing.yml is applied to the default `cpus`.
pub open spec fn threads_after(y: YamlProcessingConfig, cpus: u32) -> u32 {
    let from_strategy = match y.strategy {
        Some(s) => match s.max_concurrency {
            Some(c) => if c > 0 {
                c
            } else {
                cpus
            },
            None => cpus,
        },
        None => cpus,
    };
    match y.resources {
        Some(r) => match r.max_threads {
            Some(t) => t,
            None => from_strategy,
        },
        None => from_strategy,
    }
}

/// The processing layer after processing.yml is applied to the defaults
/// with `cpus` threads.
pub open spec fn processing_from(y: YamlProcessingConfig, cpus: u32, c: ProcessingConfig) -> bool {
    &&& c.config_version == (match y.config_version {
        Some(v) => v,
        None => 1,
    })
    &&& c.strategy == (match y.strategy {
        Some(s) => match s.mode {
            Some(m) => match strategy_named(m@) {
                Some(st) => st,
                None => ProcessingStrategy::InMemory,
            },
            None => ProcessingStrategy::InMemory,
        },
        None => ProcessingStrategy::InMemory,
    })
    &&& c.parallel == (match y.strategy {
        Some(s) => match s.max_concurrency {
            Some(m) => m > 1,
            None => true,
        },
        None => true,
    })
    &&& c.max_threads == threads_after(y, cpus)
    &&& c.mmap.enabled == (match y.features {
        Some(f) => match f.use_mmap {
            Some(b) => b,
            None => false,
        },
        None => false,
    })
    &&& c.mmap.threshold is None
    &&& c.mmap.prefetch is None
    &&& c.chunk_size == 10000
    &&& c.memory_limit == 1024
    &&& c.chunking.size == 10000
    &&& c.chunking.strategy is None
    &&& c.chunking.overlap is None
    &&& c.cache == (crate::config::model::CacheConfig { enabled: false, size: None, ttl: None })
}

impl YamlProcessingConfig {
    /// The processing layer this layout describes, starting from the defaults
    /// with `cpus` threads: a known strategy mode replaces the strategy; a
    /// concurrency limit sets `parallel` (above one) and, when positive, the
    /// thread count; an explicit thread count wins; `use_mmap` switches
    /// memory mapping.
    pub fn to_processing_config_with(&self, cpus: u32) -> (c: ProcessingConfig)
        ensures
            processing_from(*self, cpus, c),
    {
        let mut cfg = ProcessingConfig::with_max_threads(cpus);
        match self.config_version {
            Some(v) => {
                cfg.config_version = v;
            },
            None => {},
        }
        match &self.strategy {
            Some(strategy) => {
                match &strategy.mode {
                    Some(mode) => {
                        if str_eq(mode.as_str(), "in_memory") {
                            cfg.strategy = ProcessingStrategy::InMemory;
                        } else if str_eq(mode.as_str(), "chunked") {
                            cfg.strategy = ProcessingStrategy::Chunked;
                        } else if str_eq(mode.as_str(), "mmap") {
                            cfg.strategy = ProcessingStrategy::Mmap;
                        }
                    },
                    None => {},
                }
                match strategy.max_concurrency {
                    Some(maxc) => {
                        cfg.parallel = maxc > 1;
                        if cfg.max_threads == cpus && maxc > 0 {
                            cfg.max_threads = maxc;
                        }
                    },
                    None => {},
                }
            },
            None => {},
        }
        match &self.resources {
            Some(resources) => {
                match resources.max_threads {
                    Some(t) => {
                        cfg.max_threads = t;
                    },
                    None => {},
                }
            },
            None => {},
        }
        match &self.features {
            Some(features) => {
                match features.use_mmap {
                    Some(use_mmap) => {
                        cfg.mmap.enabled = use_mmap;
                    },
                    None => {},
                }
            },
            None => {},
        }
        cfg
    }

    /// The processing layer this layout describes, starting from the
    /// defaults with one thread per logical CPU (see `to_processing_config_with`).
    pub fn to_processing_config(&self) -> (c: ProcessingConfig)
        ensures
            exists|cpus: u32| processing_from(*self, cpus, c),
    {
        let cpus = default_max_threads();
        self.to_processing_config_with(cpus)
    }
}

/// The layout of dags.yml.
#[derive(Debug)]
pub struct YamlDagsConfig {
    pub config_version: Option<u32>,
    pub graph: YamlDagGraph,
    pub settings: Option<YamlDagSettings>,
}

/// The task graph of dags.yml.
#[derive(Debug)]
pub struct YamlDagGraph {
    pub tasks: Vec<YamlDagTask>,
    pub edges: Option<Vec<YamlDagEdge>>,
}

/// A task of dags.yml.
#[derive(Debug)]
pub struct YamlDagTask {
    pub id: String,
    pub kind: String,
    pub description: Option<String>,
    pub inputs: Option<Vec<String>>,
    pub retries: Option<YamlDagRetries>,
    pub sla_minutes: Option<u64>,
    pub parallelism: Option<u32>,
}

/// Retry settings of a task of dags.yml.
#[derive(Debug, Clone, Copy)]
pub struct YamlDagRetries {
    pub max: Option<u32>,
    pub backoff_sec: Option<u64>,
}

/// An edge of the task graph: `to` depends on `from`.
#[derive(Debug)]
pub struct YamlDagEdge {
    pub from: String,
    pub to: String,
}

/// Global settings of dags.yml.
#[derive(Debug, Clone, Copy)]
pub struct YamlDagSettings {
    pub retries: Option<u32>,
    pub retry_delay_minutes: Option<u64>,
}

/// The inputs of a task (none when absent).
pub open spec fn inputs_of(t: YamlDagTask) -> Seq<Seq<char>> {
    match t.inputs {
        Some(v) => views(v@),
        None => Seq::empty(),
    }
}

/// The task definition made from a task of dags.yml, with its dependencies.
pub open spec fn task_from(d: TaskDefinition, t: YamlDagTask, deps: Seq<Seq<char>>) -> bool {
    &&& d.name == t.id
    &&& d.task_type == t.kind
    &&& views(d.depends_on@) == deps
    &&& d.retry.max_attempts == (match t.retries {
        Some(r) => match r.max {
            Some(m) => m,
            None => 0,
        },
        None => 0,
    })
    &&& d.retry.backoff == BackoffStrategy::Fixed
    &&& d.retry.delay == (match t.retries {
        Some(r) => match r.backoff_sec {
            Some(b) => b,
            None => 0,
        },
        None => 0,
    })
    &&& d.retry.initial_delay is None
    &&& d.sla == (match t.sla_minutes {
        Some(m) => Some(SlaConfig { max_duration: m, alert_on_failure: true }),
        None => None,
    })
    &&& d.parameters@ == Map::<Seq<char>, serde_yaml::Value>::empty()
    &&& d.description == t.description
    &&& d.stage == t.kind
    &&& d.timeout is None
}

/// The dependencies of `deps` after the edges `es`, in order, each adding
/// its source to the dependencies of its target when not already there.
pub open spec fn deps_after_edges(id: Seq<char>, deps: Seq<Seq<char>>, es: Seq<YamlDagEdge>) -> Seq<Seq<char>>
    decreases es.len(),
{
    if es.len() == 0 {
        deps
    } else {
        let before = deps_after_edges(id, deps, es.drop_last());
        let e = es.last();
        if e.to@ == id && !before.contains(e.from@) {
            before.push(e.from@)
        } else {
            before
        }
    }
}

/// The edges of the task graph (none when absent).
pub open spec fn edges_of(y: YamlDagsConfig) -> Seq<YamlDagEdge> {
    match y.graph.edges {
        Some(v) => v@,
        None => Seq::empty(),
    }
}

/// The ids of the tasks.
pub open spec fn task_ids(ts: Seq<YamlDagTask>) -> Seq<Seq<char>> {
    ts.map_values(|t: YamlDagTask| t.id@)
}

/// The tasks of the converted DAG: one per task id, made from the last task
/// with that id, its inputs followed by the sources of the edges into it.
pub open spec fn tasks_of(y: YamlDagsConfig, m: Map<Seq<char>, TaskDefinition>) -> bool {
    let ts = y.graph.tasks@;
    &&& m.dom() == task_ids(ts).to_set()
    &&& forall|i: int| 0 <= i < ts.len() && last_of(task_ids(ts), i) ==> task_from(
        #[trigger] m[ts[i].id@],
        ts[i],
        deps_after_edges(ts[i].id@, inputs_of(ts[i]), edges_of(y)),
    )
}

fn task_of(t: &YamlDagTask) -> (d: TaskDefinition)
    ensures
        task_from(d, *t, inputs_of(*t)),
{
    let mut retry = RetryConfig { max_attempts: 0, backoff: BackoffStrategy::Fixed, delay: 0, initial_delay: None };
    match t.retries {
        Some(r) => {
            match r.max {
                Some(m) => {
                    retry.max_attempts = m;
                },
                None => {},
            }
            match r.backoff_sec {
                Some(d) => {
                    retry.delay = d;
                },
                None => {},
            }
        },
        None => {},
    }
    let sla = match t.sla_minutes {
        Some(m) => Some(SlaConfig { max_duration: m, alert_on_failure: true }),
        None => None,
    };
    let depends_on = match &t.inputs {
        Some(v) => crate::config::model::copy_strings(v),
        None => Vec::new(),
    };
    assert(views(depends_on@) =~= inputs_of(*t));
    TaskDefinition {
        name: t.id.clone(),
        task_type: t.kind.clone(),
        depends_on,
        retry,
        sla,
        parameters: StrMap::new(),
        description: t.description.clone(),
        stage: t.kind.clone(),
        timeout: None,
    }
}

impl YamlDagsConfig {
    /// The DAG layer this layout describes: one DAG, "pipeline", whose tasks
    /// are those of the graph (see `tasks_of`), with default task settings;
    /// the version defaults to 1.
    pub fn to_dags_config(&self) -> (c: DagsConfig)
        ensures
            c.config_version == (match self.config_version {
                Some(v) => v,
                None => 1,
            }),
            c.dags@.dom() == set!["pipeline"@],
            c.dags@["pipeline"@].name@ == "pipeline"@,
            c.dags@["pipeline"@].description is None,
            c.dags@["pipeline"@].defaults.retry is None,
            c.dags@["pipeline"@].defaults.sla is None,
            c.dags@["pipeline"@].defaults.timeout is None,
            tasks_of(*self, c.dags@["pipeline"@].tasks@),
    {
        let ghost ts = self.graph.tasks@;
        let ghost es = edges_of(*self);
        let mut tasks: StrMap<TaskDefinition> = StrMap::new();
        let mut i: usize = 0;
        while i < self.graph.tasks.len()
            invariant
                ts == self.graph.tasks@,
                i <= ts.len(),
                tasks@.dom() == task_ids(ts).take(i as int).to_set(),
                forall|j: int| 0 <= j < i && (forall|k: int| j < k < i ==> ts[k].id@ != ts[j].id@) ==> task_from(
                    #[trigger] tasks@[ts[j].id@],
                    ts[j],
                    inputs_of(ts[j]),
                ),
            decreases ts.len() - i,
        {
            let t = &self.graph.tasks[i];
            let d = task_of(t);
            tasks.insert(t.id.clone(), d);
            proof {
                let ids = task_ids(ts);
                assert(ids.take(i + 1) =~= ids.take(i as int).push(ts[i as int].id@));
                ids.take(i as int).lemma_push_to_set_commute(ts[i as int].id@);
                assert forall|j: int| 0 <= j < i + 1 && (forall|k: int| j < k < i + 1 ==> ts[k].id@ != ts[j].id@)
                    implies task_from(#[trigger] tasks@[ts[j].id@], ts[j], inputs_of(ts[j])) by {
                    if j < i {
                        assert(ts[i as int].id@ != ts[j].id@);
                    }
                }
            }
            i = i + 1;
        }
        proof {
            assert(task_ids(ts).take(ts.len() as int) =~= task_ids(ts));
        }
        let ghost built = tasks@;
        match &self.graph.edges {
            Some(edges) => {
                let mut k: usize = 0;
                while k < edges.len()
                    invariant
                        es == edges@,
                        k <= es.len(),
                        tasks@.dom() == built.dom(),
                        forall|key: Seq<char>| #[trigger] tasks@.contains_key(key) ==> {
                            let d = tasks@[key];
                            let b = built[key];
                            &&& d.name == b.name
                            &&& d.task_type == b.task_type
                            &&& d.retry == b.retry
                            &&& d.sla == b.sla
                            &&& d.parameters@ == b.parameters@
                            &&& d.description == b.description
                            &&& d.stage == b.stage
                            &&& d.timeout == b.timeout
                            &&& views(d.depends_on@) == deps_after_edges(key, views(b.depends_on@), es.take(k as int))
                        },
                    decreases es.len() - k,
                {
                    let e = &edges[k];
                    proof {
                        assert(es.take(k + 1).drop_last() =~= es.take(k as int));
                        assert(es.take(k + 1).last() == es[k as int]);
                    }
                    if tasks.contains_key(e.to.as_str()) {
                        let present = match tasks.get(e.to.as_str()) {
                            Some(t) => contains_string(&t.depends_on, e.from.as_str()),
                            None => true,
                        };
                        if !present {
                            let removed = tasks.remove(e.to.as_str());
                            match removed {
                                Some(mut t) => {
                                    let ghost before = t.depends_on@;
                                    t.depends_on.push(e.from.clone());
                                    assert(views(t.depends_on@) =~= views(before).push(e.from@));
                                    tasks.insert(e.to.clone(), t);
                                },
                                None => {},
                            }
                            assert(tasks@.dom() =~= built.dom());
                        }
                    }
                    k = k + 1;
                }
                proof {
                    assert(es.take(es.len() as int) =~= es);
                }
            },
            None => {
                assert(es =~= Seq::<YamlDagEdge>::empty());
            },
        }
        proof {
            assert forall|i: int| 0 <= i < ts.len() && last_of(task_ids(ts), i) implies task_from(
                #[trigger] tasks@[ts[i].id@],
                ts[i],
                deps_after_edges(ts[i].id@, inputs_of(ts[i]), es),
            ) by {
                assert forall|k: int| i < k < ts.len() implies ts[k].id@ != ts[i].id@ by {
                    assert(task_ids(ts)[k] == ts[k].id@);
                    assert(task_ids(ts)[i] == ts[i].id@);
                }
                assert(task_ids(ts).take(ts.len() as int)[i] == ts[i].id@);
                assert(tasks@.contains_key(ts[i].id@));
            }
        }
        let dag_def = DagDefinition { name: owned("pipeline"), description: None, tasks, defaults: TaskDefaults::default() };
        let mut dags: StrMap<DagDefinition> = StrMap::new();
        let ghost dd = dag_def;
        dags.insert(owned("pipeline"), dag_def);
        assert(dags@.dom() =~= set!["pipeline"@]);
        assert(dags@["pipeline"@] == dd);
        let version = match self.config_version {
            Some(v) => v,
            None => 1,
        };
        DagsConfig { config_version: version, dags }
    }
}

} // verus!
