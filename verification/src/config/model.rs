//! Configuration data models: the layers of a survey configuration
//! (overview, model, io, processing, output, quality, runtime, dags), the
//! simplified `Config`, and their defaults.

use vstd::prelude::*;
use crate::strmap::StrMap;
use crate::clock::now_nanos;
use crate::text::{cat, owned, str_eq, to_upper, upper_of, views};
use vstd::string::*;

verus! {

/// A YAML value carried through the configuration unread.
#[verifier::external_type_specification]
#[verifier::external_body]
pub struct ExYamlValue(serde_yaml::Value);

/// `Clone` of `serde_yaml::Value`, which is derived there: the copy is the
/// same tree.
pub assume_specification[ <serde_yaml::Value as Clone>::clone ](v: &serde_yaml::Value) -> (r: serde_yaml::Value)
    ensures
        r == *v,
;

/// `num_cpus::get()`: the number of logical CPUs available to this process.
/// It depends on the machine; its documentation promises at least 1.
#[verifier::external_body]
fn cpu_count() -> (n: usize)
    ensures
        n >= 1,
{
    num_cpus::get()
}

/// Overview layer (overview.yml).
#[derive(Debug)]
pub struct OverviewConfig {
    pub config_version: u32,
    pub survey: SurveyInfo,
}

/// Survey information in the overview layer.
#[derive(Debug)]
pub struct SurveyInfo {
    pub code: String,
    pub name: String,
    pub description: String,
    pub size_class: String,
    pub characteristics: SurveyCharacteristics,
    pub contacts: Vec<ContactInfo>,
    pub documentation: DocumentationInfo,
    pub tags: Vec<String>,
}

/// Survey characteristics.
#[derive(Debug)]
pub struct SurveyCharacteristics {
    pub frequency: Option<String>,
    pub coverage: Option<String>,
    pub classification_system: Option<String>,
    pub begin_year: Option<u32>,
    pub update_schedule: Option<String>,
    pub survey_methodology: Option<String>,
    pub calculation_basis: Option<String>,
    pub time_series_count: Option<String>,
}

/// A contact.
#[derive(Debug)]
pub struct ContactInfo {
    pub role: String,
    pub name: String,
    pub email: String,
}

/// Documentation references.
#[derive(Debug)]
pub struct DocumentationInfo {
    pub primary: Option<String>,
    pub data_dictionary: Option<String>,
}

/// Model layer (model.yml): data models by name.
#[derive(Debug)]
pub struct ModelConfig {
    pub config_version: u32,
    pub models: StrMap<DataModel>,
}

/// A data model.
#[derive(Debug)]
pub struct DataModel {
    pub name: String,
    pub description: Option<String>,
    pub fields: Vec<FieldDefinition>,
    pub primary_key: Vec<String>,
    pub indexes: Vec<IndexDefinition>,
}

/// An index of a data model.
#[derive(Debug)]
pub struct IndexDefinition {
    pub name: String,
    pub fields: Vec<String>,
    pub unique: bool,
}

/// A field of a data model.
#[derive(Debug)]
pub struct FieldDefinition {
    pub name: String,
    pub field_type: String,
    pub required: bool,
    pub description: Option<String>,
    pub validation: Vec<ValidationRule>,
    pub default: Option<serde_yaml::Value>,
}

/// A number from a configuration file, by an integer that orders numbers as
/// their values do, and the text it is shown with.
#[derive(Debug)]
pub struct OrderedNumber {
    pub order_key: i64,
    pub text: String,
}

/// A validation rule for a field.
#[derive(Debug)]
pub enum ValidationRule {
    Length { min: Option<usize>, max: Option<usize> },
    Range { min: Option<OrderedNumber>, max: Option<OrderedNumber> },
    Pattern { pattern: String },
    Enum { values: Vec<String> },
    Custom { function: String },
}

/// IO layer (io.yml).
#[derive(Debug)]
pub struct IoConfig {
    pub config_version: u32,
    pub input: InputConfig,
    pub output: IoOutputConfig,
}

/// Where input files are found.
#[derive(Debug)]
pub struct InputConfig {
    pub base_dir: String,
    pub patterns: Vec<String>,
    pub format: FileFormatConfig,
    pub validation: InputValidationConfig,
}

/// Input file format.
#[derive(Debug)]
pub struct FileFormatConfig {
    pub encoding: Option<String>,
    pub delimiter: Option<String>,
    pub quote_char: Option<String>,
    pub escape_char: Option<String>,
    pub header: Option<bool>,
}

/// Input validation settings.
#[derive(Debug, Clone, Copy, PartialEq, Eq, Structural)]
pub struct InputValidationConfig {
    pub strict_mode: bool,
    pub skip_malformed: bool,
    pub max_errors: Option<usize>,
}

/// Where output files go.
#[derive(Debug)]
pub struct IoOutputConfig {
    pub base_dir: String,
    pub structure: Vec<String>,
    pub naming: NamingConfig,
}

/// Output file naming.
#[derive(Debug)]
pub struct NamingConfig {
    pub pattern: Option<String>,
    pub timestamp_format: Option<String>,
    pub include_survey_code: bool,
}

/// Processing layer (processing.yml).
#[derive(Debug)]
pub struct ProcessingConfig {
    pub config_version: u32,
    pub max_threads: u32,
    pub chunk_size: usize,
    pub memory_limit: usize,
    pub parallel: bool,
    pub strategy: ProcessingStrategy,
    pub chunking: ChunkingConfig,
    pub mmap: MmapConfig,
    pub cache: CacheConfig,
}

/// Chunking settings.
#[derive(Debug)]
pub struct ChunkingConfig {
    pub size: usize,
    pub strategy: Option<String>,
    pub overlap: Option<usize>,
}

/// Memory-mapping settings.
#[derive(Debug, Clone, Copy, PartialEq, Eq, Structural)]
pub struct MmapConfig {
    pub enabled: bool,
    pub threshold: Option<usize>,
    pub prefetch: Option<bool>,
}

/// Cache settings.
#[derive(Debug, Clone, Copy, PartialEq, Eq, Structural)]
pub struct CacheConfig {
    pub enabled: bool,
    pub size: Option<usize>,
    pub ttl: Option<u64>,
}

/// Output layer (output.yml).
#[derive(Debug)]
pub struct OutputConfig {
    pub config_version: u32,
    pub formats: Vec<OutputFormat>,
    pub compression: Option<CompressionAlgorithm>,
    pub partitioning: PartitioningConfig,
    pub files: OutputFileConfig,
    pub buffer: BufferConfig,
    pub output_dir: String,
    pub filename_pattern: String,
    pub create_subdirs: bool,
}

/// Compression algorithms.
#[derive(Debug, Clone, Copy, PartialEq, Eq, Structural)]
pub enum CompressionAlgorithm {
    Gzip,
    Snappy,
    Lz4,
    Zstd,
}

/// Partitioning settings.
#[derive(Debug)]
pub struct PartitioningConfig {
    pub strategy: Option<PartitioningStrategy>,
    pub columns: Vec<String>,
    pub max_partitions: Option<usize>,
}

/// Partitioning strategies.
#[derive(Debug, Clone, Copy, PartialEq, Eq, Structural)]
pub enum PartitioningStrategy {
    Hash,
    Range,
    List,
    Time,
}

/// Output file settings.
#[derive(Debug)]
pub struct OutputFileConfig {
    pub create_directories: bool,
    pub overwrite: bool,
    pub permissions: Option<String>,
    pub max_file_size: Option<usize>,
}

/// Output buffer settings.
#[derive(Debug, Clone, Copy, PartialEq, Eq, Structural)]
pub struct BufferConfig {
    pub size: Option<usize>,
    pub flush_interval: Option<u64>,
}

/// DAGs layer (dags.yml): DAG definitions by name.
#[derive(Debug)]
pub struct DagsConfig {
    pub config_version: u32,
    pub dags: StrMap<DagDefinition>,
}

/// A DAG definition: tasks by name.
#[derive(Debug)]
pub struct DagDefinition {
    pub name: String,
    pub description: Option<String>,
    pub tasks: StrMap<TaskDefinition>,
    pub defaults: TaskDefaults,
}

/// A task of a DAG.
#[derive(Debug)]
pub struct TaskDefinition {
    pub name: String,
    pub task_type: String,
    pub depends_on: Vec<String>,
    pub retry: RetryConfig,
    pub sla: Option<SlaConfig>,
    pub parameters: StrMap<serde_yaml::Value>,
    pub description: Option<String>,
    pub stage: String,
    pub timeout: Option<core::time::Duration>,
}

/// Defaults for the tasks of a DAG.
#[derive(Debug)]
pub struct TaskDefaults {
    pub retry: Option<RetryConfig>,
    pub sla: Option<SlaConfig>,
    pub timeout: Option<u64>,
}

/// Retry settings of a task.
#[derive(Debug, Clone, Copy)]
pub struct RetryConfig {
    pub max_attempts: u32,
    pub backoff: BackoffStrategy,
    pub delay: u64,
    pub initial_delay: Option<core::time::Duration>,
}

/// Backoff strategies.
#[derive(Debug, Clone, Copy, PartialEq, Eq, Structural)]
pub enum BackoffStrategy {
    Fixed,
    Exponential,
    Linear,
}

/// Service-level settings of a task.
#[derive(Debug, Clone, Copy, PartialEq, Eq, Structural)]
pub struct SlaConfig {
    pub max_duration: u64,
    pub alert_on_failure: bool,
}

/// Quality layer (quality.yml).
#[derive(Debug)]
pub struct QualityConfig {
    pub config_version: u32,
    pub checks: Vec<QualityCheck>,
    pub validation: QualityValidation,
}

/// A quality check.
#[derive(Debug)]
pub struct QualityCheck {
    pub name: String,
    pub check_type: QualityCheckType,
    pub parameters: StrMap<serde_yaml::Value>,
    pub severity: QualitySeverity,
}

/// Quality check types.
#[derive(Debug, Clone, Copy, PartialEq, Eq, Structural)]
pub enum QualityCheckType {
    Completeness,
    Uniqueness,
    Validity,
    Consistency,
    Accuracy,
}

/// Quality severities.
#[derive(Debug, Clone, Copy, PartialEq, Eq, Structural)]
pub enum QualitySeverity {
    Error,
    Warning,
    Info,
}

/// Quality validation settings.
#[derive(Debug, Clone, Copy, PartialEq, Eq, Structural)]
pub struct QualityValidation {
    pub strict_mode: bool,
    pub fail_on_error: bool,
    pub max_errors: Option<usize>,
}

/// Runtime layer (runtime.yml).
#[derive(Debug)]
pub struct RuntimeConfig {
    pub config_version: u32,
    pub features: FeatureFlags,
    pub logging: LoggingConfig,
    pub monitoring: MonitoringConfig,
    pub environment: EnvironmentConfig,
}

/// Feature flags.
#[derive(Debug, Clone, Copy, PartialEq, Eq, Structural)]
pub struct FeatureFlags {
    pub async_processing: bool,
    pub parallel_io: bool,
    pub memory_optimization: bool,
    pub experimental_features: bool,
}

/// Logging settings.
#[derive(Debug)]
pub struct LoggingConfig {
    pub level: LogLevel,
    pub format: Option<String>,
    pub output: Option<String>,
    pub structured: bool,
}

/// Log levels.
#[derive(Debug, Clone, Copy, PartialEq, Eq, Structural)]
pub enum LogLevel {
    Trace,
    Debug,
    Info,
    Warn,
    Error,
}

/// Monitoring settings.
#[derive(Debug)]
pub struct MonitoringConfig {
    pub enabled: bool,
    pub metrics_endpoint: Option<String>,
    pub health_check_interval: Option<u64>,
}

/// Environment settings.
#[derive(Debug)]
pub struct EnvironmentConfig {
    pub name: Option<String>,
    pub debug: bool,
    pub profile: Option<String>,
}

/// Processing strategies.
#[derive(Debug, Clone, Copy, PartialEq, Eq, Structural)]
pub enum ProcessingStrategy {
    InMemory,
    Chunked,
    Mmap,
}

/// Output formats.
#[derive(Debug, Clone, Copy, PartialEq, Eq, Structural)]
pub enum OutputFormat {
    Csv,
    Parquet,
    Json,
}

/// Error handling settings.
#[derive(Debug)]
pub struct ErrorHandlingConfig {
    pub on_error: String,
    pub max_errors: usize,
    pub log_errors: bool,
    pub error_log_path: Option<String>,
    pub create_reports: bool,
}

/// The simplified configuration.
#[derive(Debug)]
pub struct Config {
    pub survey: ConfigSurvey,
    pub processing: ProcessingStruct,
    pub output: OutputStruct,
    pub error_handling: ErrorHandlingConfig,
}

/// Survey part of the simplified configuration.
#[derive(Debug)]
pub struct ConfigSurvey {
    pub code: String,
    pub name: String,
}

/// Processing part of the simplified configuration.
#[derive(Debug)]
pub struct ProcessingStruct {
    pub code: String,
    pub max_threads: u32,
    pub strategy: ProcessingStrategy,
    pub chunk_size: usize,
}

/// Output part of the simplified configuration.
#[derive(Debug)]
pub struct OutputStruct {
    pub output_dir: String,
}

/// Override layers, in increasing precedence.
#[derive(Debug)]
pub struct Overrides {
    pub defaults: Option<OverrideConfig>,
    pub env: Option<OverrideConfig>,
    pub local: Option<OverrideConfig>,
}

/// One override layer: partial YAML trees laid over sections.
#[derive(Debug)]
pub struct OverrideConfig {
    pub config_version: Option<u32>,
    pub processing: Option<serde_yaml::Value>,
    pub output: Option<serde_yaml::Value>,
    pub runtime: Option<serde_yaml::Value>,
    pub quality: Option<serde_yaml::Value>,
    pub io: Option<serde_yaml::Value>,
    pub dags: Option<serde_yaml::Value>,
}

/// A survey's configuration with all its layers merged.
#[derive(Debug)]
pub struct SurveyConfig {
    pub survey_code: String,
    pub environment: String,
    pub version: u64,
    /// Creation time, nanoseconds since the Unix epoch.
    pub created_at: i64,
    /// Time of the last change, nanoseconds since the Unix epoch.
    pub updated_at: i64,
    pub code: String,
    pub name: String,
    pub overview: OverviewConfig,
    pub model: ModelConfig,
    pub io: IoConfig,
    pub processing: ProcessingConfig,
    pub output: OutputConfig,
    pub quality: QualityConfig,
    pub runtime: RuntimeConfig,
    pub dags: Option<DagsConfig>,
    pub applied_overrides: Vec<String>,
}

// ---------------------------------------------------------------------------
// Names of enum values.

impl ProcessingStrategy {
    /// The strategy's name in configuration files.
    pub open spec fn name(self) -> Seq<char> {
        match self {
            ProcessingStrategy::InMemory => "in_memory"@,
            ProcessingStrategy::Chunked => "chunked"@,
            ProcessingStrategy::Mmap => "mmap"@,
        }
    }

    /// The strategy's name in configuration files.
    pub fn to_string(&self) -> (r: String)
        ensures
            r@ == self.name(),
    {
        match self {
            ProcessingStrategy::InMemory => owned("in_memory"),
            ProcessingStrategy::Chunked => owned("chunked"),
            ProcessingStrategy::Mmap => owned("mmap"),
        }
    }
}

impl OutputFormat {
    /// The format's name in configuration files.
    pub open spec fn name(self) -> Seq<char> {
        match self {
            OutputFormat::Csv => "csv"@,
            OutputFormat::Parquet => "parquet"@,
            OutputFormat::Json => "json"@,
        }
    }

    /// The format's name in configuration files.
    pub fn to_string(&self) -> (r: String)
        ensures
            r@ == self.name(),
    {
        match self {
            OutputFormat::Csv => owned("csv"),
            OutputFormat::Parquet => owned("parquet"),
            OutputFormat::Json => owned("json"),
        }
    }
}

// ---------------------------------------------------------------------------
// Defaults.

/// Default size class of a survey.
pub fn default_size_class() -> (r: String)
    ensures
        r@ == "medium"@,
{
    owned("medium")
}

/// The thread count for `cpus` logical CPUs: the count cast to `u32`.
pub open spec fn threads_for(cpus: usize) -> u32 {
    cpus as u32
}

/// Default number of threads: the number of logical CPUs (at least one,
/// and known only to the machine), cast to `u32`.
pub fn default_max_threads() -> (r: u32)
    ensures
        exists|cpus: usize| cpus >= 1 && #[trigger] threads_for(cpus) == r,
{
    let cpus = cpu_count();
    let r: u32 = #[verifier::truncate] (cpus as u32);
    proof {
        assert(cpus >= 1 && threads_for(cpus) == r);
    }
    r
}

/// Default chunk size.
pub fn default_chunk_size() -> (r: usize)
    ensures
        r == 10000,
{
    10000
}

/// Default memory limit.
pub fn default_memory_limit() -> (r: usize)
    ensures
        r == 1024,
{
    1024
}

/// Default parallel flag.
pub fn default_parallel() -> (r: bool)
    ensures
        r,
{
    true
}

/// Default output directory.
pub fn default_output_dir() -> (r: String)
    ensures
        r@ == "data/processed"@,
{
    owned("data/processed")
}

/// Default flag for creating subdirectories.
pub fn default_create_subdirs() -> (r: bool)
    ensures
        r,
{
    true
}

/// Default output file name pattern.
pub fn default_filename_pattern() -> (r: String)
    ensures
        r@ == "{survey}_{table}_{timestamp}"@,
{
    owned("{survey}_{table}_{timestamp}")
}

/// Default action on errors.
pub fn default_on_error() -> (r: String)
    ensures
        r@ == "continue"@,
{
    owned("continue")
}

/// Default maximum number of errors.
pub fn default_max_errors() -> (r: usize)
    ensures
        r == 1000,
{
    1000
}

/// Default flag for logging errors.
pub fn default_log_errors() -> (r: bool)
    ensures
        r,
{
    true
}

/// Default flag for creating error reports.
pub fn default_create_reports() -> (r: bool)
    ensures
        r,
{
    true
}

/// `SurveyCharacteristics` with nothing set.
pub open spec fn empty_characteristics(c: SurveyCharacteristics) -> bool {
    &&& c.frequency is None
    &&& c.coverage is None
    &&& c.classification_system is None
    &&& c.begin_year is None
    &&& c.update_schedule is None
    &&& c.survey_methodology is None
    &&& c.calculation_basis is None
    &&& c.time_series_count is None
}

impl Default for SurveyCharacteristics {
    fn default() -> (r: Self)
        ensures
            empty_characteristics(r),
    {
        SurveyCharacteristics {
            frequency: None,
            coverage: None,
            classification_system: None,
            begin_year: None,
            update_schedule: None,
            survey_methodology: None,
            calculation_basis: None,
            time_series_count: None,
        }
    }
}

impl Default for DocumentationInfo {
    fn default() -> (r: Self)
        ensures
            r.primary is None,
            r.data_dictionary is None,
    {
        DocumentationInfo { primary: None, data_dictionary: None }
    }
}

impl Default for FileFormatConfig {
    fn default() -> (r: Self)
        ensures
            r.encoding is None,
            r.delimiter is None,
            r.quote_char is None,
            r.escape_char is None,
            r.header is None,
    {
        FileFormatConfig { encoding: None, delimiter: None, quote_char: None, escape_char: None, header: None }
    }
}

impl Default for InputValidationConfig {
    fn default() -> (r: Self)
        ensures
            r == (InputValidationConfig { strict_mode: false, skip_malformed: false, max_errors: None }),
    {
        InputValidationConfig { strict_mode: false, skip_malformed: false, max_errors: None }
    }
}

impl Default for NamingConfig {
    fn default() -> (r: Self)
        ensures
            r.pattern is None,
            r.timestamp_format is None,
            !r.include_survey_code,
    {
        NamingConfig { pattern: None, timestamp_format: None, include_survey_code: false }
    }
}

impl Default for ChunkingConfig {
    /// All zero and unset (the chunk size default of configuration files is
    /// applied where a file omits it, not here).
    fn default() -> (r: Self)
        ensures
            r.size == 0,
            r.strategy is None,
            r.overlap is None,
    {
        ChunkingConfig { size: 0, strategy: None, overlap: None }
    }
}

impl Default for MmapConfig {
    fn default() -> (r: Self)
        ensures
            r == (MmapConfig { enabled: false, threshold: None, prefetch: None }),
    {
        MmapConfig { enabled: false, threshold: None, prefetch: None }
    }
}

impl Default for CacheConfig {
    fn default() -> (r: Self)
        ensures
            r == (CacheConfig { enabled: false, size: None, ttl: None }),
    {
        CacheConfig { enabled: false, size: None, ttl: None }
    }
}

impl Default for PartitioningConfig {
    fn default() -> (r: Self)
        ensures
            r.strategy is None,
            r.columns@.len() == 0,
            r.max_partitions is None,
    {
        PartitioningConfig { strategy: None, columns: Vec::new(), max_partitions: None }
    }
}

impl Default for OutputFileConfig {
    fn default() -> (r: Self)
        ensures
            !r.create_directories,
            !r.overwrite,
            r.permissions is None,
            r.max_file_size is None,
    {
        OutputFileConfig { create_directories: false, overwrite: false, permissions: None, max_file_size: None }
    }
}

impl Default for BufferConfig {
    fn default() -> (r: Self)
        ensures
            r == (BufferConfig { size: None, flush_interval: None }),
    {
        BufferConfig { size: None, flush_interval: None }
    }
}

impl Default for BackoffStrategy {
    fn default() -> (r: Self)
        ensures
            r == BackoffStrategy::Fixed,
    {
        BackoffStrategy::Fixed
    }
}

impl Default for RetryConfig {
    fn default() -> (r: Self)
        ensures
            r.max_attempts == 0,
            r.backoff == BackoffStrategy::Fixed,
            r.delay == 0,
            r.initial_delay is None,
    {
        RetryConfig { max_attempts: 0, backoff: BackoffStrategy::Fixed, delay: 0, initial_delay: None }
    }
}

impl Default for TaskDefaults {
    fn default() -> (r: Self)
        ensures
            r.retry is None,
            r.sla is None,
            r.timeout is None,
    {
        TaskDefaults { retry: None, sla: None, timeout: None }
    }
}

impl Default for QualitySeverity {
    fn default() -> (r: Self)
        ensures
            r == QualitySeverity::Error,
    {
        QualitySeverity::Error
    }
}

impl Default for QualityValidation {
    fn default() -> (r: Self)
        ensures
            r == (QualityValidation { strict_mode: false, fail_on_error: false, max_errors: None }),
    {
        QualityValidation { strict_mode: false, fail_on_error: false, max_errors: None }
    }
}

impl Default for FeatureFlags {
    fn default() -> (r: Self)
        ensures
            r == (FeatureFlags {
                async_processing: false,
                parallel_io: false,
                memory_optimization: false,
                experimental_features: false,
            }),
    {
        FeatureFlags {
            async_processing: false,
            parallel_io: false,
            memory_optimization: false,
            experimental_features: false,
        }
    }
}

impl Default for LogLevel {
    fn default() -> (r: Self)
        ensures
            r == LogLevel::Info,
    {
        LogLevel::Info
    }
}

impl Default for LoggingConfig {
    fn default() -> (r: Self)
        ensures
            r.level == LogLevel::Info,
            r.format is None,
            r.output is None,
            !r.structured,
    {
        LoggingConfig { level: LogLevel::Info, format: None, output: None, structured: false }
    }
}

impl Default for MonitoringConfig {
    fn default() -> (r: Self)
        ensures
            !r.enabled,
            r.metrics_endpoint is None,
            r.health_check_interval is None,
    {
        MonitoringConfig { enabled: false, metrics_endpoint: None, health_check_interval: None }
    }
}

impl Default for EnvironmentConfig {
    fn default() -> (r: Self)
        ensures
            r.name is None,
            !r.debug,
            r.profile is None,
    {
        EnvironmentConfig { name: None, debug: false, profile: None }
    }
}

impl ProcessingConfig {
    /// The processing defaults with `max_threads` threads.
    pub fn with_max_threads(max_threads: u32) -> (r: Self)
        ensures
            default_processing(r),
            r.max_threads == max_threads,
    {
        ProcessingConfig {
            config_version: 1,
            max_threads,
            chunk_size: default_chunk_size(),
            memory_limit: default_memory_limit(),
            parallel: default_parallel(),
            strategy: ProcessingStrategy::InMemory,
            chunking: ChunkingConfig { size: default_chunk_size(), strategy: None, overlap: None },
            mmap: MmapConfig::default(),
            cache: CacheConfig::default(),
        }
    }
}

impl Default for ProcessingConfig {
    /// The processing defaults, with one thread per logical CPU; what
    /// `with_max_threads` states holds of the result for that thread count.
    fn default() -> (r: Self)
        ensures
            default_processing(r),
    {
        ProcessingConfig::with_max_threads(default_max_threads())
    }
}

/// The output layer's defaults.
pub open spec fn default_output(r: OutputConfig) -> bool {
    &&& r.config_version == 1
    &&& r.formats@ == seq![OutputFormat::Csv]
    &&& r.compression is None
    &&& r.partitioning.strategy is None
    &&& r.partitioning.columns@.len() == 0
    &&& r.partitioning.max_partitions is None
    &&& r.files.create_directories
    &&& !r.files.overwrite
    &&& r.files.permissions is None
    &&& r.files.max_file_size is None
    &&& r.buffer == (BufferConfig { size: None, flush_interval: None })
    &&& r.output_dir@ == "data/processed"@
    &&& r.filename_pattern@ == "{survey}_{table}_{timestamp}"@
    &&& r.create_subdirs
}

/// The processing layer's defaults, for any thread count.
pub open spec fn default_processing(r: ProcessingConfig) -> bool {
    &&& r.config_version == 1
    &&& r.chunk_size == 10000
    &&& r.memory_limit == 1024
    &&& r.parallel
    &&& r.strategy == ProcessingStrategy::InMemory
    &&& r.chunking.size == 10000
    &&& r.chunking.strategy is None
    &&& r.chunking.overlap is None
    &&& r.mmap == (MmapConfig { enabled: false, threshold: None, prefetch: None })
    &&& r.cache == (CacheConfig { enabled: false, size: None, ttl: None })
}

impl Default for OutputConfig {
    fn default() -> (r: Self)
        ensures
            default_output(r),
    {
        let mut formats: Vec<OutputFormat> = Vec::new();
        formats.push(OutputFormat::Csv);
        assert(formats@ =~= seq![OutputFormat::Csv]);
        OutputConfig {
            config_version: 1,
            formats,
            compression: None,
            partitioning: PartitioningConfig::default(),
            files: OutputFileConfig {
                create_directories: default_create_subdirs(),
                overwrite: false,
                permissions: None,
                max_file_size: None,
            },
            buffer: BufferConfig { size: None, flush_interval: None },
            output_dir: default_output_dir(),
            filename_pattern: default_filename_pattern(),
            create_subdirs: default_create_subdirs(),
        }
    }
}

impl Default for ErrorHandlingConfig {
    fn default() -> (r: Self)
        ensures
            r.on_error@ == "continue"@,
            r.max_errors == 1000,
            r.log_errors,
            r.error_log_path is None,
            r.create_reports,
    {
        ErrorHandlingConfig {
            on_error: default_on_error(),
            max_errors: default_max_errors(),
            log_errors: default_log_errors(),
            error_log_path: None,
            create_reports: default_create_reports(),
        }
    }
}

} // verus!

verus! {

// ---------------------------------------------------------------------------
// Copies. A layer type whose fields are all compared by `==` is copied
// exactly; one that holds vectors or maps is copied up to the views of those
// (`same_*` below).

/// The strings of `a` and `b` hold the same characters, in the same order.
pub open spec fn same_strings(a: Vec<String>, b: Vec<String>) -> bool {
    a@ == b@
}

/// A copy of a vector of strings.
pub fn copy_strings(v: &Vec<String>) -> (r: Vec<String>)
    ensures
        r@ == v@,
{
    let mut r: Vec<String> = Vec::new();
    let mut i: usize = 0;
    while i < v.len()
        invariant
            i <= v@.len(),
            r@ == v@.take(i as int),
        decreases v@.len() - i,
    {
        r.push(v[i].clone());
        i = i + 1;
        assert(r@ =~= v@.take(i as int));
    }
    assert(v@.take(v@.len() as int) =~= v@);
    r
}

impl Clone for ContactInfo {
    fn clone(&self) -> (r: Self)
        ensures
            r == *self,
    {
        ContactInfo { role: self.role.clone(), name: self.name.clone(), email: self.email.clone() }
    }
}

impl Clone for SurveyCharacteristics {
    fn clone(&self) -> (r: Self)
        ensures
            r == *self,
    {
        SurveyCharacteristics {
            frequency: self.frequency.clone(),
            coverage: self.coverage.clone(),
            classification_system: self.classification_system.clone(),
            begin_year: self.begin_year,
            update_schedule: self.update_schedule.clone(),
            survey_methodology: self.survey_methodology.clone(),
            calculation_basis: self.calculation_basis.clone(),
            time_series_count: self.time_series_count.clone(),
        }
    }
}

impl Clone for DocumentationInfo {
    fn clone(&self) -> (r: Self)
        ensures
            r == *self,
    {
        DocumentationInfo { primary: self.primary.clone(), data_dictionary: self.data_dictionary.clone() }
    }
}

/// Two survey informations that agree on every field.
pub open spec fn same_survey_info(a: SurveyInfo, b: SurveyInfo) -> bool {
    &&& a.code == b.code
    &&& a.name == b.name
    &&& a.description == b.description
    &&& a.size_class == b.size_class
    &&& a.characteristics == b.characteristics
    &&& a.contacts@ == b.contacts@
    &&& a.documentation == b.documentation
    &&& a.tags@ == b.tags@
}

impl Clone for SurveyInfo {
    fn clone(&self) -> (r: Self)
        ensures
            same_survey_info(r, *self),
    {
        let mut contacts: Vec<ContactInfo> = Vec::new();
        let mut i: usize = 0;
        while i < self.contacts.len()
            invariant
                i <= self.contacts@.len(),
                contacts@ == self.contacts@.take(i as int),
            decreases self.contacts@.len() - i,
        {
            contacts.push(self.contacts[i].clone());
            i = i + 1;
            assert(contacts@ =~= self.contacts@.take(i as int));
        }
        assert(self.contacts@.take(self.contacts@.len() as int) =~= self.contacts@);
        SurveyInfo {
            code: self.code.clone(),
            name: self.name.clone(),
            description: self.description.clone(),
            size_class: self.size_class.clone(),
            characteristics: self.characteristics.clone(),
            contacts,
            documentation: self.documentation.clone(),
            tags: copy_strings(&self.tags),
        }
    }
}

/// Two overview layers that agree on every field.
pub open spec fn same_overview(a: OverviewConfig, b: OverviewConfig) -> bool {
    a.config_version == b.config_version && same_survey_info(a.survey, b.survey)
}

impl Clone for OverviewConfig {
    fn clone(&self) -> (r: Self)
        ensures
            same_overview(r, *self),
    {
        OverviewConfig { config_version: self.config_version, survey: self.survey.clone() }
    }
}

impl Clone for OrderedNumber {
    fn clone(&self) -> (r: Self)
        ensures
            r == *self,
    {
        OrderedNumber { order_key: self.order_key, text: self.text.clone() }
    }
}

/// Two validation rules that agree on every field.
pub open spec fn same_rule(a: ValidationRule, b: ValidationRule) -> bool {
    match (a, b) {
        (ValidationRule::Enum { values: x }, ValidationRule::Enum { values: y }) => x@ == y@,
        (ValidationRule::Enum { .. }, _) => false,
        (_, ValidationRule::Enum { .. }) => false,
        _ => a == b,
    }
}

impl Clone for ValidationRule {
    fn clone(&self) -> (r: Self)
        ensures
            same_rule(r, *self),
    {
        match self {
            ValidationRule::Length { min, max } => ValidationRule::Length { min: *min, max: *max },
            ValidationRule::Range { min, max } => ValidationRule::Range { min: min.clone(), max: max.clone() },
            ValidationRule::Pattern { pattern } => ValidationRule::Pattern { pattern: pattern.clone() },
            ValidationRule::Enum { values } => ValidationRule::Enum { values: copy_strings(values) },
            ValidationRule::Custom { function } => ValidationRule::Custom { function: function.clone() },
        }
    }
}

/// Two field definitions that agree on every field.
pub open spec fn same_field(a: FieldDefinition, b: FieldDefinition) -> bool {
    &&& a.name == b.name
    &&& a.field_type == b.field_type
    &&& a.required == b.required
    &&& a.description == b.description
    &&& a.validation@.len() == b.validation@.len()
    &&& forall|i: int| 0 <= i < a.validation@.len() ==> same_rule(#[trigger] a.validation@[i], b.validation@[i])
    &&& a.default == b.default
}

impl Clone for FieldDefinition {
    fn clone(&self) -> (r: Self)
        ensures
            same_field(r, *self),
    {
        let mut validation: Vec<ValidationRule> = Vec::new();
        let mut i: usize = 0;
        while i < self.validation.len()
            invariant
                i <= self.validation@.len(),
                validation@.len() == i,
                forall|j: int| 0 <= j < i ==> same_rule(#[trigger] validation@[j], self.validation@[j]),
            decreases self.validation@.len() - i,
        {
            validation.push(self.validation[i].clone());
            i = i + 1;
        }
        FieldDefinition {
            name: self.name.clone(),
            field_type: self.field_type.clone(),
            required: self.required,
            description: self.description.clone(),
            validation,
            default: self.default.clone(),
        }
    }
}

/// Two index definitions that agree on every field.
pub open spec fn same_index(a: IndexDefinition, b: IndexDefinition) -> bool {
    a.name == b.name && a.fields@ == b.fields@ && a.unique == b.unique
}

impl Clone for IndexDefinition {
    fn clone(&self) -> (r: Self)
        ensures
            same_index(r, *self),
    {
        IndexDefinition { name: self.name.clone(), fields: copy_strings(&self.fields), unique: self.unique }
    }
}

/// Two data models that agree on every field.
pub open spec fn same_model(a: DataModel, b: DataModel) -> bool {
    &&& a.name == b.name
    &&& a.description == b.description
    &&& a.fields@.len() == b.fields@.len()
    &&& forall|i: int| 0 <= i < a.fields@.len() ==> same_field(#[trigger] a.fields@[i], b.fields@[i])
    &&& a.primary_key@ == b.primary_key@
    &&& a.indexes@.len() == b.indexes@.len()
    &&& forall|i: int| 0 <= i < a.indexes@.len() ==> same_index(#[trigger] a.indexes@[i], b.indexes@[i])
}

impl Clone for DataModel {
    fn clone(&self) -> (r: Self)
        ensures
            same_model(r, *self),
    {
        let mut fields: Vec<FieldDefinition> = Vec::new();
        let mut i: usize = 0;
        while i < self.fields.len()
            invariant
                i <= self.fields@.len(),
                fields@.len() == i,
                forall|j: int| 0 <= j < i ==> same_field(#[trigger] fields@[j], self.fields@[j]),
            decreases self.fields@.len() - i,
        {
            fields.push(self.fields[i].clone());
            i = i + 1;
        }
        let mut indexes: Vec<IndexDefinition> = Vec::new();
        let mut i: usize = 0;
        while i < self.indexes.len()
            invariant
                i <= self.indexes@.len(),
                indexes@.len() == i,
                forall|j: int| 0 <= j < i ==> same_index(#[trigger] indexes@[j], self.indexes@[j]),
            decreases self.indexes@.len() - i,
        {
            indexes.push(self.indexes[i].clone());
            i = i + 1;
        }
        DataModel {
            name: self.name.clone(),
            description: self.description.clone(),
            fields,
            primary_key: copy_strings(&self.primary_key),
            indexes,
        }
    }
}

impl Clone for FileFormatConfig {
    fn clone(&self) -> (r: Self)
        ensures
            r == *self,
    {
        FileFormatConfig {
            encoding: self.encoding.clone(),
            delimiter: self.delimiter.clone(),
            quote_char: self.quote_char.clone(),
            escape_char: self.escape_char.clone(),
            header: self.header,
        }
    }
}

impl Clone for NamingConfig {
    fn clone(&self) -> (r: Self)
        ensures
            r == *self,
    {
        NamingConfig {
            pattern: self.pattern.clone(),
            timestamp_format: self.timestamp_format.clone(),
            include_survey_code: self.include_survey_code,
        }
    }
}

/// Two io layers that agree on every field.
pub open spec fn same_io(a: IoConfig, b: IoConfig) -> bool {
    &&& a.config_version == b.config_version
    &&& a.input.base_dir == b.input.base_dir
    &&& a.input.patterns@ == b.input.patterns@
    &&& a.input.format == b.input.format
    &&& a.input.validation == b.input.validation
    &&& a.output.base_dir == b.output.base_dir
    &&& a.output.structure@ == b.output.structure@
    &&& a.output.naming == b.output.naming
}

impl Clone for IoConfig {
    fn clone(&self) -> (r: Self)
        ensures
            same_io(r, *self),
    {
        IoConfig {
            config_version: self.config_version,
            input: InputConfig {
                base_dir: self.input.base_dir.clone(),
                patterns: copy_strings(&self.input.patterns),
                format: self.input.format.clone(),
                validation: self.input.validation,
            },
            output: IoOutputConfig {
                base_dir: self.output.base_dir.clone(),
                structure: copy_strings(&self.output.structure),
                naming: self.output.naming.clone(),
            },
        }
    }
}

impl Clone for ChunkingConfig {
    fn clone(&self) -> (r: Self)
        ensures
            r == *self,
    {
        ChunkingConfig { size: self.size, strategy: self.strategy.clone(), overlap: self.overlap }
    }
}

impl Clone for ProcessingConfig {
    fn clone(&self) -> (r: Self)
        ensures
            r == *self,
    {
        ProcessingConfig {
            config_version: self.config_version,
            max_threads: self.max_threads,
            chunk_size: self.chunk_size,
            memory_limit: self.memory_limit,
            parallel: self.parallel,
            strategy: self.strategy,
            chunking: self.chunking.clone(),
            mmap: self.mmap,
            cache: self.cache,
        }
    }
}

impl Clone for OutputFileConfig {
    fn clone(&self) -> (r: Self)
        ensures
            r == *self,
    {
        OutputFileConfig {
            create_directories: self.create_directories,
            overwrite: self.overwrite,
            permissions: self.permissions.clone(),
            max_file_size: self.max_file_size,
        }
    }
}

/// Two output layers that agree on every field.
pub open spec fn same_output(a: OutputConfig, b: OutputConfig) -> bool {
    &&& a.config_version == b.config_version
    &&& a.formats@ == b.formats@
    &&& a.compression == b.compression
    &&& a.partitioning.strategy == b.partitioning.strategy
    &&& a.partitioning.columns@ == b.partitioning.columns@
    &&& a.partitioning.max_partitions == b.partitioning.max_partitions
    &&& a.files == b.files
    &&& a.buffer == b.buffer
    &&& a.output_dir == b.output_dir
    &&& a.filename_pattern == b.filename_pattern
    &&& a.create_subdirs == b.create_subdirs
}

impl Clone for OutputConfig {
    fn clone(&self) -> (r: Self)
        ensures
            same_output(r, *self),
    {
        let mut formats: Vec<OutputFormat> = Vec::new();
        let mut i: usize = 0;
        while i < self.formats.len()
            invariant
                i <= self.formats@.len(),
                formats@ == self.formats@.take(i as int),
            decreases self.formats@.len() - i,
        {
            formats.push(self.formats[i]);
            i = i + 1;
            assert(formats@ =~= self.formats@.take(i as int));
        }
        assert(self.formats@.take(self.formats@.len() as int) =~= self.formats@);
        OutputConfig {
            config_version: self.config_version,
            formats,
            compression: self.compression,
            partitioning: PartitioningConfig {
                strategy: self.partitioning.strategy,
                columns: copy_strings(&self.partitioning.columns),
                max_partitions: self.partitioning.max_partitions,
            },
            files: self.files.clone(),
            buffer: self.buffer,
            output_dir: self.output_dir.clone(),
            filename_pattern: self.filename_pattern.clone(),
            create_subdirs: self.create_subdirs,
        }
    }
}

/// Two quality checks that agree on every field.
pub open spec fn same_check(a: QualityCheck, b: QualityCheck) -> bool {
    &&& a.name == b.name
    &&& a.check_type == b.check_type
    &&& a.parameters@ == b.parameters@
    &&& a.parameters.key_list() == b.parameters.key_list()
    &&& a.severity == b.severity
}

impl Clone for QualityCheck {
    fn clone(&self) -> (r: Self)
        ensures
            same_check(r, *self),
    {
        let parameters = self.parameters.clone();
        assert(parameters@ =~= self.parameters@);
        QualityCheck {
            name: self.name.clone(),
            check_type: self.check_type,
            parameters,
            severity: self.severity,
        }
    }
}

/// Two quality layers that agree on every field.
pub open spec fn same_quality(a: QualityConfig, b: QualityConfig) -> bool {
    &&& a.config_version == b.config_version
    &&& a.checks@.len() == b.checks@.len()
    &&& forall|i: int| 0 <= i < a.checks@.len() ==> same_check(#[trigger] a.checks@[i], b.checks@[i])
    &&& a.validation == b.validation
}

impl Clone for QualityConfig {
    fn clone(&self) -> (r: Self)
        ensures
            same_quality(r, *self),
    {
        let mut checks: Vec<QualityCheck> = Vec::new();
        let mut i: usize = 0;
        while i < self.checks.len()
            invariant
                i <= self.checks@.len(),
                checks@.len() == i,
                forall|j: int| 0 <= j < i ==> same_check(#[trigger] checks@[j], self.checks@[j]),
            decreases self.checks@.len() - i,
        {
            checks.push(self.checks[i].clone());
            i = i + 1;
        }
        QualityConfig { config_version: self.config_version, checks, validation: self.validation }
    }
}

impl Clone for LoggingConfig {
    fn clone(&self) -> (r: Self)
        ensures
            r == *self,
    {
        LoggingConfig {
            level: self.level,
            format: self.format.clone(),
            output: self.output.clone(),
            structured: self.structured,
        }
    }
}

impl Clone for MonitoringConfig {
    fn clone(&self) -> (r: Self)
        ensures
            r == *self,
    {
        MonitoringConfig {
            enabled: self.enabled,
            metrics_endpoint: self.metrics_endpoint.clone(),
            health_check_interval: self.health_check_interval,
        }
    }
}

impl Clone for EnvironmentConfig {
    fn clone(&self) -> (r: Self)
        ensures
            r == *self,
    {
        EnvironmentConfig { name: self.name.clone(), debug: self.debug, profile: self.profile.clone() }
    }
}

impl Clone for RuntimeConfig {
    fn clone(&self) -> (r: Self)
        ensures
            r == *self,
    {
        RuntimeConfig {
            config_version: self.config_version,
            features: self.features,
            logging: self.logging.clone(),
            monitoring: self.monitoring.clone(),
            environment: self.environment.clone(),
        }
    }
}

} // verus!

verus! {

// ---------------------------------------------------------------------------
// Survey configurations.

/// The name given to a survey with code `code`.
pub open spec fn survey_name(code: Seq<char>) -> Seq<char> {
    code + " Survey"@
}

/// A fresh survey configuration for the survey code `input`, upper-cased;
/// every layer holds its defaults (the processing layer for some thread count).
pub open spec fn fresh_survey_config(c: SurveyConfig, input: Seq<char>) -> bool {
    let code = upper_of(input);
    &&& c.survey_code@ == code
    &&& c.environment@ == "DEFAULT"@
    &&& c.version == 1
    &&& c.created_at == c.updated_at
    &&& c.code@ == code
    &&& c.name@ == survey_name(code)
    &&& c.overview.config_version == 1
    &&& c.overview.survey.code@ == code
    &&& c.overview.survey.name@ == survey_name(code)
    &&& c.overview.survey.description@.len() == 0
    &&& c.overview.survey.size_class@ == "medium"@
    &&& empty_characteristics(c.overview.survey.characteristics)
    &&& c.overview.survey.contacts@.len() == 0
    &&& c.overview.survey.documentation.primary is None
    &&& c.overview.survey.documentation.data_dictionary is None
    &&& c.overview.survey.tags@.len() == 0
    &&& c.model.config_version == 1
    &&& c.model.models@ == Map::<Seq<char>, DataModel>::empty()
    &&& c.io.config_version == 1
    &&& c.io.input.base_dir@ == "data/raw/bls"@
    &&& c.io.input.patterns@.len() == 0
    &&& c.io.input.format == (FileFormatConfig {
        encoding: None,
        delimiter: None,
        quote_char: None,
        escape_char: None,
        header: None,
    })
    &&& c.io.input.validation == (InputValidationConfig {
        strict_mode: false,
        skip_malformed: false,
        max_errors: None,
    })
    &&& c.io.output.base_dir@ == "data/processed"@
    &&& c.io.output.structure@.len() == 0
    &&& c.io.output.naming == (NamingConfig {
        pattern: None,
        timestamp_format: None,
        include_survey_code: false,
    })
    &&& default_processing(c.processing)
    &&& default_output(c.output)
    &&& c.quality.config_version == 1
    &&& c.quality.checks@.len() == 0
    &&& c.quality.validation == (QualityValidation {
        strict_mode: false,
        fail_on_error: false,
        max_errors: None,
    })
    &&& c.runtime.config_version == 1
    &&& c.runtime.features == (FeatureFlags {
        async_processing: false,
        parallel_io: false,
        memory_optimization: false,
        experimental_features: false,
    })
    &&& c.runtime.logging == (LoggingConfig {
        level: LogLevel::Info,
        format: None,
        output: None,
        structured: false,
    })
    &&& c.runtime.monitoring == (MonitoringConfig {
        enabled: false,
        metrics_endpoint: None,
        health_check_interval: None,
    })
    &&& c.runtime.environment == (EnvironmentConfig { name: None, debug: false, profile: None })
    &&& c.dags is None
    &&& c.applied_overrides@.len() == 0
}

/// The model map after the models of `other` are laid over `old`: each model
/// of `other` replaces the one of the same name.
pub open spec fn models_merged(
    old: Map<Seq<char>, DataModel>,
    other: Map<Seq<char>, DataModel>,
    new: Map<Seq<char>, DataModel>,
) -> bool {
    &&& new.dom() == old.dom().union(other.dom())
    &&& forall|k: Seq<char>| #[trigger] other.contains_key(k) ==> same_model(new[k], other[k])
    &&& forall|k: Seq<char>| old.contains_key(k) && !other.contains_key(k) ==> #[trigger] new[k] == old[k]
}

/// Laying the same models over a configuration twice gives the models of
/// laying them once: the same names, the laid models in place, the others
/// kept.
pub proof fn lemma_models_merge_idempotent(
    old: Map<Seq<char>, DataModel>,
    other: Map<Seq<char>, DataModel>,
    once: Map<Seq<char>, DataModel>,
    twice: Map<Seq<char>, DataModel>,
)
    requires
        models_merged(old, other, once),
        models_merged(once, other, twice),
    ensures
        twice.dom() == once.dom(),
        forall|k: Seq<char>| #[trigger] twice.contains_key(k) && !other.contains_key(k) ==> twice[k] == once[k],
        forall|k: Seq<char>| #[trigger] other.contains_key(k) ==> same_model(twice[k], other[k]) && same_model(
            once[k],
            other[k],
        ),
{
    assert(twice.dom() =~= once.dom());
}

impl SurveyConfig {
    /// A fresh configuration for a survey, its code upper-cased, stamped with
    /// the current time.
    pub fn new(survey_code: &str) -> (c: Self)
        ensures
            fresh_survey_config(c, survey_code@),
    {
        let code = to_upper(survey_code);
        let now = now_nanos();
        SurveyConfig {
            survey_code: code.clone(),
            environment: owned("DEFAULT"),
            version: 1,
            created_at: now,
            updated_at: now,
            code: code.clone(),
            name: cat(code.as_str(), " Survey"),
            overview: OverviewConfig {
                config_version: 1,
                survey: SurveyInfo {
                    code: code.clone(),
                    name: cat(code.as_str(), " Survey"),
                    description: String::new(),
                    size_class: default_size_class(),
                    characteristics: SurveyCharacteristics::default(),
                    contacts: Vec::new(),
                    documentation: DocumentationInfo::default(),
                    tags: Vec::new(),
                },
            },
            model: ModelConfig { config_version: 1, models: StrMap::new() },
            io: IoConfig {
                config_version: 1,
                input: InputConfig {
                    base_dir: owned("data/raw/bls"),
                    patterns: Vec::new(),
                    format: FileFormatConfig::default(),
                    validation: InputValidationConfig::default(),
                },
                output: IoOutputConfig {
                    base_dir: owned("data/processed"),
                    structure: Vec::new(),
                    naming: NamingConfig::default(),
                },
            },
            processing: ProcessingConfig::default(),
            output: OutputConfig::default(),
            quality: QualityConfig {
                config_version: 1,
                checks: Vec::new(),
                validation: QualityValidation::default(),
            },
            runtime: RuntimeConfig {
                config_version: 1,
                features: FeatureFlags::default(),
                logging: LoggingConfig { level: LogLevel::Info, format: None, output: None, structured: false },
                monitoring: MonitoringConfig::default(),
                environment: EnvironmentConfig::default(),
            },
            dags: None,
            applied_overrides: Vec::new(),
        }
    }

    /// Counts one more change and stamps the current time.
    pub fn update(&mut self)
        requires
            old(self).version < u64::MAX,
        ensures
            final(self).version == old(self).version + 1,
            final(self).created_at == old(self).created_at,
            final(self).survey_code == old(self).survey_code,
            final(self).environment == old(self).environment,
            final(self).code == old(self).code,
            final(self).name == old(self).name,
            final(self).overview == old(self).overview,
            final(self).model == old(self).model,
            final(self).io == old(self).io,
            final(self).processing == old(self).processing,
            final(self).output == old(self).output,
            final(self).quality == old(self).quality,
            final(self).runtime == old(self).runtime,
            final(self).dags == old(self).dags,
            final(self).applied_overrides == old(self).applied_overrides,
    {
        self.version = self.version + 1;
        self.updated_at = now_nanos();
    }

    /// Records that the override layer `source` has been laid over the
    /// configuration, and counts the change (see `update`). A configuration
    /// whose version counter is exhausted is left as it is, and an error
    /// says so.
    pub fn record_override(&mut self, source: &str) -> (r: Result<(), String>)
        ensures
            old(self).version == u64::MAX ==> (r matches Err(e) && e@ == "Configuration version counter is exhausted"@
                && *final(self) == *old(self)),
            old(self).version < u64::MAX ==> {
                &&& r is Ok
                &&& views(final(self).applied_overrides@) == views(old(self).applied_overrides@).push(source@)
                &&& *final(self) == (SurveyConfig {
                    version: (old(self).version + 1) as u64,
                    updated_at: final(self).updated_at,
                    applied_overrides: final(self).applied_overrides,
                    ..*old(self)
                })
            },
    {
        if self.version == u64::MAX {
            return Err(owned("Configuration version counter is exhausted"));
        }
        let ghost before = views(self.applied_overrides@);
        self.applied_overrides.push(owned(source));
        proof {
            assert(views(self.applied_overrides@) =~= before.push(source@));
        }
        self.update();
        Ok(())
    }

    /// Replaces the overview layer by a copy of `other`, and the survey's
    /// code and name by those it holds.
    pub fn merge_overview_config(&mut self, other: &OverviewConfig) -> (r: Result<(), String>)
        ensures
            r is Ok,
            same_overview(final(self).overview, *other),
            final(self).code == other.survey.code,
            final(self).name == other.survey.name,
            final(self).model == old(self).model,
            final(self).io == old(self).io,
            final(self).processing == old(self).processing,
            final(self).output == old(self).output,
            final(self).quality == old(self).quality,
            final(self).runtime == old(self).runtime,
            final(self).dags == old(self).dags,
            final(self).version == old(self).version,
            final(self).created_at == old(self).created_at,
            final(self).survey_code == old(self).survey_code,
            final(self).applied_overrides == old(self).applied_overrides,
    {
        self.overview = other.clone();
        self.code = self.overview.survey.code.clone();
        self.name = self.overview.survey.name.clone();
        Ok(())
    }

    /// Lays the models of `other` over this configuration's models, and takes
    /// its version.
    pub fn merge_model_config(&mut self, other: &ModelConfig) -> (r: Result<(), String>)
        ensures
            r is Ok,
            models_merged(old(self).model.models@, other.models@, final(self).model.models@),
            final(self).model.config_version == other.config_version,
            final(self).overview == old(self).overview,
            final(self).io == old(self).io,
            final(self).processing == old(self).processing,
            final(self).output == old(self).output,
            final(self).quality == old(self).quality,
            final(self).runtime == old(self).runtime,
            final(self).dags == old(self).dags,
            final(self).code == old(self).code,
            final(self).name == old(self).name,
            final(self).created_at == old(self).created_at,
            final(self).survey_code == old(self).survey_code,
            final(self).version == old(self).version,
            final(self).applied_overrides == old(self).applied_overrides,
    {
        let ghost start = self.model.models@;
        let n = other.models.len();
        let mut i: usize = 0;
        while i < n
            invariant
                n == other.models.key_list().len(),
                i <= n,
                self.model.models@.dom() == start.dom().union(
                    Set::new(|k: Seq<char>| exists|j: int| 0 <= j < i && other.models.key_list()[j] == k),
                ),
                forall|j: int| 0 <= j < i ==> #[trigger] self.model.models@.contains_key(other.models.key_list()[j])
                    && same_model(self.model.models@[other.models.key_list()[j]], other.models@[other.models.key_list()[j]]),
                forall|k: Seq<char>| start.contains_key(k) && !(exists|j: int| 0 <= j < i && other.models.key_list()[j] == k)
                    ==> #[trigger] self.model.models@[k] == start[k],
                self.overview == old(self).overview,
                self.io == old(self).io,
                self.processing == old(self).processing,
                self.output == old(self).output,
                self.quality == old(self).quality,
                self.runtime == old(self).runtime,
                self.dags == old(self).dags,
                self.code == old(self).code,
                self.name == old(self).name,
                self.created_at == old(self).created_at,
                self.survey_code == old(self).survey_code,
                self.version == old(self).version,
                self.applied_overrides == old(self).applied_overrides,
            decreases n - i,
        {
            let (k, v) = other.models.entry_at(i);
            let ghost key = k@;
            let model = v.clone();
            self.model.models.insert(k.clone(), model);
            i = i + 1;
            proof {
                assert forall|j: int| 0 <= j < i implies #[trigger] self.model.models@.contains_key(
                    other.models.key_list()[j],
                ) && same_model(
                    self.model.models@[other.models.key_list()[j]],
                    other.models@[other.models.key_list()[j]],
                ) by {
                    if other.models.key_list()[j] != key {
                        assert(j < i - 1);
                    }
                }
                assert(other.models.key_list()[i - 1] == key);
                assert(self.model.models@.dom() =~= start.dom().union(
                    Set::new(|k: Seq<char>| exists|j: int| 0 <= j < i && other.models.key_list()[j] == k),
                ));
            }
        }
        proof {
            other.models.lemma_view_dom();
            let kl = other.models.key_list();
            let new = self.model.models@;
            assert(new.dom() =~= start.dom().union(other.models@.dom()));
            assert forall|k: Seq<char>| #[trigger] other.models@.contains_key(k) implies same_model(
                new[k],
                other.models@[k],
            ) by {
                let j = choose|j: int| 0 <= j < kl.len() && kl[j] == k;
                assert(new.contains_key(kl[j]));
            }
        }
        self.model.config_version = other.config_version;
        Ok(())
    }

    /// Replaces the io layer by a copy of `other`.
    pub fn merge_io_config(&mut self, other: &IoConfig) -> (r: Result<(), String>)
        ensures
            r is Ok,
            same_io(final(self).io, *other),
            final(self).overview == old(self).overview,
            final(self).model == old(self).model,
            final(self).processing == old(self).processing,
            final(self).output == old(self).output,
            final(self).quality == old(self).quality,
            final(self).runtime == old(self).runtime,
            final(self).dags == old(self).dags,
            final(self).code == old(self).code,
            final(self).name == old(self).name,
            final(self).created_at == old(self).created_at,
            final(self).survey_code == old(self).survey_code,
            final(self).version == old(self).version,
            final(self).applied_overrides == old(self).applied_overrides,
    {
        self.io = other.clone();
        Ok(())
    }

    /// Replaces the processing layer by a copy of `other`.
    pub fn merge_processing_config(&mut self, other: &ProcessingConfig) -> (r: Result<(), String>)
        ensures
            r is Ok,
            final(self).processing == *other,
            final(self).overview == old(self).overview,
            final(self).model == old(self).model,
            final(self).io == old(self).io,
            final(self).output == old(self).output,
            final(self).quality == old(self).quality,
            final(self).runtime == old(self).runtime,
            final(self).dags == old(self).dags,
            final(self).code == old(self).code,
            final(self).name == old(self).name,
            final(self).created_at == old(self).created_at,
            final(self).survey_code == old(self).survey_code,
            final(self).version == old(self).version,
            final(self).applied_overrides == old(self).applied_overrides,
    {
        self.processing = other.clone();
        Ok(())
    }

    /// Replaces the output layer by a copy of `other`.
    pub fn merge_output_config(&mut self, other: &OutputConfig) -> (r: Result<(), String>)
        ensures
            r is Ok,
            same_output(final(self).output, *other),
            final(self).overview == old(self).overview,
            final(self).model == old(self).model,
            final(self).io == old(self).io,
            final(self).processing == old(self).processing,
            final(self).quality == old(self).quality,
            final(self).runtime == old(self).runtime,
            final(self).dags == old(self).dags,
            final(self).code == old(self).code,
            final(self).name == old(self).name,
            final(self).created_at == old(self).created_at,
            final(self).survey_code == old(self).survey_code,
            final(self).version == old(self).version,
            final(self).applied_overrides == old(self).applied_overrides,
    {
        self.output = other.clone();
        Ok(())
    }

    /// Replaces the quality layer by a copy of `other`.
    pub fn merge_quality_config(&mut self, other: &QualityConfig) -> (r: Result<(), String>)
        ensures
            r is Ok,
            same_quality(final(self).quality, *other),
            final(self).overview == old(self).overview,
            final(self).model == old(self).model,
            final(self).io == old(self).io,
            final(self).processing == old(self).processing,
            final(self).output == old(self).output,
            final(self).runtime == old(self).runtime,
            final(self).dags == old(self).dags,
            final(self).code == old(self).code,
            final(self).name == old(self).name,
            final(self).created_at == old(self).created_at,
            final(self).survey_code == old(self).survey_code,
            final(self).version == old(self).version,
            final(self).applied_overrides == old(self).applied_overrides,
    {
        self.quality = other.clone();
        Ok(())
    }

    /// Replaces the runtime layer by a copy of `other`.
    pub fn merge_runtime_config(&mut self, other: &RuntimeConfig) -> (r: Result<(), String>)
        ensures
            r is Ok,
            final(self).runtime == *other,
            final(self).overview == old(self).overview,
            final(self).model == old(self).model,
            final(self).io == old(self).io,
            final(self).processing == old(self).processing,
            final(self).output == old(self).output,
            final(self).quality == old(self).quality,
            final(self).dags == old(self).dags,
            final(self).code == old(self).code,
            final(self).name == old(self).name,
            final(self).created_at == old(self).created_at,
            final(self).survey_code == old(self).survey_code,
            final(self).version == old(self).version,
            final(self).applied_overrides == old(self).applied_overrides,
    {
        self.runtime = other.clone();
        Ok(())
    }
}

impl SurveyConfig {
    /// Lays another configuration over this one: each layer of `other` whose
    /// version is at least this one's replaces it (the models are laid over
    /// the existing ones), its DAGs replace these when it has any, `source`
    /// is recorded as applied, and the version goes up by one.
    pub fn merge(&mut self, other: SurveyConfig, source: &str) -> (r: Result<(), String>)
        requires
            old(self).version < u64::MAX,
        ensures
            r is Ok,
            other.overview.config_version >= old(self).overview.config_version ==> same_overview(
                final(self).overview,
                other.overview,
            ) && final(self).code == other.overview.survey.code && final(self).name
                == other.overview.survey.name,
            other.overview.config_version < old(self).overview.config_version ==> final(self).overview
                == old(self).overview && final(self).code == old(self).code && final(self).name
                == old(self).name,
            other.model.config_version >= old(self).model.config_version ==> models_merged(
                old(self).model.models@,
                other.model.models@,
                final(self).model.models@,
            ) && final(self).model.config_version == other.model.config_version,
            other.model.config_version < old(self).model.config_version ==> final(self).model
                == old(self).model,
            other.io.config_version >= old(self).io.config_version ==> same_io(final(self).io, other.io),
            other.io.config_version < old(self).io.config_version ==> final(self).io == old(self).io,
            other.processing.config_version >= old(self).processing.config_version ==> final(self).processing == other.processing,
            other.processing.config_version < old(self).processing.config_version ==> final(self).processing == old(self).processing,
            other.output.config_version >= old(self).output.config_version ==> same_output(
                final(self).output,
                other.output,
            ),
            other.output.config_version < old(self).output.config_version ==> final(self).output
                == old(self).output,
            other.quality.config_version >= old(self).quality.config_version ==> same_quality(
                final(self).quality,
                other.quality,
            ),
            other.quality.config_version < old(self).quality.config_version ==> final(self).quality
                == old(self).quality,
            other.runtime.config_version >= old(self).runtime.config_version ==> final(self).runtime
                == other.runtime,
            other.runtime.config_version < old(self).runtime.config_version ==> final(self).runtime
                == old(self).runtime,
            other.dags is Some ==> final(self).dags == other.dags,
            other.dags is None ==> final(self).dags == old(self).dags,
            views(final(self).applied_overrides@) == views(old(self).applied_overrides@).push(source@),
            final(self).version == old(self).version + 1,
            final(self).created_at == old(self).created_at,
            final(self).survey_code == old(self).survey_code,
    {
        if other.overview.config_version >= self.overview.config_version {
            self.merge_overview_config(&other.overview)?;
        }
        if other.model.config_version >= self.model.config_version {
            self.merge_model_config(&other.model)?;
        }
        if other.io.config_version >= self.io.config_version {
            self.merge_io_config(&other.io)?;
        }
        if other.processing.config_version >= self.processing.config_version {
            self.merge_processing_config(&other.processing)?;
        }
        if other.output.config_version >= self.output.config_version {
            self.merge_output_config(&other.output)?;
        }
        if other.quality.config_version >= self.quality.config_version {
            self.merge_quality_config(&other.quality)?;
        }
        if other.runtime.config_version >= self.runtime.config_version {
            self.merge_runtime_config(&other.runtime)?;
        }
        match other.dags {
            Some(other_dags) => {
                self.dags = Some(other_dags);
            },
            None => {},
        }
        self.applied_overrides.push(owned(source));
        self.update();
        Ok(())
    }
}

// ---------------------------------------------------------------------------
// The simplified configuration.

/// A fresh simplified configuration for the survey code `input`, upper-cased.
pub open spec fn fresh_config(c: Config, input: Seq<char>) -> bool {
    let code = upper_of(input);
    &&& c.survey.code@ == code
    &&& c.survey.name@ == survey_name(code)
    &&& c.processing.code@ == code
    &&& c.processing.max_threads == 4
    &&& c.processing.strategy == ProcessingStrategy::InMemory
    &&& c.processing.chunk_size == 1000
    &&& c.output.output_dir@ == "data/processed"@
    &&& c.error_handling.on_error@ == "continue"@
    &&& c.error_handling.max_errors == 1000
    &&& c.error_handling.log_errors
    &&& c.error_handling.error_log_path is None
    &&& c.error_handling.create_reports
}

impl Config {
    /// A fresh configuration for a survey, its code upper-cased.
    pub fn new(survey_code: &str) -> (c: Self)
        ensures
            fresh_config(c, survey_code@),
    {
        let code = to_upper(survey_code);
        Config {
            survey: ConfigSurvey { code: code.clone(), name: cat(code.as_str(), " Survey") },
            processing: ProcessingStruct {
                code: code.clone(),
                max_threads: 4,
                strategy: ProcessingStrategy::InMemory,
                chunk_size: 1000,
            },
            output: OutputStruct { output_dir: owned("data/processed") },
            error_handling: ErrorHandlingConfig::default(),
        }
    }

    /// The configuration stored at `path`: the fresh configuration for
    /// survey "DEFAULT", whatever the path.
    pub fn load_from_file(_path: &str) -> (r: crate::error::Result<Self>)
        ensures
            r matches Ok(c) && fresh_config(c, "DEFAULT"@),
    {
        Ok(Self::new("DEFAULT"))
    }

    /// The configuration of a survey: the fresh one for its code.
    pub fn load_for_survey(survey_code: &str) -> (r: crate::error::Result<Self>)
        ensures
            r matches Ok(c) && fresh_config(c, survey_code@),
    {
        Ok(Self::new(survey_code))
    }

    /// Every configuration is accepted.
    pub fn validate(&self) -> (r: crate::error::Result<()>)
        ensures
            r is Ok,
    {
        Ok(())
    }
}

impl Default for Config {
    fn default() -> (c: Self)
        ensures
            fresh_config(c, "DEFAULT"@),
    {
        Self::new("DEFAULT")
    }
}

// ---------------------------------------------------------------------------
// Checks on single values.

/// Exactly two characters, each an ASCII capital letter.
pub open spec fn valid_survey_code(code: Seq<char>) -> bool {
    code.len() == 2 && forall|i: int| 0 <= i < 2 ==> 'A' <= #[trigger] code[i] <= 'Z'
}

/// Whether `code` is a survey code: two ASCII capital letters.
pub fn validate_survey_code(code: &str) -> (r: Result<(), String>)
    ensures
        r is Ok <==> valid_survey_code(code@),
        r matches Err(e) ==> e@ == "invalid_survey_code"@,
{
    let n = code.unicode_len();
    if n != 2 {
        return Err(owned("invalid_survey_code"));
    }
    let a = code.get_char(0);
    let b = code.get_char(1);
    if 'A' <= a && a <= 'Z' && 'A' <= b && b <= 'Z' {
        Ok(())
    } else {
        Err(owned("invalid_survey_code"))
    }
}

/// Whether `strategy` is one of the processing strategies (every value of
/// the enum is).
pub fn validate_processing_strategy(strategy: &ProcessingStrategy) -> (r: Result<(), String>)
    ensures
        r is Ok,
{
    Ok(())
}

/// The field types that a field definition may name.
pub open spec fn valid_field_type(t: Seq<char>) -> bool {
    t == "string"@ || t == "integer"@ || t == "float"@ || t == "boolean"@ || t == "date"@ || t
        == "datetime"@
}

/// Whether `field_type` is one of string, integer, float, boolean, date, datetime.
pub fn validate_field_type(field_type: &str) -> (r: Result<(), String>)
    ensures
        r is Ok <==> valid_field_type(field_type@),
        r matches Err(e) ==> e@ == "invalid_field_type"@,
{
    if str_eq(field_type, "string") || str_eq(field_type, "integer") || str_eq(field_type, "float")
        || str_eq(field_type, "boolean") || str_eq(field_type, "date") || str_eq(field_type, "datetime") {
        Ok(())
    } else {
        Err(owned("invalid_field_type"))
    }
}

/// The actions allowed on errors.
pub open spec fn valid_error_action(a: Seq<char>) -> bool {
    a == "continue"@ || a == "abort"@ || a == "skip"@
}

/// Whether `action` is one of continue, abort, skip.
pub fn validate_error_action(action: &str) -> (r: Result<(), String>)
    ensures
        r is Ok <==> valid_error_action(action@),
        r matches Err(e) ==> e@ == "invalid_error_action"@,
{
    if str_eq(action, "continue") || str_eq(action, "abort") || str_eq(action, "skip") {
        Ok(())
    } else {
        Err(owned("invalid_error_action"))
    }
}

} // verus!
