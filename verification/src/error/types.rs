//! The error hierarchy: one enum per component, gathered under `Error`,
//! each with the human-readable text it is shown with.

use vstd::prelude::*;
use crate::text::{cat, cat3, cat4, cat5, cat6, cat7, cat8, dec, decimal, join, join_seq, owned, views};

verus! {

/// Main error type: one variant per component.
#[derive(Debug, Clone)]
pub enum Error {
    /// Configuration errors (loading, parsing, validation).
    Config(ConfigError),
    /// Data errors (reading, validation, formatting).
    Data(DataError),
    /// Processing errors (transformation, computation).
    Processing(ProcessingError),
    /// Output errors (writing, formatting, serialization).
    Output(OutputError),
    /// Plugin errors (loading, execution, communication).
    Plugin(PluginError),
    /// System errors (I/O, memory, network).
    System(SystemError),
}

/// Configuration errors.
#[derive(Debug, Clone)]
pub enum ConfigError {
    /// A configuration file could not be loaded.
    LoadError { path: String, source: String },
    /// A configuration value is invalid.
    ValidationError { message: String, field: Option<String> },
    /// Configuration text could not be parsed.
    ParseError { message: String, line: Option<usize>, column: Option<usize> },
    /// A required key is missing.
    MissingError { key: String, section: Option<String> },
    /// A configuration layer (such as overview.yml) is missing.
    ConfigLayerMissing { survey_code: String, layer: String, path: String },
    /// A configuration file has an unexpected version.
    ConfigVersionMismatch { file_path: String, expected_version: u32, actual_version: u32 },
    /// Two layers could not be merged.
    ConfigMergeError { source_layer: String, target_layer: String, message: String },
    /// An override is invalid.
    InvalidOverride { override_path: String, field: String, message: String },
    /// An unknown environment was named.
    UnknownEnvironment { environment: String, valid_environments: Vec<String> },
    /// A macro could not be resolved.
    MacroResolutionError { macro_name: String, file_path: String, message: String },
    /// A DAG definition is invalid.
    DagValidationError { dag_name: String, message: String },
}

/// Data errors.
#[derive(Debug, Clone)]
pub enum DataError {
    /// A data file could not be read.
    ReadError { path: String, source: String },
    /// Data failed validation.
    ValidationError { message: String, path: Option<String>, line: Option<usize> },
    /// Data is not in the expected format.
    FormatError { message: String, expected: String, actual: String },
    /// Data does not match its schema.
    SchemaError { message: String, field: String, expected_type: String, actual_type: String },
    /// An I/O operation on data failed.
    IoError { path: String, source: String },
}

/// Processing errors.
#[derive(Debug)]
pub enum ProcessingError {
    /// A transformation failed.
    TransformationError { message: String, operation: String },
    /// A computation failed.
    ComputationError { message: String, context: String },
    /// A processing strategy failed.
    StrategyError { strategy: String, message: String },
    /// A pipeline stage failed.
    PipelineError { stage: String, message: String },
    /// An operation is not supported.
    UnsupportedOperation { operation: String, message: String },
    /// The configuration is invalid.
    InvalidConfiguration(String),
    /// A system error during processing.
    SystemError(String),
}

/// Output errors.
#[derive(Debug)]
pub enum OutputError {
    /// Output could not be written.
    WriteError { path: String, source: String },
    /// Output could not be formatted.
    FormatError { format: String, message: String },
    /// Output could not be serialized.
    SerializationError { format: String, message: String },
    /// Output could not be partitioned.
    PartitionError { strategy: String, message: String },
}

/// Plugin errors.
#[derive(Debug)]
pub enum PluginError {
    /// A plugin could not be loaded.
    LoadError { plugin: String, source: String },
    /// A plugin failed while running.
    ExecutionError { plugin: String, message: String },
    /// A plugin could not be reached.
    CommunicationError { plugin: String, message: String },
    /// A plugin is misconfigured.
    ConfigurationError { plugin: String, message: String },
    /// A plugin was not found.
    NotFoundError { plugin: String, message: String },
}

/// System errors.
#[derive(Debug)]
pub enum SystemError {
    /// An I/O operation failed.
    IoError { operation: String, source: String },
    /// Memory could not be allocated.
    MemoryError { message: String, requested_size: Option<usize> },
    /// A network operation failed.
    NetworkError { operation: String, source: String },
    /// A resource is exhausted.
    ResourceError { resource: String, message: String },
    /// A time-related operation failed.
    TimeError { operation: String, message: String },
    /// Text could not be parsed.
    ParseError { format: String, source: String, context: Option<String> },
}

/// A copy of an optional text.
pub(crate) fn copy_opt_text(t: &Option<String>) -> (r: Option<String>)
    ensures
        r == *t,
{
    match t {
        Some(s) => Some(s.clone()),
        None => None,
    }
}

impl Clone for ProcessingError {
    /// An equal copy.
    fn clone(&self) -> (r: Self)
        ensures
            r == *self,
    {
        match self {
            ProcessingError::TransformationError { message, operation } => ProcessingError::TransformationError {
                message: message.clone(),
                operation: operation.clone(),
            },
            ProcessingError::ComputationError { message, context } => ProcessingError::ComputationError {
                message: message.clone(),
                context: context.clone(),
            },
            ProcessingError::StrategyError { strategy, message } => ProcessingError::StrategyError {
                strategy: strategy.clone(),
                message: message.clone(),
            },
            ProcessingError::PipelineError { stage, message } => ProcessingError::PipelineError {
                stage: stage.clone(),
                message: message.clone(),
            },
            ProcessingError::UnsupportedOperation { operation, message } => ProcessingError::UnsupportedOperation {
                operation: operation.clone(),
                message: message.clone(),
            },
            ProcessingError::InvalidConfiguration(m) => ProcessingError::InvalidConfiguration(m.clone()),
            ProcessingError::SystemError(m) => ProcessingError::SystemError(m.clone()),
        }
    }
}

impl Clone for OutputError {
    /// An equal copy.
    fn clone(&self) -> (r: Self)
        ensures
            r == *self,
    {
        match self {
            OutputError::WriteError { path, source } => OutputError::WriteError {
                path: path.clone(),
                source: source.clone(),
            },
            OutputError::FormatError { format, message } => OutputError::FormatError {
                format: format.clone(),
                message: message.clone(),
            },
            OutputError::SerializationError { format, message } => OutputError::SerializationError {
                format: format.clone(),
                message: message.clone(),
            },
            OutputError::PartitionError { strategy, message } => OutputError::PartitionError {
                strategy: strategy.clone(),
                message: message.clone(),
            },
        }
    }
}

impl Clone for PluginError {
    /// An equal copy.
    fn clone(&self) -> (r: Self)
        ensures
            r == *self,
    {
        match self {
            PluginError::LoadError { plugin, source } => PluginError::LoadError {
                plugin: plugin.clone(),
                source: source.clone(),
            },
            PluginError::ExecutionError { plugin, message } => PluginError::ExecutionError {
                plugin: plugin.clone(),
                message: message.clone(),
            },
            PluginError::CommunicationError { plugin, message } => PluginError::CommunicationError {
                plugin: plugin.clone(),
                message: message.clone(),
            },
            PluginError::ConfigurationError { plugin, message } => PluginError::ConfigurationError {
                plugin: plugin.clone(),
                message: message.clone(),
            },
            PluginError::NotFoundError { plugin, message } => PluginError::NotFoundError {
                plugin: plugin.clone(),
                message: message.clone(),
            },
        }
    }
}

impl Clone for SystemError {
    /// An equal copy.
    fn clone(&self) -> (r: Self)
        ensures
            r == *self,
    {
        match self {
            SystemError::IoError { operation, source } => SystemError::IoError {
                operation: operation.clone(),
                source: source.clone(),
            },
            SystemError::MemoryError { message, requested_size } => SystemError::MemoryError {
                message: message.clone(),
                requested_size: *requested_size,
            },
            SystemError::NetworkError { operation, source } => SystemError::NetworkError {
                operation: operation.clone(),
                source: source.clone(),
            },
            SystemError::ResourceError { resource, message } => SystemError::ResourceError {
                resource: resource.clone(),
                message: message.clone(),
            },
            SystemError::TimeError { operation, message } => SystemError::TimeError {
                operation: operation.clone(),
                message: message.clone(),
            },
            SystemError::ParseError { format, source, context } => SystemError::ParseError {
                format: format.clone(),
                source: source.clone(),
                context: copy_opt_text(context),
            },
        }
    }
}

/// The text of a configuration error.
pub open spec fn config_error_text(e: ConfigError) -> Seq<char> {
    match e {
        ConfigError::LoadError { path, source } => "Failed to load config from '"@ + path@ + "': "@
            + source@,
        ConfigError::ValidationError { message, field } => match field {
            Some(f) => "Validation error in field '"@ + f@ + "': "@ + message@,
            None => "Validation error: "@ + message@,
        },
        ConfigError::ParseError { message, line, column } => if line is Some && column is Some {
            "Parse error at line "@ + dec(line->0 as nat) + ", column "@ + dec(column->0 as nat) + ": "@
                + message@
        } else {
            "Parse error: "@ + message@
        },
        ConfigError::MissingError { key, section } => match section {
            Some(s) => "Missing required configuration key '"@ + key@ + "' in section '"@ + s@ + "'"@,
            None => "Missing required configuration key '"@ + key@ + "'"@,
        },
        ConfigError::ConfigLayerMissing { survey_code, layer, path } => "Missing configuration layer '"@
            + layer@ + "' for survey '"@ + survey_code@ + "' at path '"@ + path@ + "'"@,
        ConfigError::ConfigVersionMismatch { file_path, expected_version, actual_version } =>
            "Version mismatch in '"@ + file_path@ + "': expected "@ + dec(expected_version as nat)
            + ", found "@ + dec(actual_version as nat),
        ConfigError::ConfigMergeError { source_layer, target_layer, message } => "Failed to merge '"@
            + source_layer@ + "' into '"@ + target_layer@ + "': "@ + message@,
        ConfigError::InvalidOverride { override_path, field, message } => "Invalid override in '"@
            + override_path@ + "' for field '"@ + field@ + "': "@ + message@,
        ConfigError::UnknownEnvironment { environment, valid_environments } => "Unknown environment '"@
            + environment@ + "'. Valid environments: "@ + join_seq(views(valid_environments@), ", "@),
        ConfigError::MacroResolutionError { macro_name, file_path, message } =>
            "Failed to resolve macro '"@ + macro_name@ + "' in '"@ + file_path@ + "': "@ + message@,
        ConfigError::DagValidationError { dag_name, message } => "DAG validation error in '"@
            + dag_name@ + "': "@ + message@,
    }
}

/// The text of a data error.
pub open spec fn data_error_text(e: DataError) -> Seq<char> {
    match e {
        DataError::ReadError { path, source } => "Failed to read data from '"@ + path@ + "': "@
            + source@,
        DataError::ValidationError { message, path, line } => match path {
            Some(p) => match line {
                Some(l) => "Validation error in '"@ + p@ + "' at line "@ + dec(l as nat) + ": "@
                    + message@,
                None => "Validation error in '"@ + p@ + "': "@ + message@,
            },
            None => "Validation error: "@ + message@,
        },
        DataError::FormatError { message, expected, actual } => "Format error: "@ + message@
            + ". Expected: "@ + expected@ + ", Actual: "@ + actual@,
        DataError::SchemaError { message, field, expected_type, actual_type } =>
            "Schema error in field '"@ + field@ + "': "@ + message@ + ". Expected: "@
            + expected_type@ + ", Actual: "@ + actual_type@,
        DataError::IoError { path, source } => "I/O error at path '"@ + path@ + "': "@ + source@,
    }
}

/// The text of a processing error.
pub open spec fn processing_error_text(e: ProcessingError) -> Seq<char> {
    match e {
        ProcessingError::TransformationError { message, operation } =>
            "Transformation error in operation '"@ + operation@ + "': "@ + message@,
        ProcessingError::ComputationError { message, context } => "Computation error in context '"@
            + context@ + "': "@ + message@,
        ProcessingError::StrategyError { strategy, message } => "Strategy error in '"@ + strategy@
            + "': "@ + message@,
        ProcessingError::PipelineError { stage, message } => "Pipeline error in stage '"@ + stage@
            + "': "@ + message@,
        ProcessingError::UnsupportedOperation { operation, message } => "Unsupported operation '"@
            + operation@ + "': "@ + message@,
        ProcessingError::InvalidConfiguration(message) => "Invalid configuration: "@ + message@,
        ProcessingError::SystemError(message) => "System error: "@ + message@,
    }
}

/// The text of an output error.
pub open spec fn output_error_text(e: OutputError) -> Seq<char> {
    match e {
        OutputError::WriteError { path, source } => "Failed to write output to '"@ + path@ + "': "@
            + source@,
        OutputError::FormatError { format, message } => "Format error in '"@ + format@ + "': "@
            + message@,
        OutputError::SerializationError { format, message } => "Serialization error in '"@
            + format@ + "': "@ + message@,
        OutputError::PartitionError { strategy, message } => "Partition error with strategy '"@
            + strategy@ + "': "@ + message@,
    }
}

/// The text of a plugin error.
pub open spec fn plugin_error_text(e: PluginError) -> Seq<char> {
    match e {
        PluginError::LoadError { plugin, source } => "Failed to load plugin '"@ + plugin@ + "': "@
            + source@,
        PluginError::ExecutionError { plugin, message } => "Execution error in plugin '"@ + plugin@
            + "': "@ + message@,
        PluginError::CommunicationError { plugin, message } => "Communication error with plugin '"@
            + plugin@ + "': "@ + message@,
        PluginError::ConfigurationError { plugin, message } => "Configuration error in plugin '"@
            + plugin@ + "': "@ + message@,
        PluginError::NotFoundError { plugin, message } => "Plugin '"@ + plugin@ + "' not found: "@
            + message@,
    }
}

/// The text of a system error.
pub open spec fn system_error_text(e: SystemError) -> Seq<char> {
    match e {
        SystemError::IoError { operation, source } => "I/O error during '"@ + operation@ + "': "@
            + source@,
        SystemError::MemoryError { message, requested_size } => match requested_size {
            Some(n) => "Memory error (requested "@ + dec(n as nat) + " bytes): "@ + message@,
            None => "Memory error: "@ + message@,
        },
        SystemError::NetworkError { operation, source } => "Network error during '"@ + operation@
            + "': "@ + source@,
        SystemError::ResourceError { resource, message } => "Resource error with '"@ + resource@
            + "': "@ + message@,
        SystemError::TimeError { operation, message } => "Time error during '"@ + operation@
            + "': "@ + message@,
        SystemError::ParseError { format, source, context } => match context {
            Some(c) => "Parse error in format '"@ + format@ + "' with context '"@ + c@ + "': "@
                + source@,
            None => "Parse error in format '"@ + format@ + "': "@ + source@,
        },
    }
}

/// The text of an error, prefixed by its component.
pub open spec fn error_text(e: Error) -> Seq<char> {
    match e {
        Error::Config(c) => "Configuration error: "@ + config_error_text(c),
        Error::Data(d) => "Data error: "@ + data_error_text(d),
        Error::Processing(p) => "Processing error: "@ + processing_error_text(p),
        Error::Output(o) => "Output error: "@ + output_error_text(o),
        Error::Plugin(p) => "Plugin error: "@ + plugin_error_text(p),
        Error::System(s) => "System error: "@ + system_error_text(s),
    }
}

fn usize_text(n: usize) -> (r: String)
    ensures
        r@ == dec(n as nat),
{
    decimal(n as u64)
}

impl Error {
    /// The error's text, prefixed by its component.
    pub fn to_string(&self) -> (r: String)
        ensures
            r@ == error_text(*self),
    {
        match self {
            Error::Config(c) => cat("Configuration error: ", c.to_string().as_str()),
            Error::Data(d) => cat("Data error: ", d.to_string().as_str()),
            Error::Processing(p) => cat("Processing error: ", p.to_string().as_str()),
            Error::Output(o) => cat("Output error: ", o.to_string().as_str()),
            Error::Plugin(p) => cat("Plugin error: ", p.to_string().as_str()),
            Error::System(s) => cat("System error: ", s.to_string().as_str()),
        }
    }
}

impl ConfigError {
    /// An invalid argument, reported as a validation error without a field.
    #[allow(non_snake_case)]
    pub fn InvalidArgument(message: String) -> (e: ConfigError)
        ensures
            e == (ConfigError::ValidationError { message, field: None }),
    {
        ConfigError::ValidationError { message, field: None }
    }

    /// Text that could not be serialized, as a parse error without position.
    #[allow(non_snake_case)]
    pub fn SerializationError(message: String) -> (e: Error)
        ensures
            e == Error::Config(ConfigError::ParseError { message, line: None, column: None }),
    {
        Error::Config(ConfigError::ParseError { message, line: None, column: None })
    }

    /// An unsupported file format, as a parse error without position.
    #[allow(non_snake_case)]
    pub fn UnsupportedFormat(message: String) -> (e: Error)
        ensures
            e == Error::Config(ConfigError::ParseError { message, line: None, column: None }),
    {
        Error::Config(ConfigError::ParseError { message, line: None, column: None })
    }

    /// A required file that is missing, as a load error.
    #[allow(non_snake_case)]
    pub fn MissingFile(path: String) -> (e: Error)
        ensures
            e matches Error::Config(ConfigError::LoadError { path: p, source: s }) && p == path
                && s@ == "File not found"@,
    {
        Error::Config(ConfigError::LoadError { path, source: owned("File not found") })
    }

    /// A merge failure between unknown layers.
    #[allow(non_snake_case)]
    pub fn MergeError(message: String) -> (e: Error)
        ensures
            e matches Error::Config(ConfigError::ConfigMergeError { source_layer: a, target_layer: b, message: m })
                && a@ == "unknown"@ && b@ == "unknown"@ && m == message,
    {
        Error::Config(
            ConfigError::ConfigMergeError {
                source_layer: owned("unknown"),
                target_layer: owned("unknown"),
                message,
            },
        )
    }

    /// A file that does not exist, as a load error.
    #[allow(non_snake_case)]
    pub fn FileNotFound(path: String) -> (e: Error)
        ensures
            e matches Error::Config(ConfigError::LoadError { path: p, source: s }) && p == path
                && s@ == "File not found"@,
    {
        Error::Config(ConfigError::LoadError { path, source: owned("File not found") })
    }

    /// A failed validation without a field.
    #[allow(non_snake_case)]
    pub fn ValidationFailed(message: String) -> (e: ConfigError)
        ensures
            e == (ConfigError::ValidationError { message, field: None }),
    {
        ConfigError::ValidationError { message, field: None }
    }

    /// The error's text.
    pub fn to_string(&self) -> (r: String)
        ensures
            r@ == config_error_text(*self),
    {
        match self {
            ConfigError::LoadError { path, source } => cat4(
                "Failed to load config from '",
                path.as_str(),
                "': ",
                source.as_str(),
            ),
            ConfigError::ValidationError { message, field } => match field {
                Some(f) => cat4("Validation error in field '", f.as_str(), "': ", message.as_str()),
                None => cat("Validation error: ", message.as_str()),
            },
            ConfigError::ParseError { message, line, column } => match (line, column) {
                (Some(l), Some(c)) => cat6(
                    "Parse error at line ",
                    usize_text(*l).as_str(),
                    ", column ",
                    usize_text(*c).as_str(),
                    ": ",
                    message.as_str(),
                ),
                _ => cat("Parse error: ", message.as_str()),
            },
            ConfigError::MissingError { key, section } => match section {
                Some(s) => cat5(
                    "Missing required configuration key '",
                    key.as_str(),
                    "' in section '",
                    s.as_str(),
                    "'",
                ),
                None => cat3("Missing required configuration key '", key.as_str(), "'"),
            },
            ConfigError::ConfigLayerMissing { survey_code, layer, path } => cat7(
                "Missing configuration layer '",
                layer.as_str(),
                "' for survey '",
                survey_code.as_str(),
                "' at path '",
                path.as_str(),
                "'",
            ),
            ConfigError::ConfigVersionMismatch { file_path, expected_version, actual_version } => cat6(
                "Version mismatch in '",
                file_path.as_str(),
                "': expected ",
                decimal(*expected_version as u64).as_str(),
                ", found ",
                decimal(*actual_version as u64).as_str(),
            ),
            ConfigError::ConfigMergeError { source_layer, target_layer, message } => cat6(
                "Failed to merge '",
                source_layer.as_str(),
                "' into '",
                target_layer.as_str(),
                "': ",
                message.as_str(),
            ),
            ConfigError::InvalidOverride { override_path, field, message } => cat6(
                "Invalid override in '",
                override_path.as_str(),
                "' for field '",
                field.as_str(),
                "': ",
                message.as_str(),
            ),
            ConfigError::UnknownEnvironment { environment, valid_environments } => cat4(
                "Unknown environment '",
                environment.as_str(),
                "'. Valid environments: ",
                join(valid_environments, ", ").as_str(),
            ),
            ConfigError::MacroResolutionError { macro_name, file_path, message } => cat6(
                "Failed to resolve macro '",
                macro_name.as_str(),
                "' in '",
                file_path.as_str(),
                "': ",
                message.as_str(),
            ),
            ConfigError::DagValidationError { dag_name, message } => cat4(
                "DAG validation error in '",
                dag_name.as_str(),
                "': ",
                message.as_str(),
            ),
        }
    }
}

impl DataError {
    /// The error's text.
    pub fn to_string(&self) -> (r: String)
        ensures
            r@ == data_error_text(*self),
    {
        match self {
            DataError::ReadError { path, source } => cat4(
                "Failed to read data from '",
                path.as_str(),
                "': ",
                source.as_str(),
            ),
            DataError::ValidationError { message, path, line } => match path {
                Some(p) => match line {
                    Some(l) => cat6(
                        "Validation error in '",
                        p.as_str(),
                        "' at line ",
                        usize_text(*l).as_str(),
                        ": ",
                        message.as_str(),
                    ),
                    None => cat4("Validation error in '", p.as_str(), "': ", message.as_str()),
                },
                None => cat("Validation error: ", message.as_str()),
            },
            DataError::FormatError { message, expected, actual } => cat6(
                "Format error: ",
                message.as_str(),
                ". Expected: ",
                expected.as_str(),
                ", Actual: ",
                actual.as_str(),
            ),
            DataError::SchemaError { message, field, expected_type, actual_type } => cat8(
                "Schema error in field '",
                field.as_str(),
                "': ",
                message.as_str(),
                ". Expected: ",
                expected_type.as_str(),
                ", Actual: ",
                actual_type.as_str(),
            ),
            DataError::IoError { path, source } => cat4(
                "I/O error at path '",
                path.as_str(),
                "': ",
                source.as_str(),
            ),
        }
    }
}

impl DataError {
    /// Missing value.
    pub fn missing_value(message: String) -> (e: DataError)
        ensures
            e == (DataError::ValidationError { message, path: None, line: None }),
    {
        DataError::ValidationError { message, path: None, line: None }
    }

    /// Too many errors.
    pub fn too_many_errors(message: String) -> (e: DataError)
        ensures
            e == (DataError::ValidationError { message, path: None, line: None }),
    {
        DataError::ValidationError { message, path: None, line: None }
    }

    /// Invalid range.
    pub fn invalid_range(message: String) -> (e: DataError)
        ensures
            e == (DataError::ValidationError { message, path: None, line: None }),
    {
        DataError::ValidationError { message, path: None, line: None }
    }

    /// Not implemented.
    pub fn not_implemented(message: String) -> (e: DataError)
        ensures
            e matches DataError::FormatError { message: m, expected: x, actual: a } && m == message && x@ == "implemented feature"@ && a@ == "not implemented"@,
    {
        DataError::FormatError { message, expected: owned("implemented feature"), actual: owned("not implemented") }
    }

    /// An I/O failure at an unknown path.
    pub fn io_error(message: String) -> (e: DataError)
        ensures
            e matches DataError::IoError { path: p, source: s } && p@ == "unknown"@ && s == message,
    {
        DataError::IoError { path: owned("unknown"), source: message }
    }

    /// Invalid configuration.
    pub fn invalid_configuration(message: String) -> (e: DataError)
        ensures
            e == (DataError::ValidationError { message, path: None, line: None }),
    {
        DataError::ValidationError { message, path: None, line: None }
    }

    /// Serialization error.
    pub fn serialization_error(message: String) -> (e: DataError)
        ensures
            e matches DataError::FormatError { message: m, expected: x, actual: a } && m == message && x@ == "valid serializable data"@ && a@ == "invalid data"@,
    {
        DataError::FormatError { message, expected: owned("valid serializable data"), actual: owned("invalid data") }
    }

    /// Invalid value.
    pub fn invalid_value(message: String) -> (e: DataError)
        ensures
            e == (DataError::ValidationError { message, path: None, line: None }),
    {
        DataError::ValidationError { message, path: None, line: None }
    }

    /// Parse error.
    pub fn parse_error(message: String) -> (e: DataError)
        ensures
            e matches DataError::FormatError { message: m, expected: x, actual: a } && m == message && x@ == "valid data format"@ && a@ == "unparseable data"@,
    {
        DataError::FormatError { message, expected: owned("valid data format"), actual: owned("unparseable data") }
    }

    /// Invalid format.
    pub fn invalid_format(message: String) -> (e: DataError)
        ensures
            e matches DataError::FormatError { message: m, expected: x, actual: a } && m == message && x@ == "valid format"@ && a@ == "invalid format"@,
    {
        DataError::FormatError { message, expected: owned("valid format"), actual: owned("invalid format") }
    }

    /// Unsupported format.
    pub fn unsupported_format(message: String) -> (e: DataError)
        ensures
            e matches DataError::FormatError { message: m, expected: x, actual: a } && m == message && x@ == "supported format"@ && a@ == "unsupported format"@,
    {
        DataError::FormatError { message, expected: owned("supported format"), actual: owned("unsupported format") }
    }
}

impl ProcessingError {
    /// A data type that cannot be processed.
    #[allow(non_snake_case)]
    pub fn UnsupportedDataType(message: String) -> (e: ProcessingError)
        ensures
            e matches ProcessingError::UnsupportedOperation { operation: o, message: m } && o@
                == "data type processing"@ && m == message,
    {
        ProcessingError::UnsupportedOperation { operation: owned("data type processing"), message }
    }

    /// A feature that is not implemented.
    #[allow(non_snake_case)]
    pub fn NotImplemented(message: String) -> (e: ProcessingError)
        ensures
            e matches ProcessingError::UnsupportedOperation { operation: o, message: m } && o@
                == "not implemented"@ && m == message,
    {
        ProcessingError::UnsupportedOperation { operation: owned("not implemented"), message }
    }

    /// The error's text.
    pub fn to_string(&self) -> (r: String)
        ensures
            r@ == processing_error_text(*self),
    {
        match self {
            ProcessingError::TransformationError { message, operation } => cat4(
                "Transformation error in operation '",
                operation.as_str(),
                "': ",
                message.as_str(),
            ),
            ProcessingError::ComputationError { message, context } => cat4(
                "Computation error in context '",
                context.as_str(),
                "': ",
                message.as_str(),
            ),
            ProcessingError::StrategyError { strategy, message } => cat4(
                "Strategy error in '",
                strategy.as_str(),
                "': ",
                message.as_str(),
            ),
            ProcessingError::PipelineError { stage, message } => cat4(
                "Pipeline error in stage '",
                stage.as_str(),
                "': ",
                message.as_str(),
            ),
            ProcessingError::UnsupportedOperation { operation, message } => cat4(
                "Unsupported operation '",
                operation.as_str(),
                "': ",
                message.as_str(),
            ),
            ProcessingError::InvalidConfiguration(message) => cat(
                "Invalid configuration: ",
                message.as_str(),
            ),
            ProcessingError::SystemError(message) => cat("System error: ", message.as_str()),
        }
    }
}

impl OutputError {
    /// The error's text.
    pub fn to_string(&self) -> (r: String)
        ensures
            r@ == output_error_text(*self),
    {
        match self {
            OutputError::WriteError { path, source } => cat4(
                "Failed to write output to '",
                path.as_str(),
                "': ",
                source.as_str(),
            ),
            OutputError::FormatError { format, message } => cat4(
                "Format error in '",
                format.as_str(),
                "': ",
                message.as_str(),
            ),
            OutputError::SerializationError { format, message } => cat4(
                "Serialization error in '",
                format.as_str(),
                "': ",
                message.as_str(),
            ),
            OutputError::PartitionError { strategy, message } => cat4(
                "Partition error with strategy '",
                strategy.as_str(),
                "': ",
                message.as_str(),
            ),
        }
    }
}

impl PluginError {
    /// The error's text.
    pub fn to_string(&self) -> (r: String)
        ensures
            r@ == plugin_error_text(*self),
    {
        match self {
            PluginError::LoadError { plugin, source } => cat4(
                "Failed to load plugin '",
                plugin.as_str(),
                "': ",
                source.as_str(),
            ),
            PluginError::ExecutionError { plugin, message } => cat4(
                "Execution error in plugin '",
                plugin.as_str(),
                "': ",
                message.as_str(),
            ),
            PluginError::CommunicationError { plugin, message } => cat4(
                "Communication error with plugin '",
                plugin.as_str(),
                "': ",
                message.as_str(),
            ),
            PluginError::ConfigurationError { plugin, message } => cat4(
                "Configuration error in plugin '",
                plugin.as_str(),
                "': ",
                message.as_str(),
            ),
            PluginError::NotFoundError { plugin, message } => cat4(
                "Plugin '",
                plugin.as_str(),
                "' not found: ",
                message.as_str(),
            ),
        }
    }
}

impl SystemError {
    /// The error's text.
    pub fn to_string(&self) -> (r: String)
        ensures
            r@ == system_error_text(*self),
    {
        match self {
            SystemError::IoError { operation, source } => cat4(
                "I/O error during '",
                operation.as_str(),
                "': ",
                source.as_str(),
            ),
            SystemError::MemoryError { message, requested_size } => match requested_size {
                Some(n) => cat4(
                    "Memory error (requested ",
                    usize_text(*n).as_str(),
                    " bytes): ",
                    message.as_str(),
                ),
                None => cat("Memory error: ", message.as_str()),
            },
            SystemError::NetworkError { operation, source } => cat4(
                "Network error during '",
                operation.as_str(),
                "': ",
                source.as_str(),
            ),
            SystemError::ResourceError { resource, message } => cat4(
                "Resource error with '",
                resource.as_str(),
                "': ",
                message.as_str(),
            ),
            SystemError::TimeError { operation, message } => cat4(
                "Time error during '",
                operation.as_str(),
                "': ",
                message.as_str(),
            ),
            SystemError::ParseError { format, source, context } => match context {
                Some(c) => cat6(
                    "Parse error in format '",
                    format.as_str(),
                    "' with context '",
                    c.as_str(),
                    "': ",
                    source.as_str(),
                ),
                None => cat4("Parse error in format '", format.as_str(), "': ", source.as_str()),
            },
        }
    }
}

impl From<ConfigError> for Error {
    fn from(err: ConfigError) -> (r: Error) {
        Error::Config(err)
    }
}

impl vstd::std_specs::convert::FromSpecImpl<ConfigError> for Error {
    open spec fn obeys_from_spec() -> bool {
        true
    }

    open spec fn from_spec(v: ConfigError) -> Error {
        Error::Config(v)
    }
}

impl From<DataError> for Error {
    fn from(err: DataError) -> (r: Error) {
        Error::Data(err)
    }
}

impl vstd::std_specs::convert::FromSpecImpl<DataError> for Error {
    open spec fn obeys_from_spec() -> bool {
        true
    }

    open spec fn from_spec(v: DataError) -> Error {
        Error::Data(v)
    }
}

impl From<ProcessingError> for Error {
    fn from(err: ProcessingError) -> (r: Error) {
        Error::Processing(err)
    }
}

impl vstd::std_specs::convert::FromSpecImpl<ProcessingError> for Error {
    open spec fn obeys_from_spec() -> bool {
        true
    }

    open spec fn from_spec(v: ProcessingError) -> Error {
        Error::Processing(v)
    }
}

impl From<OutputError> for Error {
    fn from(err: OutputError) -> (r: Error) {
        Error::Output(err)
    }
}

impl vstd::std_specs::convert::FromSpecImpl<OutputError> for Error {
    open spec fn obeys_from_spec() -> bool {
        true
    }

    open spec fn from_spec(v: OutputError) -> Error {
        Error::Output(v)
    }
}

impl From<PluginError> for Error {
    fn from(err: PluginError) -> (r: Error) {
        Error::Plugin(err)
    }
}

impl vstd::std_specs::convert::FromSpecImpl<PluginError> for Error {
    open spec fn obeys_from_spec() -> bool {
        true
    }

    open spec fn from_spec(v: PluginError) -> Error {
        Error::Plugin(v)
    }
}

impl From<SystemError> for Error {
    fn from(err: SystemError) -> (r: Error) {
        Error::System(err)
    }
}

impl vstd::std_specs::convert::FromSpecImpl<SystemError> for Error {
    open spec fn obeys_from_spec() -> bool {
        true
    }

    open spec fn from_spec(v: SystemError) -> Error {
        Error::System(v)
    }
}

} // verus!
