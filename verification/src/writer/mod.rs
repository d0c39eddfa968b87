//! Writing survey data: writer settings, the choice of a writer for an
//! output, and which formats support what.

use vstd::prelude::*;

pub mod factory;
pub mod formats;
pub mod traits;

use factory::{
    DefaultWriterFactory, WriterChoice, WriterFactoryConfig, default_writer_factory_config, format_error_message,
    format_of, kind_of_format, unsupported_format_error, writer_configs, writer_kind_of,
};
use traits::WriterConfig;

verus! {

/// A writer factory with the default settings.
pub fn create_default_factory() -> (f: DefaultWriterFactory)
    ensures
        default_writer_factory_config(f.config),
        writer_configs(f.format_configs@, f.config),
{
    DefaultWriterFactory::new()
}

/// A writer factory with the given settings.
pub fn create_factory_with_config(config: WriterFactoryConfig) -> (f: DefaultWriterFactory)
    requires
        config.default_batch_size * 10 <= usize::MAX,
    ensures
        f.config == config,
        writer_configs(f.format_configs@, config),
{
    DefaultWriterFactory::with_config(config)
}

/// The writer a default factory chooses for a file.
pub fn create_optimized_writer(path: &str) -> (r: crate::error::Result<WriterChoice>)
    ensures
        match format_of(path@) {
            Some(f) => r matches Ok(c) && c.kind == kind_of_format(f),
            None => r matches Err(e) && unsupported_format_error(e, format_error_message(path@)),
        },
{
    let factory = create_default_factory();
    factory.create_optimized_writer(path)
}

/// A writer for a format, with the given settings.
pub fn create_writer_for_format(format: &str, config: WriterConfig) -> (r: crate::error::Result<WriterChoice>)
    ensures
        match writer_kind_of(format@) {
            Some(k) => r matches Ok(c) && c.kind == k && c.config == config,
            None => r matches Err(e) && unsupported_format_error(e, "Unsupported writer format: "@ + format@),
        },
{
    let factory = create_default_factory();
    factory.create_writer(format, config)
}

/// The formats a default factory writes: csv, tsv, parquet, json, jsonl.
pub fn get_supported_formats() -> (r: Vec<String>)
    ensures
        crate::text::views(r@).to_set() == set!["csv"@, "tsv"@, "parquet"@, "json"@, "jsonl"@],
{
    let factory = create_default_factory();
    let r = factory.get_supported_formats();
    proof {
        factory.format_configs.lemma_view_dom();
        let v = crate::text::views(r@);
        assert forall|k: Seq<char>| v.to_set().contains(k) <==> factory.format_configs@.contains_key(k) by {
            if v.to_set().contains(k) {
                assert(v.contains(k));
            }
        }
        assert(v.to_set() =~= set!["csv"@, "tsv"@, "parquet"@, "json"@, "jsonl"@]);
    }
    r
}

/// Whether a format can be compressed.
pub fn format_supports_compression(format: &str) -> (b: bool)
    ensures
        b == (writer_kind_of(format@) is Some),
{
    let factory = create_default_factory();
    factory.supports_compression(format)
}

/// Whether compression is recommended for a format: parquet, json, jsonl.
pub fn is_compression_recommended(format: &str) -> (b: bool)
    ensures
        b == (format@ == "parquet"@ || format@ == "json"@ || format@ == "jsonl"@),
{
    let factory = create_default_factory();
    factory.is_compression_recommended(format)
}

/// The batch size for a format with the default settings: 10000 for
/// parquet, 500 for json and jsonl, 1000 otherwise.
pub fn get_optimal_batch_size(format: &str) -> (n: usize)
    ensures
        n == (if format@ == "parquet"@ {
            10000
        } else if format@ == "json"@ || format@ == "jsonl"@ {
            500
        } else {
            1000int
        }),
{
    let factory = create_default_factory();
    factory.get_optimal_batch_size(format)
}

} // verus!
