//! Reading survey files: reader settings, the choice of a reader for a
//! file, and the parsing of the lines of series, observation and lookup
//! files.

use vstd::prelude::*;

pub mod factory;
pub mod mapped;
pub mod records;
pub mod traits;

use factory::{DefaultReaderFactory, ReaderChoice, ReaderFactoryConfig, default_factory_config, factory_configs};

verus! {

/// A reader factory with the default settings.
pub fn create_default_factory() -> (f: DefaultReaderFactory)
    ensures
        default_factory_config(f.config),
        factory_configs(f.reader_configs@, f.config),
{
    DefaultReaderFactory::new()
}

/// A reader factory with the given settings.
pub fn create_factory_with_config(config: ReaderFactoryConfig) -> (f: DefaultReaderFactory)
    requires
        config.default_batch_size * 2 <= usize::MAX,
        config.max_errors * 2 <= usize::MAX,
    ensures
        f.config == config,
        factory_configs(f.reader_configs@, config),
{
    DefaultReaderFactory::with_config(config)
}

/// The reader a default factory chooses for a file of `file_size` bytes.
pub fn create_optimized_reader(path: &str, file_size: Option<u64>) -> (r: crate::error::Result<ReaderChoice>)
    ensures
        (r is Ok) <==> factory::file_type_of(path@) is Some,
{
    let factory = create_default_factory();
    factory.create_optimized_reader(path, file_size)
}

} // verus!
