//! The command surface of the companion benchmark tool.
//!
//! Argument parsing and environment handling live outside this library;
//! these are the parsed commands and their defaults.

use vstd::prelude::*;

verus! {

/// A wrapper struct for subcommands.
pub struct Cli {
    pub subcommand: Subcommand,
}

/// Top-level commands of the benchmark tool.
pub enum Subcommand {
    Install,
    Bench(CorpusArgs),
}

/// Which corpus a benchmark command addresses.
pub struct CorpusArgs {
    pub corpus: Corpus,
}

/// The benchmark datasets to run or generate.
pub enum Corpus {
    Eslogs(EsLogsArgs),
    Hits(HitsArgs),
}

/// The command to run on the eslogs corpus.
pub struct EsLogsArgs {
    pub command: EsLogsCommand,
}

/// The command to run on the hits corpus.
pub struct HitsArgs {
    pub command: HitsCommand,
}

/// Commands over the eslogs corpus.
pub enum EsLogsCommand {
    Generate { seed: u64, events: u64, table: String, url: String },
    BuildSearchIndex { table: String, index: String, url: String },
    QuerySearchIndex { index: String, query: String, limit: u64, url: String },
    BuildParquetTable { table: String, url: String },
    CountParquetTable { table: String, url: String },
    BuildElasticIndex { table: String, url: String, elastic_url: String },
    QueryElasticIndex { field: String, term: String, elastic_url: String },
}

/// Commands over the hits corpus.
pub enum HitsCommand {
    Run { workload: String, url: String, full: bool },
}

/// The default table name of the eslogs corpus.
pub fn default_eslogs_table() -> (r: String)
    ensures
        r@ == "benchmark_eslogs"@,
{
    String::from_str("benchmark_eslogs")
}

/// The default search-index name of the eslogs corpus.
pub fn default_eslogs_index() -> (r: String)
    ensures
        r@ == "benchmark_eslogs_pg_search"@,
{
    String::from_str("benchmark_eslogs_pg_search")
}

} // verus!
