//! The benchmark's commands and their arguments.

use vstd::prelude::*;

verus! {

/// The provider a command runs against.
#[derive(PartialEq, Eq, Structural, Clone, Copy, Debug)]
pub enum ProviderArg {
    TopkRs,
    TopkPy,
    TpufPy,
    Chroma,
}

/// The arguments of `cleanup`.
pub struct CleanupArgs {
    /// Target provider
    pub provider: ProviderArg,
    /// Wet run
    pub wet: bool,
}

/// The arguments of `delete-collection`.
pub struct DeleteCollectionArgs {
    /// Target collection
    pub collection: String,
    /// Target provider
    pub provider: ProviderArg,
}

/// The arguments of `ingest`.
pub struct IngestArgs {
    /// Target collection
    pub collection: String,
    /// Target provider
    pub provider: ProviderArg,
    /// Number of documents per upsert request
    pub batch_size: usize,
    /// Number of concurrent writers
    pub concurrency: usize,
    /// Name of the dataset to ingest
    pub dataset: Option<String>,
    /// Input file to ingest
    pub input: Option<String>,
}

/// The arguments of `list-collections`.
pub struct ListCollectionsArgs {
    /// Target provider
    pub provider: ProviderArg,
}

/// The arguments of `query`.
pub struct QueryArgs {
    /// Target collection
    pub collection: String,
    /// Name of the dataset to query
    pub dataset: Option<String>,
    /// Input file to query
    pub input: Option<String>,
    /// Target provider
    pub provider: ProviderArg,
    /// Number of concurrent queries
    pub concurrency: usize,
    /// Timeout in seconds
    pub timeout: u64,
    /// Numeric filter
    pub int_filter: Option<u32>,
    /// Keyword filter
    pub keyword_filter: Option<String>,
    /// Top K
    pub top_k: u32,
}

/// The benchmark's commands.
pub enum Commands {
    /// Ingest data into the benchmark
    Ingest(IngestArgs),
    /// Query data from the benchmark
    Query(QueryArgs),
    /// List collections
    ListCollections(ListCollectionsArgs),
    /// Delete collection
    DeleteCollection(DeleteCollectionArgs),
}

/// The benchmark's command line.
pub struct BenchArgs {
    pub command: Commands,
}

/// Where the data of a run comes from.
pub enum DataSource {
    /// A data set in the bucket, by key.
    Bucket(String),
    /// A local file.
    File(String),
}

/// The data of a run: the named data set when there is one, else the input
/// file; an error when neither is given.
pub fn data_source(dataset: Option<String>, input: Option<String>) -> (r: Result<DataSource, String>)
    ensures
        dataset is Some ==> (r matches Ok(DataSource::Bucket(k)) && k == dataset->0),
        dataset is None && input is Some ==> (r matches Ok(DataSource::File(p)) && p == input->0),
        dataset is None && input is None ==> (r matches Err(m) && m@ == "Either dataset or input file must be provided"@),
{
    match dataset {
        Some(d) => Ok(DataSource::Bucket(d)),
        None => match input {
            Some(i) => Ok(DataSource::File(i)),
            None => Err("Either dataset or input file must be provided".to_owned()),
        },
    }
}

} // verus!
