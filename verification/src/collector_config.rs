//! The collector's configuration.

use vstd::prelude::*;

verus! {

/// The sizes and times that the collector works with. The queue sizes are read
/// once, when the queues are made at startup.
#[derive(Clone, Copy, Debug, PartialEq, Eq, Structural)]
pub struct Config {
    /// How many documents the queue in front of the batcher holds.
    pub input_buffer_size: usize,
    /// How many batches the queue in front of the indexer holds.
    pub quickwit_output_buffer_size: usize,
    /// How many documents make a full batch.
    pub quickwit_batch_size: usize,
    /// How many milliseconds a batch may wait for more documents.
    pub quickwit_batch_max_interval: u64,
}

impl Default for Config {
    fn default() -> (r: Self)
        ensures
            r == (Config {
                input_buffer_size: 20_000,
                quickwit_output_buffer_size: 20_000,
                quickwit_batch_size: 100,
                quickwit_batch_max_interval: 1_000,
            }),
    {
        Config {
            input_buffer_size: 20_000,
            quickwit_output_buffer_size: 20_000,
            quickwit_batch_size: 100,
            quickwit_batch_max_interval: 1_000,
        }
    }
}

/// The seconds of the connect timeout of the client that posts to the backend.
pub const CONNECT_TIMEOUT_SECS: u64 = 5;

/// The path of the ingest endpoint of an index, relative to the address of the
/// backend.
pub open spec fn ingest_path_of(index_id: Seq<char>) -> Seq<char> {
    "api/v1/"@ + index_id + "/ingest"@
}

/// The path of the ingest endpoint of an index.
pub fn ingest_path(index_id: &str) -> (r: String)
    ensures
        r@ == ingest_path_of(index_id@),
{
    let mut path = String::from_str("api/v1/");
    path.append(index_id);
    path.append("/ingest");
    path
}

} // verus!
