use crate::filter::FilterType;
use vstd::prelude::*;

verus! {

/// Number of workers that fetch listing pages in parallel.
pub const FETCH_WORKERS: usize = 5;

/// Number of workers that extract candidates and decode them in parallel.
pub const DECRYPT_WORKERS: usize = 10;

/// How a crawl is set up.
#[derive(Clone, Copy, Debug)]
pub struct Config {
    /// The first page to fetch.
    pub start_page: u16,
    /// The last page to fetch; the largest page number stands for no bound.
    pub end_page: u16,
    /// Which items to keep.
    pub filter: FilterType,
    /// The size of the fetch pool.
    pub fetch_workers: usize,
    /// The size of the pool that extracts, decodes and saves.
    pub decrypt_workers: usize,
}

impl Config {
    /// The capacity of the page queue: the size of the pool that reads it.
    pub fn page_queue_capacity(&self) -> (capacity: usize)
        ensures
            capacity == self.fetch_workers,
    {
        self.fetch_workers
    }

    /// The capacity of the content queue: the size of the pool that reads it.
    pub fn content_queue_capacity(&self) -> (capacity: usize)
        ensures
            capacity == self.decrypt_workers,
    {
        self.decrypt_workers
    }
}

impl Default for Config {
    fn default() -> (config: Config)
        ensures
            config.start_page == 1,
            config.end_page == u16::MAX,
            config.filter == FilterType::All,
            config.fetch_workers == FETCH_WORKERS,
            config.decrypt_workers == DECRYPT_WORKERS,
    {
        Config {
            start_page: 1,
            end_page: u16::MAX,
            filter: FilterType::All,
            fetch_workers: FETCH_WORKERS,
            decrypt_workers: DECRYPT_WORKERS,
        }
    }
}

} // verus!
