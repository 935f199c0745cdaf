//! Crawler for a remote catalogue of municipal ordinances ("jorei").
//!
//! The library holds the logic of a crawl: the two query URLs the remote
//! search API accepts, the conversion of remote UTC instants to civil dates
//! in UTC+9, the mapping of a raw record onto the persisted record and its
//! index entry, and the pagination driver as a state machine from events to
//! actions. Performing the HTTP requests, the file writes and the sleeps is
//! left to the caller.

pub mod crawl;
pub mod date;
pub mod query;
pub mod record;
