//! Crawl orchestration for a remote NFT collection catalog: a worklist engine
//! with a shared rate gate, a bounded number of fetches in flight and bounded
//! retries; a consumer for a live notification feed; and the catalog filters.
pub mod crawler;
pub mod feed;
pub mod filters;
pub mod magiceden;
