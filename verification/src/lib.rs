//! Items service: the verified core of a small bookmark API.
//!
//! The library holds the domain types, the request flows of the item
//! handlers, the rules for page ranges, stored rows and error replies, and
//! the extraction of page information from HTML. Database access, HTTP
//! serving and network fetches stand outside the library.
pub mod domain;
pub mod handler;
pub mod repo;
pub mod seed;
