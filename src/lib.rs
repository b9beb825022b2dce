//! Breach-intelligence lookups: a tiered cache-aside lookup protocol and the
//! analytics views derived from breach records.

pub mod analytics;
pub mod invitations;
pub mod lookup;
pub mod palette;
pub mod records;
pub mod response;
pub mod text;
