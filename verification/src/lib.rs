//! Resolution of proxy servers from proxy-related environment variables.
//!
//! Given a target URL and the values of the standard proxy variables
//! (`http_proxy`, `https_proxy`, `ftp_proxy`, `all_proxy`, `no_proxy`, and
//! their uppercase forms), the library decides which proxy, if any, should
//! be used to reach that URL.

pub mod laws;
pub mod resolve;
pub mod text;
pub mod urls;
pub mod vars;

pub use resolve::for_url;
