//! Documentation lookup core: tool dispatch, provider request planning,
//! response normalisation and a memoising cache.
pub mod cache;
pub mod devdocs;
pub mod dispatch;
pub mod error;
pub mod golang;
pub mod json;
pub mod markdown;
pub mod npm;
pub mod pypi;
pub mod request;
pub mod router;
pub mod session;
pub mod text;
pub mod tools;

