//! Unattended installation front-end: the answer schema with its validation
//! rules, the certificate pin of the HTTPS client, the choice of the answer
//! source, and the records exchanged with the installer proper.

pub mod answer;
pub mod fetch;
pub mod http;
pub mod options;
pub mod setup;
pub mod utils;
