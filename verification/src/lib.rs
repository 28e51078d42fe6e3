//! A verified batch publisher core: the decision logic of a single-shot
//! tool that reads a text file line by line and forwards each line as one
//! message to a Pulsar topic.
//!
//! The library holds everything that decides: credential precedence and the
//! OAuth2 credentials artifact, the TLS broker address and fully-qualified
//! topic name, the sequential publish loop with its failure policy, and the
//! progress accounting. The process shell around it only performs I/O and
//! hands plain values in and out.

pub mod config;
pub mod credentials;
pub mod errors;
pub mod json;
pub mod publish;
pub mod text;
pub mod topic;
