//! Publishing the agent card to Anypoint Exchange, as a new version of an asset.

pub mod multipart;
pub mod publish;
