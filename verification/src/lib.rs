//! Verified core of the Qiniu cloud storage SDK: URL-safe Base64, request
//! signing, upload tokens, endpoints, regions, errors and retry decisions.

pub mod base64;
pub mod text;
pub mod digest;
pub mod headers;
pub mod signing;
pub mod credential;
pub mod simple_credential;
pub mod endpoint;
pub mod http_error;
pub mod retrier;
pub mod chooser;
pub mod query;
pub mod region;
pub mod request_error;
pub mod path_params;
pub mod upload_policy;
pub mod upload_token;
pub mod token_providers;
pub mod upload_parts;
pub mod resolver;
pub mod authorization;
pub mod tasks;
pub mod json;
pub mod multipart_body;
pub mod bucket_list;
pub mod bucket_taggings;
pub mod objects_query;
pub mod bucket_private;
pub mod batch_ops;
pub mod resumable_records;
