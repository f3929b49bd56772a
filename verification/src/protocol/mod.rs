pub mod advertisement;
pub mod bp1_pro;
pub mod codec;
pub mod errors;
pub mod framing;
pub mod models;
pub mod profile;
pub mod router;
pub mod types;
pub mod uuids;
pub mod wrap_v2;
