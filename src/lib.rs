pub mod http;
pub mod request;
pub mod paths;
pub mod metadata;
pub mod templates;
pub mod server;
pub mod assets;
