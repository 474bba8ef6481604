pub mod client;
pub mod codec;
pub mod errno;
pub mod error;
pub mod fcall;
pub mod flags;
pub mod frame;
pub mod lerror;
pub mod layout;
pub mod lists;
pub mod lserver;
pub mod proxy;
pub mod requests;
pub mod server;
pub mod shadow;
pub mod wire;
