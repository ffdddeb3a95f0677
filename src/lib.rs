pub mod batch;
pub mod blocks;
pub mod bootstrap;
pub mod cookie;
pub mod encoding;
pub mod storage;
pub mod types;
