pub mod atom;
pub mod model;
pub mod resolve;
pub mod timestamp;
pub mod feed;
pub mod upstream;
pub mod discovery;
