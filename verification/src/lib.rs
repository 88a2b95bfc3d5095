pub mod encoding;
pub mod expect;
pub mod handle;
pub mod kinds;
pub mod laws;
pub mod model;
pub mod record;
pub mod status;
