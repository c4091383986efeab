//! Decision core of a throwaway MongoDB instance for tests.
//!
//! The crate decides; a driver around it acts. Every operation that touches
//! the operating system (creating the state directory, spawning `mongod`,
//! connecting a client, removing the directory again) is described here as a
//! value that the driver carries out, and every outcome comes back as a value.

pub mod endpoint;
pub mod error;
pub mod launch;
pub mod laws;
pub mod layout;
pub mod teardown;
pub mod temp_mongo;
pub mod util;

pub use endpoint::Endpoint;
pub use endpoint::Platform;
pub use error::Error;
pub use error::ErrorInner;
pub use launch::Directive;
pub use launch::Launch;
pub use launch::Report;
pub use teardown::Step;
pub use teardown::Teardown;
pub use temp_mongo::TempMongo;
pub use temp_mongo::TempMongoBuilder;
pub use util::DataSeeder;
pub use util::PortGenerator;
