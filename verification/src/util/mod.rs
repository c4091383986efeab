//! The parts that an instance is made of, and the seed data.

pub mod document;
pub mod kill_on_drop;
pub mod port_finder;
pub mod seed_data;
pub mod seed_data_structures;
pub mod temp_dir;

pub use kill_on_drop::KillOnDrop;
pub use port_finder::PortGenerator;
pub use seed_data::Cell;
pub use seed_data::SeedData;
pub use seed_data::SheetError;
pub use seed_data_structures::DataSeeder;
pub use temp_dir::TempDir;
