//! Collects the achievement and book identifiers of one account from a
//! stream of decoded game commands, checks them against reference data, and
//! produces a versioned export document.

pub mod database;
pub mod exporter;

pub use database::{BootstrapError, Database};
pub use exporter::{
    Achievement, Book, Command, Export, Material, Metadata, OptimizerExporter, Quest, QuestStatus,
};

