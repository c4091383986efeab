//! Seed data for one collection.

use vstd::prelude::*;
use mongodb::bson::Document;

verus! {

/// Data seed options for a MongoDB instance.
///
/// `database_name` and `collection_name` say where the documents go.
#[derive(Debug, Clone, PartialEq)]
pub struct DataSeeder {
    /// The name of the database to seed.
    pub database_name: String,
    /// The name of the collection to seed.
    pub collection_name: String,
    /// The documents to be seeded into the collection.
    pub documents: Vec<Document>,
}

impl DataSeeder {
    /// Seed data with empty names and no documents.
    pub fn new() -> (seeder: Self)
        ensures
            seeder.database_name@ == Seq::<char>::empty(),
            seeder.collection_name@ == Seq::<char>::empty(),
            seeder.documents@ == Seq::<Document>::empty(),
    {
        DataSeeder {
            database_name: String::new(),
            collection_name: String::new(),
            documents: Vec::new(),
        }
    }

    /// Seed data with the given names and documents. Nothing is taken from
    /// `self`.
    pub fn new_in(
        &self,
        database_name: &str,
        collection_name: &str,
        documents: Vec<Document>,
    ) -> (seeder: Self)
        ensures
            seeder.database_name@ == database_name@,
            seeder.collection_name@ == collection_name@,
            seeder.documents == documents,
    {
        DataSeeder {
            database_name: String::from_str(database_name),
            collection_name: String::from_str(collection_name),
            documents,
        }
    }

    /// Seed data with the given names and documents, the names given as
    /// `String`s. Nothing is taken from `self`.
    pub fn new_in_with_string(
        &self,
        database_name: &String,
        collection_name: &String,
        documents: Vec<Document>,
    ) -> (seeder: Self)
        ensures
            seeder.database_name@ == database_name@,
            seeder.collection_name@ == collection_name@,
            seeder.documents == documents,
    {
        DataSeeder {
            database_name: database_name.clone(),
            collection_name: collection_name.clone(),
            documents,
        }
    }
}

} // verus!
