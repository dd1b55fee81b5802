//! The SQL text behind the database maintenance commands.

use vstd::prelude::*;

verus! {

/// The statement that creates a table.
pub open spec fn create_sql(t: TableName) -> Seq<char> {
    match t {
        TableName::Players => "\n        CREATE TABLE IF NOT EXISTS players (\n            id SERIAL PRIMARY KEY,\n            uuid VARCHAR(255) NOT NULL,\n            games_played INTEGER DEFAULT 0\n            );\n    "@,
        TableName::Users => "\n        CREATE TABLE IF NOT EXISTS users (\n            id SERIAL PRIMARY KEY,\n            email VARCHAR(255) UNIQUE NOT NULL,\n            username VARCHAR(255) UNIQUE NOT NULL,\n            password VARCHAR(255) NOT NULL,\n            creation_date TIMESTAMP NOT NULL DEFAULT CURRENT_TIMESTAMP,\n            uuid VARCHAR(255) NOT NULL,\n            authority VARCHAR(255) NOT NULL DEFAULT 'user'\n        );\n    "@,
    }
}

/// The statement that resets a table.
pub open spec fn reset_sql(t: TableName) -> Seq<char> {
    match t {
        TableName::Players => "TRUNCATE players RESTART IDENTITY;"@,
        TableName::Users => "TRUNCATE users RESTART IDENTITY;"@,
    }
}

#[derive(Debug, Clone, Copy, PartialEq, Eq, Structural)]
pub enum TableName {
    Players,
    Users,
}

impl TableName {
    pub fn create(&self) -> (r: &'static str)
        ensures
            r@ == create_sql(*self),
    {
        match self {
            TableName::Players => "\n        CREATE TABLE IF NOT EXISTS players (\n            id SERIAL PRIMARY KEY,\n            uuid VARCHAR(255) NOT NULL,\n            games_played INTEGER DEFAULT 0\n            );\n    ",
            TableName::Users => "\n        CREATE TABLE IF NOT EXISTS users (\n            id SERIAL PRIMARY KEY,\n            email VARCHAR(255) UNIQUE NOT NULL,\n            username VARCHAR(255) UNIQUE NOT NULL,\n            password VARCHAR(255) NOT NULL,\n            creation_date TIMESTAMP NOT NULL DEFAULT CURRENT_TIMESTAMP,\n            uuid VARCHAR(255) NOT NULL,\n            authority VARCHAR(255) NOT NULL DEFAULT 'user'\n        );\n    ",
        }
    }

    pub fn reset(&self) -> (r: &'static str)
        ensures
            r@ == reset_sql(*self),
    {
        match self {
            TableName::Players => "TRUNCATE players RESTART IDENTITY;",
            TableName::Users => "TRUNCATE users RESTART IDENTITY;",
        }
    }
}

#[derive(Debug, Clone, Copy, PartialEq, Eq, Structural)]
pub struct Table {
    pub name: TableName,
}

impl Table {
    pub fn create(&self) -> (r: &'static str)
        ensures
            r@ == create_sql(self.name),
    {
        self.name.create()
    }

    pub fn reset(&self) -> (r: &'static str)
        ensures
            r@ == reset_sql(self.name),
    {
        self.name.reset()
    }
}

} // verus!
