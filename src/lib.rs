//! Account and podcast administration console: the decisions behind each
//! command, the validated terminal input that feeds them, and an in-memory
//! model of the account stores on which the cascading delete is carried out.
pub mod outside;
pub mod role;
pub mod text;
pub mod input;
pub mod models;
pub mod store;
pub mod accounts;
pub mod command;
pub mod podcasts;
