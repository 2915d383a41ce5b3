//! Request handling of the REST API: request and response types, and the
//! checks and decisions each endpoint makes around its storage calls.

pub mod transactions;
pub mod backup;
pub mod audit;
pub mod detection;
pub mod export;
pub mod feedback;
pub mod insights;
pub mod ollama;
pub mod subscriptions;
pub mod reports;
pub mod suggestions;
pub mod tags;
pub mod splits;
pub mod training;
pub mod trips;
pub mod entities;
pub mod accounts;
pub mod alerts;
pub mod receipts;
pub mod locations;
