//! Verified core of the Hone personal-finance web server: the
//! authentication policy, MCP OAuth resource-server helpers, reporting
//! periods, explore-mode conversation sessions, CSV import bookkeeping,
//! merchant-name normalization, tagging, backups, and the checks each REST
//! endpoint makes on its requests.

pub mod text;
pub mod json;
pub mod oauth;
pub mod net;
pub mod config;
pub mod auth;
pub mod error;
pub mod periods;
pub mod explore;
pub mod numbers;
pub mod merchants;
pub mod imports;
pub mod tagging;
pub mod paging;
pub mod handlers;
pub mod scheduler;
pub mod router;
pub mod jwt;
pub mod mcp;
