//! Decisions behind a Discord bot that sells game-server commands for
//! Lightning payments: amounts, invoices, payment polling and the RCON
//! requests that deliver what was paid for.
pub mod decimal;
pub mod text;
pub mod json;
pub mod qr;
pub mod product;
pub mod battlemetrics;
pub mod commands;
