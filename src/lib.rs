//! Time tracking and invoicing core: the single active timer and its
//! elapsed-time accounting, the materialization of time entries, invoice
//! totals derived from line items, and sequential invoice numbering.

pub mod error;
pub mod text;
pub mod models;
mod ambient;
pub mod timer;
pub mod timer_laws;
pub mod invoices;
pub mod numbering;
pub mod licensing;
