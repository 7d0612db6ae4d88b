//! Form 1040-ES worksheet calculations over exact fixed-point decimals.
//!
//! - [`decimal`]: the [`decimal::Decimal`] amount type and exact rounded arithmetic.
//! - [`common`]: rounding to the cent and clamping, used by every line.
//! - [`self_emp`]: the Self-Employment Tax and Deduction Worksheet.
//! - [`est_tax`]: the Estimated Tax Worksheet and its bracket lookup.
//! - [`models`]: year configuration, brackets, deductions, filing statuses, new estimates.
//! - [`loader`]: bracket schedules read from CSV and grouped for storage.
//! - [`csv_loader`]: estimate inputs read from CSV.
//! - [`utils`], [`ui`], [`file_form`]: typed amounts, form values and file choices.
//! - [`db`]: storage configuration and errors.
//! - [`text`]: string helpers.

pub mod common;
pub mod csv_loader;
pub mod db;
pub mod decimal;
pub mod est_tax;
pub mod file_form;
pub mod loader;
pub mod models;
pub mod self_emp;
pub mod text;
pub mod ui;
pub mod utils;
