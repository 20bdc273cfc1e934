//! Data model of a personal finance tracker: income and expense categories
//! and the record of a single transaction.

pub mod date;
pub mod models;

pub use date::Date;
pub use models::{Category, ExpenseCategory, IncomeCategory, Item};
