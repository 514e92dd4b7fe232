//! Departure-board client core: query construction, response records and
//! display-ready views of rail announcements.

pub mod locations;
pub mod models;
pub mod query;
pub mod views;
pub mod table;
pub mod api;
