//! Core logic of the Leitsys spaced-repetition web client: calendar
//! arithmetic, input parsing and validation, session state, the request
//! table of the backend API and the interpretation of its replies.

pub mod calendar;
pub mod text;
pub mod password;
pub mod session;
pub mod api;
pub mod forms;
pub mod agenda;
pub mod review;
pub mod steps;
