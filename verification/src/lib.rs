//! Verified core of the website editor API: request validation, error
//! shaping, token material, password checks and the decisions that the
//! services take between their database calls.

pub mod codes;
pub mod text;
pub mod error;
pub mod validation;
pub mod model;
pub mod dto;
pub mod token;
pub mod password;
pub mod service;
pub mod gate;
pub mod store;
pub mod extract;
