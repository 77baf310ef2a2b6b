//! Generating migration configs.

pub mod codecommit;
