//! The instructions, one module for each.

pub mod increment_counter;
