//! Request middleware.

pub mod exclusive_controler;
