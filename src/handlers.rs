//! The request pipeline.

pub mod proxy;
