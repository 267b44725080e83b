//! Bring-up scripts, one module per controller family.

pub mod ili934x;
