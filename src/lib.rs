#![allow(non_camel_case_types)]

pub mod basics;
pub mod excerpt;
pub mod guess;
pub mod largest;
pub mod loader;
pub mod pair;
pub mod shapes;
pub mod summary;
