//! Verified core of a terminal news reader: the list-navigation state
//! machine, the width-aware text layout engine, the view composer that
//! turns model state into renderable rows, and the input dispatcher.

pub mod article;
pub mod config;
pub mod input;
pub mod model;
pub mod text;
pub mod view;
