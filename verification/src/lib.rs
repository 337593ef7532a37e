pub mod error;
pub mod form;
pub mod handlers;
pub mod ident;
pub mod key;
pub mod lifecycle;
pub mod markup;
pub mod service;
pub mod text;
pub mod types;
pub mod utils;
