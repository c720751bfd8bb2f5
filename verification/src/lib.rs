//! Authentication and token lifecycle engine: access and refresh tokens,
//! refresh sessions, single-use email validation codes and the mail
//! notification pipeline, as decisions over plain values.

pub mod config;
pub mod controller;
pub mod exception;
pub mod model;
pub mod notifier;
pub mod service;
pub mod util;
