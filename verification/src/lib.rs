//! A rudimentary HTTP/0.9 `GET` server: the verified request handling logic.
pub mod text;
pub mod response;
pub mod pattern;
pub mod validation;
pub mod stream;
pub mod handler;
pub mod reqhandler;
