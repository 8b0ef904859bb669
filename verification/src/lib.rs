//! A W3C WebDriver front end for Chrome's DevTools Protocol: the request
//! parsing, command building, reply interpretation and response shaping,
//! with their contracts.
pub mod json;
pub mod text;
pub mod error;
pub mod cdp;
pub mod chrome;
pub mod input;
pub mod elements;
pub mod session;
pub mod page;
pub mod scripts;
pub mod cookies;
pub mod admin;
pub mod connect;
