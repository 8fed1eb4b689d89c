//! Verified core of a decentralized, scalable WebDriver grid: parsing of image and
//! browser definitions, capability matching, scheduling decisions and lifecycle rules.

pub mod text;
pub mod identifier;
pub mod webdriver;
pub mod container;
pub mod harness;
pub mod events;
pub mod requests;
pub mod scheduling;
pub mod options;
pub mod discovery;
pub mod gangway;
pub mod creation;
pub mod json;
pub mod provisioner;
pub mod api;
pub mod redis_log;
pub mod services;
