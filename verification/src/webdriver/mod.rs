//! Types following the WebDriver specification.

pub mod browser;
pub mod capabilities;
pub mod instance;
