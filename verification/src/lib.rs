//! Request and response model of a routing web service in the style of the
//! OSRM HTTP API: the services, their option sets, the closed enumerations
//! that constrain the options, and the response status taxonomy.
//!
//! Every enumeration has one canonical wire token per variant; rendering and
//! parsing both go by that single table, and parsing a rendered token gives
//! the variant back.

pub mod request;
pub mod response;
pub mod text;
pub mod wire;
