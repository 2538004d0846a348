//! A read-only catalog and order browser: the entity model, the parameterized
//! queries behind each resource, the scoping of fetched rows to their parent
//! entity, the page each request handler composes, and the analog clock of a
//! named time zone.

pub mod model;
pub mod params;
pub mod gateway;
pub mod clock;
pub mod views;
pub mod handlers;
