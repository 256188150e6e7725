//! Encoding of measurement points into InfluxDB line protocol.
//!
//! A [`Point`] holds a measurement name, tags, fields and an optional
//! timestamp; [`PointSerialize`] writes it as one line. A record type can
//! instead be registered once as a [`Schema`], whose records are written the
//! same way. The [`client`] module builds the rest of a write request.

pub mod client;
pub mod escape;
pub mod line;
pub mod models;
pub mod schema;
pub mod text;
pub mod traits;

pub use crate::client::{serialize_points, ClientOptions};
pub use crate::models::{InfluxError, Point, Precision, Timestamp, TimestampOptions, Value};
pub use crate::schema::{ConfigurationError, Literal, Member, MemberValue, Role, Schema};
pub use crate::traits::PointSerialize;
