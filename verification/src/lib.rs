//! Numerical core of a roller-coaster track editor: the node schema, the
//! sample records and the decisions that drive the segment builders.

pub mod bridge;
pub mod copy_path;
pub mod force;
pub mod frame;
pub mod geometric;
pub mod math;
pub mod path;
pub mod point;
pub mod reverse_path;
pub mod scalar;
pub mod schema;
pub mod section;
pub mod sim;

pub use frame::Frame;
pub use math::{Float3, Quaternion};
pub use point::Point;
pub use scalar::Scalar;
pub use section::{IterationConfig, Section};
pub use schema::{DurationType, NodeSchema, NodeType, PortId, PropertyId, PropertyIndex};
