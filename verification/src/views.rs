//! Views: one per open panel, each composing a camera orientation model
//! with a double-buffered render target and a projection kind.

pub mod base;
pub mod cylindrical_lambert;
pub mod gnomonic;
pub mod orthographic;
pub mod stereographic;

pub use base::{DragRotation, PanelPoint, ProjectionKind, RenderPlan, RgbaMilli, ViewBase, ViewMode};
pub use cylindrical_lambert::CylindricalLambertView;
pub use gnomonic::GnomonicView;
pub use orthographic::OrthographicView;
pub use stereographic::StereographicView;
