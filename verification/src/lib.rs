pub mod events;
pub mod geometry;
pub mod hittest;
pub mod menu;
pub mod model;
pub mod visual;

pub use events::{KeyCode, KeyModifiers, KeyOutcome, MouseEventKind, PointerOutcome};
pub use geometry::{FontMetrics, Geometry, Viewport};
pub use menu::ContextMenu;
pub use model::MenuItem;
pub use visual::{LayoutError, RenderCache, RowVisual};
