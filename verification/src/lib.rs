//! The viewport of a table browser: which rows are loaded, how row and column
//! filters reshape them, and where the cursor stands.
//!
//! The view reads nothing itself. Whoever drives it reads the rows it asks
//! for and hands them in; see [`RowsView::handle_control`] and
//! [`RowsView::complete`].

pub mod control;
pub mod filter;
pub mod laws;
pub mod pattern;
pub mod row;
pub mod selection;
pub mod state;
pub mod view;

pub use crate::control::{Control, CursorMove};
pub use crate::filter::{ColumnsFilter, RowsFilter};
pub use crate::row::Row;
pub use crate::selection::{Selection, SelectionDimension, SelectionType};
pub use crate::view::{Fetch, Reload, RowsView};
