//! Core of a small Wayland compositor: the surface tree with its commit
//! synchronisation, the window space with its stacking order, the seat with
//! its focus router and key handling, the pointer cursor, and the
//! backend's redraw bookkeeping.
pub mod backend;
pub mod cursor;
pub mod focus;
pub mod output;
pub mod seat;
pub mod shell;
pub mod state;
pub mod surface;
