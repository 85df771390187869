//! A reusable in-application menu/widget layer for a retained-mode UI tree
//! owned by an external rendering host.
//!
//! The library owns the stateful cores of the widget layer and proves them
//! consistent: the menu navigation state machine (a stack of menu levels
//! driven by navigation events), the menu tree builder (materializing the
//! top of the stack as an ordered list of wired buttons), the popup
//! controller of the dropdown/combobox widget (one open popup at a time,
//! closed on outside clicks, repositioned only when its anchor moves), and
//! the hover recolorer. The host performs the actual tree mutation: the
//! library hands it plain values describing what to show and which commands
//! to apply.

pub mod config;
pub mod layouts;
pub mod main_menu;
pub mod settings;
pub mod utils;
