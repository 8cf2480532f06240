//! A system-tray icon with a hierarchical menu: the menu model and its
//! builder, the compilation of a menu into native items with integer
//! identifiers, the shared tray state, and the state machine that turns native
//! notifications into typed events for the application callback.
use vstd::prelude::*;

pub mod builder;
pub mod compile;
pub mod event;
pub mod menu;
pub mod state;
pub mod wide;

pub use builder::TrayIconBuilder;
pub use compile::{CompiledMenu, MAX_MENU_ID};
pub use event::{decode_message, EventHook, NativeEvent, Reaction, LOWORD};
pub use menu::{ClickType, Menu, MenuItem, TrayEvent};
pub use state::SharedTrayState;
pub use wide::encode_wide;

verus! {

} // verus!
