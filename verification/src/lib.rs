//! A namespaced key-value store, and what an application around it decides.
//!
//! A namespace maps text keys to documents. Every write stores the document
//! as text ([`value`]); every read takes that text for what it looks like.
//! Backends implement the [`Store`] capability ([`store`]): [`MemoryStore`]
//! keeps its rows itself, [`KeyvStore`] keeps them in a table of a SQLite
//! database ([`adapter`], [`sql`], [`driver`]). [`Keyv`] is the facade that
//! callers use ([`keyv`]). What holds of every namespace is proved in
//! [`laws`].
//!
//! Beside the store stand the decisions of the application that need no
//! window and no disk: the colour theme ([`theme`]), the list of font
//! families ([`fonts`]), and what to open or to report ([`window`]).

pub mod adapter;
pub mod builder;
pub mod driver;
pub mod errors;
pub mod fonts;
pub mod keyv;
pub mod laws;
pub mod memory;
pub mod number;
pub mod sql;
pub mod store;
pub mod text;
pub mod theme;
pub mod value;
pub mod window;

pub use adapter::{KeyvStore, KeyvStoreBuilder};
pub use builder::{db_file_name, get_keyv_instance, initialize};
pub use rusqlite_migration::{Migrations, M};
pub use errors::{KeyvError, StoreError};
pub use keyv::{Keyv, DEFAULT_NAMESPACE_NAME};
pub use memory::MemoryStore;
pub use store::{Operation, Store, StoreModel};
pub use theme::{get_theme, saved_theme_value, Theme};
pub use value::Value;
pub use fonts::{font_id, list_fonts, FontCache, FontEntry, FontFace};
pub use window::{
    log_file_path, navigate_to, open_data_directory, open_log_directory, open_log_file,
    toggle_devtools, DevtoolsAction, OpenRequest,
};
