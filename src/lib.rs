//! Shops, products and priced product entries: records, validation, filter and
//! update statement building, JSON sanitizing, and an in-process store that
//! carries out every operation with the same rules.
pub mod eval;
pub mod filter;
pub mod json;
pub mod laws;
pub mod model;
pub mod names;
pub mod store;
pub mod update;

pub use filter::{ProductFilter, ShopFilter};
pub use json::{sanitize_underscores_to_empty, JsonValue, Member};
pub use model::{Error, Id, Product, ProductEntry, Shop, Unit};
pub use store::{ListedEntry, Store};
pub use update::ProductUpdate;
