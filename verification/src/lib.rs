//! Intrusive reference counting: a counter that lives inside the value it
//! counts the owners of, and handles that share the value by it.

pub mod counted;
pub mod exclusive_pin;
pub mod heap;
pub mod identity;
pub mod laws;
pub mod pin;
pub mod ref_counter_api;
pub mod sync;
pub mod tip_toe;

pub use counted::Counted;
pub use exclusive_pin::ExclusivePin;
pub use heap::Heap;
pub use identity::Identified;
pub use identity::TypeId;
pub use pin::Pin;
pub use ref_counter_api::RefCounter;
pub use sync::Arc;
pub use tip_toe::ManagedClone;
pub use tip_toe::TipToe;
pub use tip_toe::TipToed;
