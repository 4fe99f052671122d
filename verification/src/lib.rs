//! An embedding layer over a dynamically-typed, garbage-collected host
//! runtime: opaque handles to runtime-managed values, typed wrappers with
//! verified downcasting, and registration of native callbacks as methods.
//!
//! The host runtime itself (its heap, its dispatcher, its class storage) is
//! an external collaborator.  Everything this layer can observe of it — the
//! object table, the per-class method tables, the per-object variable slots —
//! is modelled explicitly by [`runtime::Runtime`], and every operation of the
//! capability trait [`Object`] is specified and verified against that model.
//! Invoking a registered native callback is the one step only the host can
//! perform; it goes through the [`dispatch::Dispatcher`] trait, which the
//! embedding program implements.

pub mod any_object;
pub mod array;
pub mod class;
pub mod dispatch;
pub mod error;
pub mod laws;
pub mod object;
pub mod rstring;
pub mod runtime;
pub mod types;
pub mod verified_object;

pub use any_object::AnyObject;
pub use array::Array;
pub use class::Class;
pub use dispatch::Dispatcher;
pub use error::Error;
pub use object::Object;
pub use object::Wrapper;
pub use rstring::RString;
pub use runtime::Runtime;
pub use types::Callback;
pub use types::Value;
pub use types::ValueType;
pub use verified_object::VerifiedObject;
