//! A dependency-injection catalog.
//!
//! A component is declared as a struct or as an impl block with a function
//! `new`. From the declaration a builder is planned: for each constructor
//! argument the shape of its type decides whether it is borrowed, shared or
//! owned, and which type the catalog is asked for. Builders are registered
//! in a catalog builder, which is then sealed into a catalog. The catalog
//! resolves a requested type to an instance: it finds the one builder for
//! the type, resolves the builder's arguments in turn, honours overrides
//! and scopes, and reports a missing, ambiguous or cyclic dependency as an
//! error.
//!
//! - [`ty`]: type expressions and their classification.
//! - [`syntax`]: declarations as the planning reads them.
//! - [`arg`]: the plan of one constructor argument, and overrides.
//! - [`builder`]: the plan of a component's builder, and its override
//!   setters.
//! - [`component`]: from a declaration to a builder.
//! - [`scope`]: the two lifecycle policies and their cache.
//! - [`instance`]: what a constructed component looks like.
//! - [`model`]: what resolution means, as functions on the catalog's state.
//! - [`catalog`]: the registry and the resolution itself.
//! - [`laws`]: what holds of every resolution.
//! - [`error`]: the errors.

pub mod error;
pub mod ty;
pub mod scope;
pub mod instance;
pub mod arg;
pub mod syntax;
pub mod builder;
pub mod component;
pub mod model;
pub mod catalog;
pub mod laws;
