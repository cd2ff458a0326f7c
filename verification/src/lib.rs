//! Derives a builder for a record type.
//!
//! A type declaration ([`schema`]) is read into one bare descriptor per
//! field ([`reader`]); each field's declared type is classified as plain,
//! optional or collection ([`classify`]); its annotations are resolved to an
//! accumulator alias ([`resolve`]); and the emitter lays out the builder, one
//! storage slot per field and the methods that fill the slots ([`emit`]).
//! [`derive`] runs these steps in order and stops at the first error
//! ([`error`]).
//!
//! What the generated builder does when it runs, its methods and its
//! `build`, is defined in [`runtime`] over the values of [`value`], and
//! [`laws`] proves what holds of every generated builder.

use vstd::prelude::*;

pub mod classify;
pub mod descriptor;
pub mod emit;
pub mod error;
pub mod laws;
pub mod reader;
pub mod resolve;
pub mod runtime;
pub mod schema;
pub mod search;
pub mod types;
pub mod value;

verus! {

/// The builder generated for a declaration, or the error that stops the
/// generation: what the emitter makes of the declaration's descriptor.
pub open spec fn derive_spec(input: schema::TypeDeclView) -> Result<
    emit::GeneratedBuilderView,
    error::GenErrorView,
> {
    match reader::describe_spec(input) {
        Ok(d) => Ok(emit::emit_spec(d)),
        Err(e) => Err(e),
    }
}

/// Generates the builder of a type declaration. Nothing is generated for a
/// declaration that is refused.
pub fn derive(input: &schema::TypeDecl) -> (res: Result<emit::GeneratedBuilder, error::GenError>)
    ensures
        error::outcome(res) == derive_spec(input@),
        res matches Ok(generated) ==> generated@.wf(),
{
    match reader::describe(input) {
        Ok(d) => Ok(emit::emit(&d)),
        Err(e) => Err(e),
    }
}

} // verus!
