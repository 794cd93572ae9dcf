//! Typed composition of command-line arguments for external programs.
//!
//! A record of typed fields is turned into the flat, ordered list of arguments
//! that a program is started with. The traits in [`traits`] say what it means to
//! receive arguments and to emit them, [`std_impls`] and [`support`] hold the
//! emitters to build with, [`derive`] compiles the description of a record into
//! its emission logic, and [`record`] runs that logic on a value.

pub mod attrs;
pub mod derive;
pub mod laws;
pub mod record;
pub mod std_impls;
pub mod support;
pub mod traits;

pub use attrs::{EnumVariant, FieldVariant, Fields, Malformed, Shape, Style, UnclapField, UnclapVariant_};
pub use derive::{
    append_fields, append_variant_arms, do_derive_argument, flag_name_for_field,
    flag_name_for_variant, flag_name_from_ident, unclap_for_enum, unclap_for_struct,
    unclap_for_variant, variant_prelude, wrapped_field, Capability, Derived, FieldCode, FieldError,
    Member, Unsupported, VariantArm, VariantError,
};
pub use record::{append_field, append_struct, append_variant, FieldValue, Value};
pub use support::{capture_single, ArityError, Flag, FlagArg, IsArgumentFlag, Named, SingleArg};
pub use traits::{
    Argument, ArgumentExt, ArgumentReceiver, ArgumentReceiverExt, CommandExt, CommandLine,
};
