//! An error propagation core: a matchable error taxonomy, a container that
//! holds any failure together with the context layered on it, and the
//! rendering and recovery of what it holds.

mod categorized;
mod container;
mod laws;
mod numbers;
mod patterns;

pub use categorized::TcrApiError;
pub use container::{
    caught, failure_text, rendered, separator, widen, AnyError, AnyErrorView, AnyResult, Failure,
};
pub use laws::{
    lemma_context_keeps_inner, lemma_context_order, lemma_downcast_through_contexts,
    lemma_foreign_never_categorized, lemma_message_never_categorized,
    lemma_rendered_ends_with_root, lemma_with_contexts,
};
pub use numbers::{
    decimal_value, is_decimal, parse_number, parses_as_u8, u8_parse_error_text, unsigned_digits,
};
pub use patterns::{
    cant_have_result_with_different_error_types, errors_with_context, get_data, lookup,
    one_off_errors, potentially_common_error, specific_error_with_context, value_of,
};
