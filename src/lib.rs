//! Measurements carried together with their absolute uncertainty, combined by
//! linear (worst-case) error propagation.
//!
//! Every quantity is held exactly, as an integer count of `1/scale`: a
//! measurement `(v, u, s)` stands for the value `v / s` with uncertainty
//! `u / s`. Results are therefore exact rationals; the operations report an
//! error instead of losing precision or silently producing a meaningless value.
mod laws;
mod measurement;

pub use measurement::{Measurement, MeasurementView, PropagationError};
pub use laws::{
    lemma_product_propagates, lemma_quotient_propagates, lemma_uncertainty_never_decreases,
    relative_uncertainties_add, uncertainty_at_least, value_is_product, value_is_quotient,
};
