//! Field-wise arithmetic on four-component integer points.
mod point;

pub use point::{
    add, addr, is_sum, lemma_equal_fields_equal_points, lemma_sum_is_unique,
    lemma_sum_of_sums_doubles, shared_point, sum_fits, Point,
};
