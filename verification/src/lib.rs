//! Unify branch-divergent lazy-sequence producers into one concrete type.

pub mod producer;
pub mod sum;
pub mod unify;

pub use producer::{drain, EmptyProducer, OnceProducer, Producer, VecProducer};
pub use sum::MyIter;
pub use unify::{
    cond_select, lemma_cond_all_false, lemma_cond_first_true, lemma_match_first_hit,
    lemma_match_no_hit, lemma_select_deterministic, lemma_sum_delegates, match_select,
    unify_cond1, unify_cond1_deferred, unify_cond2, unify_cond2_deferred, unify_cond3, unify_match2, unify_match3, UnmatchedScrutinee,
};
