mod fib;
mod rect;
mod sum;

pub use fib::fib;
pub use fib::lemma_fib_base;
pub use fib::lemma_fib_recurrence;
pub use fib::spec_fib;
pub use rect::Rectangle;
pub use sum::lemma_sum_empty;
pub use sum::lemma_sum_reverse;
pub use sum::spec_sum;
pub use sum::sum;
