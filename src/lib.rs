//! Mixed-radix numbers: refined integers with a closed arithmetic table, single-digit
//! cycles, multi-digit schemes and filters that split a total into digits and put it back
//! together, and the vivid calendar and clock built on them.

pub mod calendar;
pub mod clock;
pub mod cycle;
pub mod decimal;
pub mod depth;
pub mod filter;
pub mod formatting;
pub mod integral;
pub mod legend;
pub mod mixed;
pub mod output;
pub mod rational;
pub mod time;
pub mod time_format;
pub mod units;
pub mod unix;
