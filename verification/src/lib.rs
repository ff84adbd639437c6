//! A bounds-checked, forward-only cursor over a pre-tokenized stream.
//!
//! The cursor borrows an immutable sequence of (token, position) pairs and
//! yields them in controlled increments, tracking how many have been
//! consumed so far. Consumption is monotonic and can never exceed the
//! stream's length; an invalid request fails without mutating the cursor.

pub mod laws;
pub mod token_vec;
