//! A spaced-repetition flashcard trainer: a tree of decks, the queue of cards
//! that are due, the rule that reschedules a card after a review, and the state
//! machine of one review session.

pub mod args;
pub mod chance;
mod clock;
pub mod collection;
pub mod model;
pub mod session;

pub use clock::current_unix_time;
