//! Scheduling core of a geography flashcard trainer: spaced-repetition
//! transitions for learning cards, the correctness threshold applied to a
//! guessed location, and the choice of the next due card.

pub mod timestamp;
pub mod models;
pub mod answer;
pub mod due;
