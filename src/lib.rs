//! A small plugin that keeps a roster of people and greets each of them
//! every time a repeating two-second timer completes.

pub mod greet;
pub mod people;
pub mod schedule;
pub mod timer;

pub use greet::{greet_people, greeting_line, HelloPlugin};
pub use people::{add_people, Name, Person};
pub use timer::{GreetTimer, GREET_INTERVAL_NS};
