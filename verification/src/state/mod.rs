pub mod challenge;
pub mod counter;
pub mod participant;

pub use challenge::{Challenge, ChallengeStatus};
pub use counter::GlobalCounter;
pub use participant::Participant;
