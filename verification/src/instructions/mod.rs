pub mod create_challenge;
pub mod distribute_rewards;
pub mod end_challenge;
pub mod join_challenge;

pub use create_challenge::{CreateChallenge, CreateChallengeBumps};
pub use distribute_rewards::{DistributeRewards, DistributeRewardsBumps, Distribution};
pub use end_challenge::EndChallenge;
pub use join_challenge::{JoinChallenge, JoinChallengeBumps};
