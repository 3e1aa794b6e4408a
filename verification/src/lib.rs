//! The ball entity of a Pong game, modelled in fixed-point playfield
//! coordinates.
//!
//! Positions and sizes are measured in *subunits* (thousandths of a
//! playfield unit), time in milliseconds, and velocity in subunits per
//! millisecond; one subunit per millisecond equals one playfield unit per
//! second. This keeps every quantity an integer, so each contract states
//! the resulting state exactly.

mod ball;
mod geometry;

pub use ball::Ball;
pub use ball::Paddle;
pub use ball::UpdateParams;
pub use ball::BALL_BOUNCE_SPEEDUP_DEN;
pub use ball::BALL_BOUNCE_SPEEDUP_NUM;
pub use ball::BALL_STARTING_SPEED;
pub use ball::HALF_HEIGHT;
pub use ball::HALF_WIDTH;
pub use ball::HEIGHT;
pub use ball::WIDTH;
pub use geometry::Rectangle;
