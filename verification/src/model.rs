//! The value types of the simulation: the actor, the playing field and the
//! collectible, together with the movement rules they obey.

pub mod apple;
pub mod field;
pub mod snake;

pub use apple::Apple;
pub use field::Field;
pub use snake::BodyProperties;
pub use snake::Direction;
pub use snake::Snake;
