//! The traits that give the devices their methods.
pub use crate::keyboard::KeyboardInterface;
pub use crate::mouse::MouseInterface;
pub use crate::touch::TouchInterface;
