//! The processing engine: the traversal context, the contracts between
//! processors and processable values, and what a traversal does.

pub mod action;
pub mod model;
pub mod state;
pub mod traits;
pub mod tuples;
pub mod walk;
pub mod impls;
pub mod counter;
pub mod dynamic;
pub mod laws;

pub use self::action::{Descent, HookResult, ProcessingAction, ProcessingResult};
pub use self::state::{PathItem, ProcessingState};
pub use self::counter::CallCounter;
pub use self::impls::{for_field, process_value};
pub use self::traits::{Node, ProcessValue, Processor};
