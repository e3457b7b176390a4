//! A typing-speed trainer's session engine: the reference text, the cursor,
//! the judgment of every typed character, and the rules by which keystrokes
//! move the session forward and back.

pub mod keys;
pub mod laws;
pub mod model;
pub mod pipeline;
pub mod session;
pub mod words;

pub use keys::{Event, Judgment, Key, Outcome, Phase};
pub use model::SessionState;
pub use pipeline::{forward, Input, LoopAction};
pub use session::App;
pub use words::{join_words, SEPARATOR};
