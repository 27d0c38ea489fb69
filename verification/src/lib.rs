//! An interactive chat client's verified core: a knowledge loader that
//! flattens JSON taxonomies into prompt text, a rolling conversation
//! history, a prompt assembler, and the read-eval-print loop as an explicit
//! state machine. The terminal, the signal handler and the remote
//! language-model call live outside, driven by the loop's actions.

use vstd::prelude::*;

pub mod history;
pub mod json;
pub mod knowledge;
pub mod prompt;
pub mod repl;

pub use history::ConversationHistory;
pub use history::Message;
pub use history::Role;

verus! {

} // verus!
