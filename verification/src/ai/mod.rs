//! Text processing and prompt construction for the AI features.
pub mod chunking;
pub mod ollama;
pub mod prompts;

pub use ollama::Message;
pub use prompts::{ask_prompt, reflect_prompt, SYSTEM_PROMPT};
