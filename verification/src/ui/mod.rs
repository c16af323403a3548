//! What the user sees and types: the pages and the prompts.

pub mod pages;
pub mod prompts;

pub use pages::{EpicDetail, HomePage, Page, StoryDetail};
pub use prompts::Prompter;
