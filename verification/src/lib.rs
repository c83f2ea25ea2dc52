pub mod classify;
pub mod ext;
pub mod features;
pub mod git_head;
pub mod prompt;
pub mod render;
pub mod strutil;
pub mod timing;
