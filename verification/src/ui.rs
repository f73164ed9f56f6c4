//! The pages' state machines: what each page's state is, and how one
//! message changes it or moves the user to another page. Rendering and
//! event plumbing belong to the embedding program; every decision a page
//! makes stands here.

pub mod app;
pub mod download_page;
pub mod finish_page;
pub mod install_page;
pub mod main_page;
