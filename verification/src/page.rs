//! The pages of the site: the shared building blocks, the home page, and
//! the tag-filtered page.

pub mod home;
pub mod partial;
pub mod tags;
