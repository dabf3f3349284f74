use vstd::prelude::*;

pub mod admin_canned;
pub mod admin_groups;
pub mod admin_staff;
pub mod auth;
pub mod canned;
pub mod config;
pub mod departments;
pub mod dev;
pub mod downloads;
pub mod error;
pub mod faq_categories;
pub mod help_topics;
pub mod listing;
pub mod logs;
pub mod mass;
pub mod pages;
pub mod profile;
pub mod settings;
pub mod sla;
pub mod staff;
pub mod teams;
pub mod text;
pub mod tickets;

verus! {

} // verus!
