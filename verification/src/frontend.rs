//! The decisions of the accounts frontend: its services and pages.

pub mod services;
pub mod accounts_component;
pub mod home;
