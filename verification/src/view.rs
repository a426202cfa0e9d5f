//! The human-readable half-bunch-frame view.

pub mod hbf_view;
