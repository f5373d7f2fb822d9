//! A small library that renders a coverage percentage as an SVG badge:
//! a fixed "coverage" label segment on the left and a colored value
//! segment on the right, in the style of common CI badges.
//!
//! The percentage is carried as a [`percentage::Percentage`], which holds
//! the displayed value in tenths of a percent together with a flag saying
//! whether the underlying value was a whole number.  Every function is a
//! total, deterministic transformation whose exact output is pinned down
//! by its contract.

pub mod decimal;

pub mod percentage;

pub mod color;

pub mod substr;

pub mod badge;
