//! Client-side state machine of a meme generator page.
//!
//! The page lets a user pick a template or give an image URL, type two
//! captions, and ask a rendering service for the finished image. This crate
//! holds the part of that page that decides: the state, the closed set of
//! events, and the transition that maps a state and an event to the next
//! state and to the work the host has to carry out.

pub mod controller;
pub mod event;
pub mod form;
pub mod laws;
pub mod model;
pub mod reply;
