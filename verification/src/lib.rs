//! Build-time synthesis of function bodies.
//!
//! A developer declares a function's signature only, annotates it with
//! generation parameters (an intent prompt, a model choice, sampling
//! controls), and a body is requested from a generative text service and
//! spliced back in as a replacement for the declaration.  This crate holds
//! the transform pipeline itself: the attribute-argument parser, the
//! credential and endpoint resolution rules, the request composer, the
//! dispatch over the two supported annotated shapes, and the re-validation
//! and splicing of the returned text.  The service call and all other I/O
//! stay outside, handing plain values in and out.

pub mod attributes;
pub mod credentials;
pub mod dispatch;
pub mod error;
pub mod request;
