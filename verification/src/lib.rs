//! Frame-synchronized coordination layer for an interactive graph viewer.
//!
//! The crate provides the machinery that lets a single-threaded, tick-driven
//! render loop interleave background computations, transient modal input and
//! continuously animating camera state without blocking frame delivery:
//! single-slot and FIFO channels, a fixed-point camera integrator, one-shot
//! task handles, a modal-input broker, a type-keyed per-frame context store
//! and a registry of context-gated actions.
//!
//! Per frame tick the loop drains the command queues, polls the live task
//! handles, materializes the context store when a menu is about to open,
//! renders any pending modal dialog, reads the most recently published
//! camera view and evaluates the action registry, in that fixed order; the
//! threads, clocks and locks that drive these state machines live with the
//! embedding application.

pub mod app;
pub mod channel;
pub mod context;
pub mod curve;
pub mod fixed;
pub mod geometry;
pub mod graph;
pub mod menu;
pub mod modal;
pub mod node_flags;
pub mod overlays;
pub mod paths;
pub mod picker;
pub mod task;
pub mod textnum;
pub mod ui;
pub mod view;
