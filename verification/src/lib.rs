//! Verified model of the memory bus, board registers and frame heuristics of
//! a ZN-1 arcade board as used by Bloody Roar 2.

pub mod activity;
pub mod address;
pub mod backend;
pub mod board;
pub mod bus;
pub mod buttons;
pub mod config;
pub mod display;
pub mod dma;
pub mod emulator;
pub mod frame;
pub mod frame_laws;
pub mod gp0;
pub mod header_relations;
pub mod irq;
pub mod json;
pub mod linked_list;
pub mod laws;
pub mod mapping;
pub mod primitive;
pub mod projection;
pub mod relation;
pub mod replay;
pub mod replay_step;
pub mod scan;
pub mod snapshot;
pub mod stats;
pub mod text;
pub mod trace;
pub mod trace_run;
pub mod window;

