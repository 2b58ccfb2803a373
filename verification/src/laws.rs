//! Laws of the simulator: what holds of several operations together.
pub mod accounts;
pub mod admission;
pub mod answers;
pub mod branches;
pub mod building;
pub mod capture;
pub mod carrying;
pub mod cloning;
pub mod completion;
pub mod copying;
pub mod costs;
pub mod edges;
pub mod elapsed;
pub mod exports;
pub mod faults;
pub mod frames;
pub mod graphs;
pub mod holdings;
pub mod launching;
pub mod listing;
pub mod memory;
pub mod nodes;
pub mod objects;
pub mod order;
pub mod readings;
pub mod recording;
pub mod refused;
pub mod replacing;
pub mod schedule;
pub mod shape;
pub mod shorthand;
pub mod signals;
pub mod start;
pub mod streams;
pub mod submission;
pub mod sync;
pub mod timeline;
pub mod totals;
pub mod upkeep;
pub mod wiring;
