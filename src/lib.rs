//! Voxel world addressing, chunk storage and generation, and the frame
//! synchronisation and presentation decisions of a small real-time engine.

pub mod block;
pub mod chunk;
pub mod chunk_generator;
pub mod gamesync;
pub mod options;
pub mod presentation;
pub mod time;
pub mod world;
