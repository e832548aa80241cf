//! Chunk streaming, meshing, persistence and multiplayer synchronisation for a
//! voxel world: a fixed pool of geometry slots that follows the viewer, a
//! four-tier rebuild schedule, a mesher with corner ambient occlusion, the
//! per-seed override store and the wire protocol of the relay server.

pub mod blockinfo;
pub mod chunk;
pub mod controls;
pub mod cube;
pub mod entropy;
pub mod floatbits;
pub mod mesher;
pub mod packedvertex;
pub mod persist;
pub mod queue;
pub mod schedule;
pub mod server;
pub mod server_types;
pub mod table;
pub mod vec;
pub mod wire;
pub mod world;
