//! Pose fusion for a steering-wheel avatar: the humanoid bone taxonomy, the
//! pose store with its lazily computed global transforms, and the tables and
//! rules of the VMC stream.

pub mod avatar;
pub mod bone;
pub mod color;
pub mod controller;
pub mod device;
pub mod index;
pub mod mask;
pub mod osc;
pub mod pose;
pub mod relations;
pub mod report;
pub mod tracking;
pub mod transform;
pub mod vmc;
