//! Verified core of a four-way, signal-controlled intersection simulation.
//!
//! Vehicles enter from four origins, follow a precomputed waypoint path
//! (left turn, right turn, or straight through), obey a traffic-light
//! controller, and keep a following gap behind vehicles of their own
//! movement group.  All quantities are fixed-point integers: distances in
//! centipixels (1/100 of a pixel) and angles in centidegrees (1/100 of a
//! degree), so every state transition is exact and verified.

pub mod angle;
pub mod car;
pub mod controller;
pub mod geom;
pub mod movement;
pub mod params;
pub mod path;
