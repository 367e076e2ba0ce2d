//! A small CPU ray tracer whose geometry is computed in fixed-point
//! arithmetic, so that every step of the rendering pipeline can be verified.
//!
//! Real quantities (coordinates, directions, colors, angles) are carried by
//! the scalar type [`fx::Fx`], a saturating fixed-point number with nine
//! decimal digits after the point. All geometric and shading routines state
//! their results exactly over the mathematical model of that scalar.

pub mod camera;
pub mod color;
pub mod fx;
pub mod grammar;
pub mod image;
pub mod light;
pub mod object;
pub mod point;
pub mod scene;
pub mod texture;
pub mod trig;
pub mod vector;
