//! A minimal retained-mode 2D shape renderer, modelled exactly.
//!
//! The library keeps the whole state of the renderer as plain data: colors
//! as 8-bit channels, coordinates as fixed-point integers (the caller picks
//! the scale), and the ellipse tessellation as a symbolic triangle fan.
//! Every operation — vertex generation, shape registration, per-frame draw
//! submission — is specified and verified on that model. The surrounding
//! application translates the model into GPU resources and actual draw
//! calls; the order, the counts and the contents of what it submits are
//! fixed here.

pub mod color;
pub mod context;
pub mod geometry;
pub mod shapes;
