//! Shape rendering pipeline for a declarative page-layout document format:
//! exact 2-D affine transforms, cascading style resolution, and the
//! fill/stroke dispatch that turns a shape's point sequence into an ordered
//! list of drawing-backend calls.

pub mod geometry;
pub mod graphic_parser;
pub mod polygon;
pub mod spread_parser;
pub mod styles;
pub mod transforms;
