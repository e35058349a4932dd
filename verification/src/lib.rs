//! Writers for PDF content streams and the dictionaries that accompany them,
//! with their byte-level output specified and verified.
//!
//! Writers that stand for an open array, dictionary or operation write their
//! closing bytes when their `finish` method is called.

pub mod content;
pub mod encode;
pub mod laws;
pub mod object;
pub mod primitive;
pub mod resources;

pub use content::{
    ColorSpaceOperand, Content, LineCapStyle, LineJoinStyle, Operation, PositionedItems,
    RenderingIntent, ShowPositioned, TextRenderingMode,
};
pub use object::{Array, Dict, Obj};
pub use primitive::{Name, Primitive, Real, Ref, Str};
pub use resources::{BlendMode, ExtGraphicsState, MaskType, ProcSet, Resources, SoftMask};
pub mod tables;
