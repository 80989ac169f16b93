//! A 24-hour clock-face pie chart.
//!
//! The library turns a set of labeled time segments into an exact drawing
//! plan for an annular 24-slot chart: wedge angles, wedge colors, label
//! anchor points, and the fixed scale of hour ticks around the circle.
//! Putting the plan on an actual drawing surface is left to the caller.

pub mod angle;
pub mod palette;
pub mod plan;
pub mod scale;
pub mod segments;
