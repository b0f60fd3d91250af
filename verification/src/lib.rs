//! ABI-stable building blocks for a GUI toolkit's foreign-function boundary.
//!
//! The heart of the crate is a type-erased, reference-counted object handle
//! (`refany`) that re-enforces at run time the aliasing rules a borrow
//! checker would enforce at compile time, because the values cross into
//! foreign code the compiler cannot see.  Around it stand the ABI-stable
//! containers — dynamic arrays and optionals with an explicit, tagged
//! destruction policy (`vector`, `optional`, `string`) — and the plain data
//! model those containers carry: CSS values and properties (`css_values`,
//! `css`), document trees (`dom`), and integer layout geometry (`geometry`).

pub mod css;
pub mod css_values;
pub mod dom;
pub mod geometry;
pub mod optional;
pub mod refany;
pub mod string;
pub mod vector;

pub use crate::css::AzCssProperty;
pub use crate::css::AzCssPropertyType;
pub use crate::css::CssProperty;
pub use crate::css::CssPropertyType;
pub use crate::dom::AzDom;
pub use crate::dom::AzNodeData;
pub use crate::dom::Dom;
pub use crate::dom::NodeData;
pub use crate::geometry::AzLayoutPoint;
pub use crate::geometry::AzLayoutRect;
pub use crate::geometry::AzLayoutSize;
pub use crate::geometry::LayoutPoint;
pub use crate::geometry::LayoutRect;
pub use crate::geometry::LayoutSize;
pub use crate::optional::FfiOption;
pub use crate::refany::AzRefAny;
pub use crate::refany::AzRefCount;
pub use crate::refany::AzRefCountInner;
pub use crate::refany::Ref;
pub use crate::refany::RefArena;
pub use crate::refany::RefMut;
pub use crate::string::AzString;
pub use crate::vector::AzU8Vec;
pub use crate::vector::AzU8VecDestructor;
pub use crate::vector::BufferHeap;
pub use crate::vector::U8Vec;
pub use crate::vector::Vector;
pub use crate::vector::VectorDestructor;
