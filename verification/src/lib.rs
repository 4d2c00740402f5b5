//! Colour text formats, menu translations and picker decisions of the Luma11y
//! colour contrast checker, with their contracts proved by Verus.

pub mod text;
pub mod color;
pub mod lang;
pub mod i18n;
pub mod menu;
pub mod store;
pub mod picker;
