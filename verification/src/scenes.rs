//! Menu scenes whose navigation does not depend on rendering.
pub mod options;
pub mod title;
