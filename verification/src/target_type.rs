//! The build mode of a project.

use vstd::prelude::*;

verus! {

/// How a project is built: as it stands, or bundled by webpack.
#[derive(Clone, Copy, Debug, PartialEq, Eq, Structural)]
pub enum TargetType {
    Plain,
    Webpack,
}

impl Default for TargetType {
    fn default() -> (r: Self)
        ensures
            r == TargetType::Webpack,
    {
        TargetType::Webpack
    }
}

} // verus!
