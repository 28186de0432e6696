use vstd::prelude::*;

verus! {

/// The plugin that registers the iridescence material extension with a host
/// application.
#[derive(Clone, Copy, Debug, Default, PartialEq, Eq, Structural)]
pub struct GltfPbrExtrasPlugin;

} // verus!
