use vstd::prelude::*;

verus! {

/// The screen the application shows.
#[derive(Debug, Clone, Copy, Default, PartialEq, Eq, Hash, Structural)]
pub enum AppState {
    #[default]
    Menu,
    InGame,
    JoinGame,
}

} // verus!
