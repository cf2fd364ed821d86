use vstd::prelude::*;

verus! {

/// The look of a control button.
#[derive(Debug, Clone, Copy, PartialEq, Eq, Structural)]
pub enum Button {
    /// The main action.
    Primary,
    /// A side action.
    Secondary,
    /// An action that stops or leaves something.
    Destructive,
}

} // verus!
