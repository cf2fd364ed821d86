use vstd::prelude::*;

verus! {

/// The activity segment the timer is in.
#[derive(Debug, Clone, Copy, PartialEq, Eq, Structural)]
pub enum Phase {
    Work,
    ShortRest,
    LongRest,
}

/// The label under which a phase is shown.
pub open spec fn phase_label(p: Phase) -> Seq<char> {
    match p {
        Phase::Work => "Work"@,
        Phase::ShortRest => "ShortRest"@,
        Phase::LongRest => "LongRest"@,
    }
}

impl Phase {
    /// The phase's name, as shown to the user.
    pub fn name(&self) -> (r: &'static str)
        ensures
            r@ == phase_label(*self),
    {
        match self {
            Phase::Work => "Work",
            Phase::ShortRest => "ShortRest",
            Phase::LongRest => "LongRest",
        }
    }
}

} // verus!
