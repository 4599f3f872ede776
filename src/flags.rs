use vstd::prelude::*;

verus! {

/// The bit that asks the engine to ignore, rather than refuse, updates whose
/// timestamp is not later than the archive's last update.
pub const SKIP_PAST_UPDATES_BIT: i32 = 1;

/// The engine's optional update behaviours, as named switches.
#[derive(Debug, Clone, Copy, PartialEq, Eq)]
pub struct ExtraFlags {
    /// Ignore updates that are not later than the last recorded one.
    pub skip_past_updates: bool,
}

/// The integer mask that stands for `f` in an engine call.
pub open spec fn flags_mask(f: ExtraFlags) -> i32 {
    if f.skip_past_updates {
        SKIP_PAST_UPDATES_BIT
    } else {
        0
    }
}

impl ExtraFlags {
    /// No switch set.
    pub fn empty() -> (r: ExtraFlags)
        ensures
            !r.skip_past_updates,
    {
        ExtraFlags { skip_past_updates: false }
    }

    /// Every switch set.
    pub fn all() -> (r: ExtraFlags)
        ensures
            r.skip_past_updates,
    {
        ExtraFlags { skip_past_updates: true }
    }

    /// Combines the switches into the mask the engine takes.
    pub fn bits(&self) -> (r: i32)
        ensures
            r == flags_mask(*self),
    {
        if self.skip_past_updates {
            SKIP_PAST_UPDATES_BIT
        } else {
            0
        }
    }

    /// Reads a mask back into switches; `None` when it holds an unknown bit.
    pub fn from_bits(bits: i32) -> (r: Option<ExtraFlags>)
        ensures
            r is Some <==> (bits == 0 || bits == SKIP_PAST_UPDATES_BIT),
            r matches Some(f) ==> flags_mask(f) == bits,
    {
        if bits == 0 {
            Some(ExtraFlags { skip_past_updates: false })
        } else if bits == SKIP_PAST_UPDATES_BIT {
            Some(ExtraFlags { skip_past_updates: true })
        } else {
            None
        }
    }
}

} // verus!
