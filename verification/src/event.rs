use vstd::prelude::*;

verus! {

/// Native stop mode that lets the authored fade-out or release tail play
/// before the instance becomes eligible for reuse.
pub const STOP_ALLOWFADEOUT: u32 = 0;

/// Native stop mode that stops the instance at once, discarding any
/// authored release tail.
pub const STOP_IMMEDIATE: u32 = 1;

/// An immutable event template, identified by path or identifier: a plain
/// value wrapping the native address. Its lifetime is bound to the bank that
/// contains it staying loaded; copying a handle aliases the same template.
#[derive(Clone, Copy, Debug, PartialEq, Eq, Structural, Hash)]
pub struct EventDescription {
    raw: usize,
}

impl EventDescription {
    /// The wrapped native address.
    pub closed spec fn addr(&self) -> usize {
        self.raw
    }

    /// Wraps a native event-description address handed out by the engine.
    pub fn from_raw(raw: usize) -> (d: EventDescription)
        ensures
            d.addr() == raw,
    {
        EventDescription { raw }
    }

    /// The raw native address: the explicit escape hatch for handing the
    /// handle back across the native boundary.
    pub fn as_ptr(&self) -> (r: usize)
        ensures
            r == self.addr(),
    {
        self.raw
    }
}

/// A live playable spawn of an event template, independent of every other
/// spawn and of any wrapper entity once created; the native engine reclaims
/// it after it has fully stopped. A plain value wrapping the native address.
#[derive(Clone, Copy, Debug, PartialEq, Eq, Structural, Hash)]
pub struct EventInstance {
    raw: usize,
}

impl EventInstance {
    /// The wrapped native address.
    pub closed spec fn addr(&self) -> usize {
        self.raw
    }

    /// Wraps a native event-instance address handed out by the engine.
    pub fn from_raw(raw: usize) -> (i: EventInstance)
        ensures
            i.addr() == raw,
    {
        EventInstance { raw }
    }

    /// The raw native address: the explicit escape hatch for handing the
    /// handle back across the native boundary.
    pub fn as_ptr(&self) -> (r: usize)
        ensures
            r == self.addr(),
    {
        self.raw
    }

    /// The native stop mode that `stop` selects: the immediate mode discards
    /// any authored release tail, the other lets the fade-out play first.
    pub fn stop_mode(immediately: bool) -> (m: u32)
        ensures
            m == (if immediately {
                STOP_IMMEDIATE
            } else {
                STOP_ALLOWFADEOUT
            }),
    {
        if immediately {
            STOP_IMMEDIATE
        } else {
            STOP_ALLOWFADEOUT
        }
    }
}

} // verus!
