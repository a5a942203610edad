use vstd::prelude::*;

use crate::event::{KeyCode, KeyModifiers, RawEvent, CONTROL_BIT};

verus! {

/// A key chord that is kept from the application and ends the run.
#[derive(Clone, Copy, Debug, PartialEq, Eq, Structural)]
pub enum ReservedChord {
    /// Control and `c`: the user asks to leave.
    Interrupt,
    /// Control and `x`: leave through the error path, for trying it out.
    ErrorDrill,
    /// Control and `p`: crash the process, for trying that path out.
    CrashDrill,
}

impl ReservedChord {
    /// The line that reports the chord when the run ends on it.
    pub fn message(&self) -> (r: &'static str)
        ensures
            *self == ReservedChord::Interrupt ==> r@ == "exiting by <C-c>"@,
            *self == ReservedChord::ErrorDrill ==> r@ == "exiting with TEST error by <C-x>"@,
            *self == ReservedChord::CrashDrill ==> r@ == "TEST panic by <C-p>"@,
    {
        match self {
            ReservedChord::Interrupt => "exiting by <C-c>",
            ReservedChord::ErrorDrill => "exiting with TEST error by <C-x>",
            ReservedChord::CrashDrill => "TEST panic by <C-p>",
        }
    }
}

/// The reserved chord that `ev` is, if any.
pub open spec fn chord_of(ev: RawEvent) -> Option<ReservedChord> {
    match ev {
        RawEvent::Key(k) => {
            if k.modifiers.bits & CONTROL_BIT == CONTROL_BIT {
                match k.code {
                    KeyCode::Char(c) => {
                        if c == 'c' {
                            Some(ReservedChord::Interrupt)
                        } else if c == 'x' {
                            Some(ReservedChord::ErrorDrill)
                        } else if c == 'p' {
                            Some(ReservedChord::CrashDrill)
                        } else {
                            None
                        }
                    },
                    _ => None,
                }
            } else {
                None
            }
        },
        _ => None,
    }
}

/// No event of `events` is a reserved chord.
pub open spec fn chord_free(events: Seq<RawEvent>) -> bool {
    forall|i: int| 0 <= i < events.len() ==> (#[trigger] chord_of(events[i])) is None
}

/// The event at `i` is the first reserved chord of `events`.
pub open spec fn is_first_chord(events: Seq<RawEvent>, i: int) -> bool {
    &&& 0 <= i < events.len()
    &&& chord_of(events[i]) is Some
    &&& chord_free(events.take(i))
}

/// Where a batch of events met a reserved chord, and which.
#[derive(Clone, Copy, Debug, PartialEq, Eq, Structural)]
pub struct Termination {
    pub index: usize,
    pub chord: ReservedChord,
}

/// The reserved chord that `ev` is, if any.
pub fn reserved_chord(ev: &RawEvent) -> (r: Option<ReservedChord>)
    ensures
        r == chord_of(*ev),
{
    match ev {
        RawEvent::Key(k) => {
            if k.modifiers.contains(KeyModifiers::control()) {
                match k.code {
                    KeyCode::Char(c) => {
                        if c == 'c' {
                            Some(ReservedChord::Interrupt)
                        } else if c == 'x' {
                            Some(ReservedChord::ErrorDrill)
                        } else if c == 'p' {
                            Some(ReservedChord::CrashDrill)
                        } else {
                            None
                        }
                    },
                    _ => None,
                }
            } else {
                None
            }
        },
        _ => None,
    }
}

/// Scans `events` in order for a reserved chord. The first one found ends
/// the scan; events after it are not looked at.
pub fn check_terminate_sequence(events: &Vec<RawEvent>) -> (r: Result<(), Termination>)
    ensures
        r is Ok <==> chord_free(events@),
        r matches Err(t) ==> is_first_chord(events@, t.index as int) && chord_of(
            events@[t.index as int],
        ) == Some(t.chord),
{
    let mut i: usize = 0;
    while i < events.len()
        invariant
            i <= events@.len(),
            chord_free(events@.take(i as int)),
        decreases events@.len() - i,
    {
        match reserved_chord(&events[i]) {
            Some(chord) => {
                return Err(Termination { index: i, chord });
            },
            None => {},
        }
        assert(events@.take(i + 1) =~= events@.take(i as int).push(events@[i as int]));
        assert(chord_free(events@.take(i + 1))) by {
            assert forall|j: int| 0 <= j < i + 1 implies (#[trigger] chord_of(
                events@.take(i + 1)[j],
            )) is None by {
                if j < i {
                    assert(events@.take(i + 1)[j] == events@.take(i as int)[j]);
                }
            }
        }
        i = i + 1;
    }
    assert(events@.take(i as int) =~= events@);
    Ok(())
}

} // verus!
