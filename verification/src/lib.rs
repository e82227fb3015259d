//! Data model of the synchronization protocol between a digital-hardware
//! simulation engine and its observing clients: the logical time domain with
//! delta cycles, the design-hierarchy snapshot, the typed value/event
//! encoding, and the command/notification surface with per-client signal
//! tracking.

pub mod design_hierarchy;
pub mod from_simulator;
pub mod session;
pub mod time;
pub mod to_simulator;

pub use design_hierarchy::SignalInstanceId;

use vstd::prelude::*;

verus! {

/// Name of an entry in the design hierarchy.
pub type DesignHierarchyEntryName = String;

/// Display name of a signal.
pub type SignalName = String;

/// Identifier of one simulation multiplexed over a shared transport.
pub type SimulationId = u64;

/// Lifecycle state of a simulation as reported by the engine.
#[derive(Debug, Clone, Copy, PartialEq, Eq, Structural)]
pub enum SimulationStatus {
    Paused,
    Running,
    Stopped,
}

/// The closed set of value domains a typed event batch can carry: floating
/// point (as a raw bit pattern), packed or narrow unsigned bytes, and the
/// native nine-state logic values.
#[derive(Debug, Clone, Copy, PartialEq, Eq, Structural)]
pub enum SignalValueType {
    F64,
    U8,
    Logic,
}

/// The nine-state logic value domain of IEEE 1164: `U X 0 1 Z W L H -`.
///
/// Each value round-trips through a single-character textual form; the first
/// eight also round-trip through a compact numeric form.
#[derive(Debug, Copy, Clone, PartialEq, Eq, Structural, PartialOrd)]
pub enum Logic {
    U,
    X,
    Zero,
    One,
    Z,
    W,
    L,
    H,
    DontCare,
}

impl Logic {
    /// The single-character textual form of this logic value.
    pub open spec fn symbol_spec(self) -> char {
        match self {
            Logic::U => 'U',
            Logic::X => 'X',
            Logic::Zero => '0',
            Logic::One => '1',
            Logic::Z => 'Z',
            Logic::W => 'W',
            Logic::L => 'L',
            Logic::H => 'H',
            Logic::DontCare => '-',
        }
    }

    /// Which logic value a single character decodes to, if any.
    pub open spec fn from_char_spec(c: char) -> Option<Logic> {
        if c == 'U' {
            Some(Logic::U)
        } else if c == 'X' {
            Some(Logic::X)
        } else if c == '0' {
            Some(Logic::Zero)
        } else if c == '1' {
            Some(Logic::One)
        } else if c == 'Z' {
            Some(Logic::Z)
        } else if c == 'W' {
            Some(Logic::W)
        } else if c == 'L' {
            Some(Logic::L)
        } else if c == 'H' {
            Some(Logic::H)
        } else if c == '-' {
            Some(Logic::DontCare)
        } else {
            None
        }
    }

    /// Which logic value a whole string decodes to: exactly the strings that
    /// consist of one valid symbol character decode.
    pub open spec fn parse_spec(s: Seq<char>) -> Option<Logic> {
        if s.len() == 1 {
            Logic::from_char_spec(s[0])
        } else {
            None
        }
    }

    /// The compact numeric form of this logic value, `0` through `8` in
    /// declaration order.
    pub open spec fn to_byte_spec(self) -> u8 {
        match self {
            Logic::U => 0,
            Logic::X => 1,
            Logic::Zero => 2,
            Logic::One => 3,
            Logic::Z => 4,
            Logic::W => 5,
            Logic::L => 6,
            Logic::H => 7,
            Logic::DontCare => 8,
        }
    }

    /// Which logic value a byte decodes to: only `0` through `7` decode; any
    /// byte of `8` or above is an invalid discriminant.
    pub open spec fn from_byte_spec(b: u8) -> Option<Logic> {
        if b == 0 {
            Some(Logic::U)
        } else if b == 1 {
            Some(Logic::X)
        } else if b == 2 {
            Some(Logic::Zero)
        } else if b == 3 {
            Some(Logic::One)
        } else if b == 4 {
            Some(Logic::Z)
        } else if b == 5 {
            Some(Logic::W)
        } else if b == 6 {
            Some(Logic::L)
        } else if b == 7 {
            Some(Logic::H)
        } else {
            None
        }
    }

    /// The symbol character of this logic value.
    pub fn symbol(&self) -> (c: char)
        ensures
            c == self.symbol_spec(),
    {
        match self {
            Logic::U => 'U',
            Logic::X => 'X',
            Logic::Zero => '0',
            Logic::One => '1',
            Logic::Z => 'Z',
            Logic::W => 'W',
            Logic::L => 'L',
            Logic::H => 'H',
            Logic::DontCare => '-',
        }
    }

    /// The textual form of this logic value: a string of exactly its symbol
    /// character.
    pub fn as_str(&self) -> (r: &'static str)
        ensures
            r@ == seq![self.symbol_spec()],
    {
        match self {
            Logic::U => {
                proof {
                    reveal_strlit("U");
                    assert("U"@ =~= seq![self.symbol_spec()]);
                }
                "U"
            },
            Logic::X => {
                proof {
                    reveal_strlit("X");
                    assert("X"@ =~= seq![self.symbol_spec()]);
                }
                "X"
            },
            Logic::Zero => {
                proof {
                    reveal_strlit("0");
                    assert("0"@ =~= seq![self.symbol_spec()]);
                }
                "0"
            },
            Logic::One => {
                proof {
                    reveal_strlit("1");
                    assert("1"@ =~= seq![self.symbol_spec()]);
                }
                "1"
            },
            Logic::Z => {
                proof {
                    reveal_strlit("Z");
                    assert("Z"@ =~= seq![self.symbol_spec()]);
                }
                "Z"
            },
            Logic::W => {
                proof {
                    reveal_strlit("W");
                    assert("W"@ =~= seq![self.symbol_spec()]);
                }
                "W"
            },
            Logic::L => {
                proof {
                    reveal_strlit("L");
                    assert("L"@ =~= seq![self.symbol_spec()]);
                }
                "L"
            },
            Logic::H => {
                proof {
                    reveal_strlit("H");
                    assert("H"@ =~= seq![self.symbol_spec()]);
                }
                "H"
            },
            Logic::DontCare => {
                proof {
                    reveal_strlit("-");
                    assert("-"@ =~= seq![self.symbol_spec()]);
                }
                "-"
            },
        }
    }

    /// Decodes a whole string into a logic value. Exactly the nine
    /// single-symbol strings succeed; anything else is a parse error, so that
    /// a malformed message is rejected rather than silently defaulted.
    pub fn from_symbol(s: &str) -> (r: Result<Logic, &'static str>)
        ensures
            Logic::parse_spec(s@) matches Some(l) ==> r == Ok::<Logic, &'static str>(l),
            Logic::parse_spec(s@) is None ==> r == Err::<Logic, &'static str>(
                "input does not match any enum",
            ),
    {
        if s.unicode_len() == 1 {
            let c = s.get_char(0);
            if c == 'U' {
                Ok(Logic::U)
            } else if c == 'X' {
                Ok(Logic::X)
            } else if c == '0' {
                Ok(Logic::Zero)
            } else if c == '1' {
                Ok(Logic::One)
            } else if c == 'Z' {
                Ok(Logic::Z)
            } else if c == 'W' {
                Ok(Logic::W)
            } else if c == 'L' {
                Ok(Logic::L)
            } else if c == 'H' {
                Ok(Logic::H)
            } else if c == '-' {
                Ok(Logic::DontCare)
            } else {
                Err("input does not match any enum")
            }
        } else {
            Err("input does not match any enum")
        }
    }

    /// The compact numeric form of this logic value.
    pub fn to_byte(&self) -> (b: u8)
        ensures
            b == self.to_byte_spec(),
    {
        match self {
            Logic::U => 0,
            Logic::X => 1,
            Logic::Zero => 2,
            Logic::One => 3,
            Logic::Z => 4,
            Logic::W => 5,
            Logic::L => 6,
            Logic::H => 7,
            Logic::DontCare => 8,
        }
    }
}

impl core::str::FromStr for Logic {
    type Err = &'static str;

    fn from_str(s: &str) -> Result<Logic, Self::Err> {
        Logic::from_symbol(s)
    }
}

impl core::convert::TryFrom<u8> for Logic {
    type Error = ();

    fn try_from(value: u8) -> (r: Result<Logic, ()>) {
        if value == 0 {
            Ok(Logic::U)
        } else if value == 1 {
            Ok(Logic::X)
        } else if value == 2 {
            Ok(Logic::Zero)
        } else if value == 3 {
            Ok(Logic::One)
        } else if value == 4 {
            Ok(Logic::Z)
        } else if value == 5 {
            Ok(Logic::W)
        } else if value == 6 {
            Ok(Logic::L)
        } else if value == 7 {
            Ok(Logic::H)
        } else {
            Err(())
        }
    }
}

impl vstd::std_specs::convert::TryFromSpecImpl<u8> for Logic {
    open spec fn obeys_try_from_spec() -> bool {
        true
    }

    open spec fn try_from_spec(value: u8) -> Result<Logic, ()> {
        match Logic::from_byte_spec(value) {
            Some(l) => Ok(l),
            None => Err(()),
        }
    }
}

impl Default for Logic {
    /// The default logic value is uninitialized.
    fn default() -> (r: Self)
        ensures
            r == Logic::U,
    {
        Logic::U
    }
}

/// Every logic value round-trips through its single-character textual form,
/// and decoding inverts encoding exactly: a character decodes to a value if
/// and only if it is that value's symbol.
pub proof fn lemma_logic_text_round_trip(l: Logic, c: char)
    ensures
        Logic::parse_spec(seq![l.symbol_spec()]) == Some(l),
        Logic::from_char_spec(c) == Some(l) ==> c == l.symbol_spec(),
{
    assert(seq![l.symbol_spec()].len() == 1);
    assert(seq![l.symbol_spec()][0] == l.symbol_spec());
}

/// Every logic value other than don't-care round-trips through its compact
/// numeric form.
pub proof fn lemma_logic_byte_round_trip(l: Logic)
    requires
        l != Logic::DontCare,
    ensures
        Logic::from_byte_spec(l.to_byte_spec()) == Some(l),
{
}

/// A byte of eight or above never decodes to a logic value: in particular the
/// numeric form of the don't-care value is rejected by the decoder.
pub proof fn lemma_logic_byte_invalid_discriminant(b: u8)
    requires
        b >= 8,
    ensures
        Logic::from_byte_spec(b) is None,
{
}

/// Byte decoding inverts byte encoding exactly: a byte decodes to a value
/// only if it is that value's compact numeric form.
pub proof fn lemma_logic_byte_decode_inverts(b: u8)
    ensures
        Logic::from_byte_spec(b) matches Some(l) ==> l.to_byte_spec() == b,
{
}

} // verus!
