//! Recognises DECSCUSR (`CSI Ps SP q`), by which a child chooses a cursor shape.

use vstd::prelude::*;

use crate::ansi::ESC;

verus! {

/// How much of an escape sequence has been read.
#[derive(Debug)]
enum DecscusrParseState {
    Ground,
    Escape,
    Csi { first_param: Option<u16>, collecting_first_param: bool, has_space_intermediate: bool },
}

/// Follows a child's output and remembers whether the child currently overrides
/// the shape of its cursor.
#[derive(Debug)]
pub struct DecscusrTracker {
    state: DecscusrParseState,
    cursor_shape_overridden: bool,
}

/// Where in an escape sequence the next byte falls.
pub enum DecscusrPosition {
    /// Outside any sequence.
    Ground,
    /// Right after an `ESC`.
    Escape,
    /// Inside a control sequence, after `ESC [`.
    Csi {
        /// The number read so far as the first parameter; zero while no digit has come.
        param: int,
        /// Whether a digit would still belong to the first parameter.
        collecting: bool,
        /// Whether a space, the intermediate byte of DECSCUSR, has come.
        space: bool,
    },
}

/// What a `DecscusrTracker` stands for.
pub struct DecscusrModel {
    pub position: DecscusrPosition,
    pub overridden: bool,
}

/// The decimal digits.
pub open spec fn is_digit(byte: u8) -> bool {
    0x30 <= byte <= 0x39
}

/// The parameter and intermediate bytes of a control sequence.
pub open spec fn is_body(byte: u8) -> bool {
    0x20 <= byte <= 0x3f
}

/// The bytes after which no digit belongs to the first parameter any more.
pub open spec fn ends_first_param(byte: u8) -> bool {
    byte == ';' as u8 || byte == ':' as u8 || byte == ' ' as u8
}

/// The first parameter after one more digit: ten times the number, held at the largest
/// 16-bit value, plus the digit, modulo two to the sixteenth.
pub open spec fn next_param(param: int, digit: u8) -> int {
    let tenfold = if param * 10 > u16::MAX { u16::MAX as int } else { param * 10 };
    (tenfold + (digit - 0x30)) % 0x1_0000
}

/// Whether the child overrides the shape after a complete DECSCUSR. The shapes are
/// numbered up to six and zero hands the choice back; other numbers mean nothing.
pub open spec fn shape_override(param: int, before: bool) -> bool {
    if param <= 6 {
        param != 0
    } else {
        before
    }
}

impl DecscusrModel {
    /// A tracker that has read nothing.
    pub open spec fn initial() -> Self {
        DecscusrModel { position: DecscusrPosition::Ground, overridden: false }
    }

    /// The same tracker at another position.
    pub open spec fn at(self, position: DecscusrPosition) -> Self {
        DecscusrModel { position, ..self }
    }

    /// The tracker after one more byte.
    pub open spec fn step(self, byte: u8) -> Self {
        match self.position {
            DecscusrPosition::Ground => if byte == ESC {
                self.at(DecscusrPosition::Escape)
            } else {
                self
            },
            DecscusrPosition::Escape => if byte == '[' as u8 {
                self.at(DecscusrPosition::Csi { param: 0, collecting: true, space: false })
            } else if byte == ESC {
                self
            } else {
                self.at(DecscusrPosition::Ground)
            },
            DecscusrPosition::Csi { param, collecting, space } => if byte == ESC {
                self.at(DecscusrPosition::Escape)
            } else if is_body(byte) {
                self.at(
                    DecscusrPosition::Csi {
                        param: if is_digit(byte) && collecting {
                            next_param(param, byte)
                        } else {
                            param
                        },
                        collecting: collecting && !ends_first_param(byte),
                        space: space || byte == ' ' as u8,
                    },
                )
            } else {
                DecscusrModel {
                    position: DecscusrPosition::Ground,
                    overridden: if byte == 'q' as u8 && space {
                        shape_override(param, self.overridden)
                    } else {
                        self.overridden
                    },
                }
            },
        }
    }

    /// The tracker after a run of bytes.
    pub open spec fn feed(self, bytes: Seq<u8>) -> Self
        decreases bytes.len(),
    {
        if bytes.len() == 0 {
            self
        } else {
            self.feed(bytes.drop_last()).step(bytes.last())
        }
    }
}

impl View for DecscusrTracker {
    type V = DecscusrModel;

    closed spec fn view(&self) -> DecscusrModel {
        DecscusrModel {
            position: match self.state {
                DecscusrParseState::Ground => DecscusrPosition::Ground,
                DecscusrParseState::Escape => DecscusrPosition::Escape,
                DecscusrParseState::Csi {
                    first_param,
                    collecting_first_param,
                    has_space_intermediate,
                } => DecscusrPosition::Csi {
                    param: match first_param {
                        Some(param) => param as int,
                        None => 0,
                    },
                    collecting: collecting_first_param,
                    space: has_space_intermediate,
                },
            },
            overridden: self.cursor_shape_overridden,
        }
    }
}

impl Default for DecscusrTracker {
    fn default() -> (tracker: Self)
        ensures
            tracker@ == DecscusrModel::initial(),
    {
        DecscusrTracker { state: DecscusrParseState::Ground, cursor_shape_overridden: false }
    }
}

impl DecscusrTracker {
    /// Reads a batch of the child's output. Batches may be cut anywhere.
    pub fn observe(&mut self, bytes: &[u8])
        ensures
            final(self)@ == old(self)@.feed(bytes@),
    {
        let mut read: usize = 0;
        assert(bytes@.take(0) =~= Seq::<u8>::empty());
        while read < bytes.len()
            invariant
                read <= bytes.len(),
                self@ == old(self)@.feed(bytes@.take(read as int)),
            decreases bytes.len() - read,
        {
            self.observe_byte(bytes[read]);
            assert(bytes@.take(read + 1).drop_last() =~= bytes@.take(read as int));
            read += 1;
        }
        assert(bytes@.take(bytes.len() as int) =~= bytes@);
    }

    /// Reads one byte of the child's output.
    pub fn observe_byte(&mut self, byte: u8)
        ensures
            final(self)@ == old(self)@.step(byte),
    {
        match &mut self.state {
            DecscusrParseState::Ground => {
                if byte == ESC {
                    self.state = DecscusrParseState::Escape;
                }
            },
            DecscusrParseState::Escape => {
                self.state = if byte == '[' as u8 {
                    DecscusrParseState::Csi {
                        first_param: None,
                        collecting_first_param: true,
                        has_space_intermediate: false,
                    }
                } else if byte == ESC {
                    DecscusrParseState::Escape
                } else {
                    DecscusrParseState::Ground
                };
            },
            DecscusrParseState::Csi {
                first_param,
                collecting_first_param,
                has_space_intermediate,
            } => {
                if byte == ESC {
                    self.state = DecscusrParseState::Escape;
                } else if 0x30 <= byte && byte <= 0x39 && *collecting_first_param {
                    let digit: u16 = (byte - 0x30) as u16;
                    let param: u16 = first_param.unwrap_or(0);
                    let tenfold: u16 = if param > u16::MAX / 10 { u16::MAX } else { param * 10 };
                    *first_param = Some(tenfold.wrapping_add(digit));
                } else if byte == ';' as u8 || byte == ':' as u8 {
                    *collecting_first_param = false;
                } else if byte == ' ' as u8 {
                    *has_space_intermediate = true;
                    *collecting_first_param = false;
                } else if 0x40 <= byte && byte <= 0x7e {
                    if byte == 'q' as u8 && *has_space_intermediate {
                        let param: u16 = first_param.unwrap_or(0);
                        if param <= 6 {
                            self.cursor_shape_overridden = param != 0;
                        }
                    }
                    self.state = DecscusrParseState::Ground;
                } else if !(0x20 <= byte && byte <= 0x3f) {
                    self.state = DecscusrParseState::Ground;
                }
            },
        }
    }

    /// Whether the child has chosen a cursor shape of its own.
    pub fn cursor_shape_overridden(&self) -> (overridden: bool)
        ensures
            overridden == self@.overridden,
    {
        self.cursor_shape_overridden
    }
}

} // verus!
