//! A pre-scan of Wavefront OBJ text for face indices that the OBJ reader
//! cannot take.
//!
//! The reader turns a relative texture or normal index that points before
//! the first entry into a huge unsigned index, and multiplies texture and
//! normal indices without overflow checking. The scan rejects, in `f` and
//! `l` lines, every texture or normal index whose magnitude exceeds
//! `MAX_FACE_INDEX`, and every relative one that points before the first
//! `vt` or `vn` line read so far. A face line that holds both a `/` and a
//! byte outside ASCII is rejected too, and so is any line with a `/` whose
//! first word holds such a byte: the reader splits words at Unicode
//! whitespace, which this scan does not decode, so such a line may be a face
//! line to the reader. Other lines, comments and names among them, are
//! never rejected.

use vstd::prelude::*;

verus! {

/// The largest magnitude accepted for a texture or normal index.
pub const MAX_FACE_INDEX: u64 = 0x4000_0000;

/// How far the first word of the current line has been recognised.
#[derive(Clone, Copy, Debug, PartialEq, Eq, Structural)]
pub enum FirstWord {
    /// Only whitespace so far.
    Blank,
    F,
    L,
    V,
    Vt,
    Vn,
    Other,
}

/// The sign written before an index.
#[derive(Clone, Copy, Debug, PartialEq, Eq, Structural)]
pub enum Sign {
    Unsigned,
    Plus,
    Minus,
}

/// The scan's state after a prefix of the text.
#[derive(Clone, Copy, Debug, PartialEq, Eq, Structural)]
pub struct ObjScan {
    /// An index that the reader cannot take has been seen.
    pub rejected: bool,
    /// Completed lines whose first word is `vt`.
    pub texcoord_lines: u64,
    /// Completed lines whose first word is `vn`.
    pub normal_lines: u64,
    pub first: FirstWord,
    /// The first word of the line has ended.
    pub first_done: bool,
    pub has_slash: bool,
    pub has_non_ascii: bool,
    /// The first word of the line holds a byte outside ASCII.
    pub first_non_ascii: bool,
    /// The current component of the current word: 0 position, 1 texture,
    /// 2 normal, 3 anything later.
    pub slot: u8,
    pub sign: Sign,
    /// The current component holds a digit.
    pub digits: bool,
    /// The current component's digits, capped at `MAX_FACE_INDEX + 1`.
    pub value: u64,
    /// The current component is not a signed decimal integer.
    pub malformed: bool,
}

/// The whitespace that separates words.
pub open spec fn is_space(b: u8) -> bool {
    b == 9 || b == 10 || b == 11 || b == 12 || b == 13 || b == 32
}

pub open spec fn initial_scan() -> ObjScan {
    ObjScan {
        rejected: false,
        texcoord_lines: 0,
        normal_lines: 0,
        first: FirstWord::Blank,
        first_done: false,
        has_slash: false,
        has_non_ascii: false,
        first_non_ascii: false,
        slot: 0,
        sign: Sign::Unsigned,
        digits: false,
        value: 0,
        malformed: false,
    }
}

/// The first word after one more byte of it.
pub open spec fn next_first(f: FirstWord, b: u8) -> FirstWord {
    match f {
        FirstWord::Blank => if b == 0x66 {
            FirstWord::F
        } else if b == 0x6C {
            FirstWord::L
        } else if b == 0x76 {
            FirstWord::V
        } else {
            FirstWord::Other
        },
        FirstWord::V => if b == 0x74 {
            FirstWord::Vt
        } else if b == 0x6E {
            FirstWord::Vn
        } else {
            FirstWord::Other
        },
        _ => FirstWord::Other,
    }
}

/// The component that just ended is a texture or normal index of a face
/// line that the reader cannot take.
pub open spec fn component_rejected(s: ObjScan) -> bool {
    let count = if s.slot == 1 {
        s.texcoord_lines
    } else {
        s.normal_lines
    };
    &&& s.first_done
    &&& (s.first == FirstWord::F || s.first == FirstWord::L)
    &&& (s.slot == 1 || s.slot == 2)
    &&& s.digits
    &&& !s.malformed
    &&& (s.value > MAX_FACE_INDEX || (s.sign == Sign::Minus && s.value > count + 1))
}

/// Closes the current component.
pub open spec fn end_component(s: ObjScan) -> ObjScan {
    ObjScan {
        rejected: s.rejected || component_rejected(s),
        sign: Sign::Unsigned,
        digits: false,
        value: 0,
        malformed: false,
        ..s
    }
}

/// Closes the current line.
pub open spec fn end_line(s: ObjScan) -> ObjScan {
    let e = end_component(s);
    ObjScan {
        rejected: e.rejected || line_rejected(e),
        texcoord_lines: if e.first == FirstWord::Vt {
            (e.texcoord_lines + 1) as u64
        } else {
            e.texcoord_lines
        },
        normal_lines: if e.first == FirstWord::Vn {
            (e.normal_lines + 1) as u64
        } else {
            e.normal_lines
        },
        first: FirstWord::Blank,
        first_done: false,
        has_slash: false,
        has_non_ascii: false,
        first_non_ascii: false,
        slot: 0,
        ..e
    }
}

/// The line holds a `/` and a byte outside ASCII, and is a face line or
/// has such a byte in its first word.
pub open spec fn line_rejected(s: ObjScan) -> bool {
    &&& s.has_slash
    &&& s.has_non_ascii
    &&& (s.first == FirstWord::F || s.first == FirstWord::L || s.first_non_ascii)
}

/// The scan after one more byte.
pub open spec fn scan_step(s: ObjScan, b: u8) -> ObjScan {
    if b == 10 {
        end_line(s)
    } else if !s.first_done {
        if is_space(b) {
            if s.first == FirstWord::Blank {
                s
            } else {
                ObjScan { first_done: true, ..s }
            }
        } else {
            ObjScan {
                first: next_first(s.first, b),
                has_slash: s.has_slash || b == 47,
                has_non_ascii: s.has_non_ascii || b >= 128,
                first_non_ascii: s.first_non_ascii || b >= 128,
                ..s
            }
        }
    } else if is_space(b) {
        ObjScan { slot: 0, ..end_component(s) }
    } else if b == 47 {
        ObjScan {
            has_slash: true,
            slot: if s.slot < 3 {
                (s.slot + 1) as u8
            } else {
                3
            },
            ..end_component(s)
        }
    } else if 48 <= b && b <= 57 {
        let v = s.value * 10 + (b - 48);
        ObjScan {
            digits: true,
            value: if v > MAX_FACE_INDEX + 1 {
                (MAX_FACE_INDEX + 1) as u64
            } else {
                v as u64
            },
            ..s
        }
    } else if (b == 43 || b == 45) && s.sign == Sign::Unsigned && !s.digits {
        ObjScan {
            sign: if b == 43 {
                Sign::Plus
            } else {
                Sign::Minus
            },
            ..s
        }
    } else {
        ObjScan { malformed: true, has_non_ascii: s.has_non_ascii || b >= 128, ..s }
    }
}

/// The scan after the bytes of `t`, in order.
pub open spec fn scan(t: Seq<u8>) -> ObjScan
    decreases t.len(),
{
    if t.len() == 0 {
        initial_scan()
    } else {
        scan_step(scan(t.drop_last()), t.last())
    }
}

/// No line of `t` is rejected: no face has a texture or normal index that
/// the reader cannot take.
pub open spec fn obj_faces_safe(t: Seq<u8>) -> bool {
    !end_line(scan(t)).rejected
}

fn end_component_exec(s: ObjScan) -> (r: ObjScan)
    ensures
        r == end_component(s),
{
    let count = if s.slot == 1 {
        s.texcoord_lines
    } else {
        s.normal_lines
    };
    let bad = s.first_done && (s.first == FirstWord::F || s.first == FirstWord::L) && (s.slot
        == 1 || s.slot == 2) && s.digits && !s.malformed && (s.value > MAX_FACE_INDEX || (s.sign
        == Sign::Minus && s.value >= 1 && s.value - 1 > count));
    ObjScan {
        rejected: s.rejected || bad,
        sign: Sign::Unsigned,
        digits: false,
        value: 0,
        malformed: false,
        ..s
    }
}

fn end_line_exec(s: ObjScan) -> (r: ObjScan)
    requires
        s.value <= MAX_FACE_INDEX + 1,
        s.texcoord_lines < u64::MAX,
        s.normal_lines < u64::MAX,
    ensures
        r == end_line(s),
{
    let e = end_component_exec(s);
    ObjScan {
        rejected: e.rejected || (e.has_slash && e.has_non_ascii && (e.first == FirstWord::F
            || e.first == FirstWord::L || e.first_non_ascii)),
        texcoord_lines: if e.first == FirstWord::Vt {
            e.texcoord_lines + 1
        } else {
            e.texcoord_lines
        },
        normal_lines: if e.first == FirstWord::Vn {
            e.normal_lines + 1
        } else {
            e.normal_lines
        },
        first: FirstWord::Blank,
        first_done: false,
        has_slash: false,
        has_non_ascii: false,
        first_non_ascii: false,
        slot: 0,
        ..e
    }
}

fn next_first_exec(f: FirstWord, b: u8) -> (r: FirstWord)
    ensures
        r == next_first(f, b),
{
    match f {
        FirstWord::Blank => if b == 0x66 {
            FirstWord::F
        } else if b == 0x6C {
            FirstWord::L
        } else if b == 0x76 {
            FirstWord::V
        } else {
            FirstWord::Other
        },
        FirstWord::V => if b == 0x74 {
            FirstWord::Vt
        } else if b == 0x6E {
            FirstWord::Vn
        } else {
            FirstWord::Other
        },
        _ => FirstWord::Other,
    }
}

fn scan_step_exec(s: ObjScan, b: u8) -> (r: ObjScan)
    requires
        s.value <= MAX_FACE_INDEX + 1,
        s.texcoord_lines < u64::MAX,
        s.normal_lines < u64::MAX,
    ensures
        r == scan_step(s, b),
{
    if b == 10 {
        end_line_exec(s)
    } else if !s.first_done {
        if b == 9 || b == 11 || b == 12 || b == 13 || b == 32 {
            if s.first == FirstWord::Blank {
                s
            } else {
                ObjScan { first_done: true, ..s }
            }
        } else {
            ObjScan {
                first: next_first_exec(s.first, b),
                has_slash: s.has_slash || b == 47,
                has_non_ascii: s.has_non_ascii || b >= 128,
                first_non_ascii: s.first_non_ascii || b >= 128,
                ..s
            }
        }
    } else if b == 9 || b == 11 || b == 12 || b == 13 || b == 32 {
        ObjScan { slot: 0, ..end_component_exec(s) }
    } else if b == 47 {
        let e = end_component_exec(s);
        ObjScan {
            has_slash: true,
            slot: if s.slot < 3 {
                s.slot + 1
            } else {
                3
            },
            ..e
        }
    } else if 48 <= b && b <= 57 {
        let v = s.value * 10 + (b - 48) as u64;
        ObjScan {
            digits: true,
            value: if v > MAX_FACE_INDEX + 1 {
                MAX_FACE_INDEX + 1
            } else {
                v
            },
            ..s
        }
    } else if (b == 43 || b == 45) && s.sign == Sign::Unsigned && !s.digits {
        ObjScan {
            sign: if b == 43 {
                Sign::Plus
            } else {
                Sign::Minus
            },
            ..s
        }
    } else {
        ObjScan { malformed: true, has_non_ascii: s.has_non_ascii || b >= 128, ..s }
    }
}

/// Whether every texture and normal index in the faces of `text` is one that
/// the OBJ reader can take.
pub fn faces_safe(text: &[u8]) -> (r: bool)
    ensures
        r == obj_faces_safe(text@),
{
    let mut s = ObjScan {
        rejected: false,
        texcoord_lines: 0,
        normal_lines: 0,
        first: FirstWord::Blank,
        first_done: false,
        has_slash: false,
        has_non_ascii: false,
        first_non_ascii: false,
        slot: 0,
        sign: Sign::Unsigned,
        digits: false,
        value: 0,
        malformed: false,
    };
    let mut i: usize = 0;
    while i < text.len()
        invariant
            i <= text@.len(),
            s == scan(text@.take(i as int)),
            s.value <= MAX_FACE_INDEX + 1,
            s.texcoord_lines <= i,
            s.normal_lines <= i,
        decreases text.len() - i,
    {
        assert(text@.take(i + 1).drop_last() == text@.take(i as int));
        s = scan_step_exec(s, text[i]);
        i = i + 1;
    }
    assert(text@.take(i as int) == text@);
    let e = end_component_exec(s);
    !(e.rejected || (e.has_slash && e.has_non_ascii && (e.first == FirstWord::F || e.first
        == FirstWord::L || e.first_non_ascii)))
}

} // verus!
