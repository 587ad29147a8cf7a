//! What the name of an ssh program tells about the kind of client it is.

use vstd::prelude::*;
use crate::ssh::ProgramKind;

verus! {

/// The lower-case form of an ASCII letter; any other byte stays as it is.
pub open spec fn ascii_lower(b: u8) -> u8 {
    if 65 <= b <= 90 {
        (b + 32) as u8
    } else {
        b
    }
}

/// `s` with every ASCII letter in lower case.
pub open spec fn ascii_lowered(s: Seq<u8>) -> Seq<u8> {
    Seq::new(s.len(), |i: int| ascii_lower(s[i]))
}

/// The bytes of `ssh`.
pub open spec fn name_ssh() -> Seq<u8> {
    seq![115, 115, 104]
}

/// The bytes of `plink`.
pub open spec fn name_plink() -> Seq<u8> {
    seq![112, 108, 105, 110, 107]
}

/// The bytes of `putty`.
pub open spec fn name_putty() -> Seq<u8> {
    seq![112, 117, 116, 116, 121]
}

/// The bytes of `tortoiseplink`.
pub open spec fn name_tortoiseplink() -> Seq<u8> {
    seq![116, 111, 114, 116, 111, 105, 115, 101, 112, 108, 105, 110, 107]
}

/// Compares two byte strings without regard to the case of ASCII letters.
pub fn eq_ignore_ascii_case(a: &[u8], b: &[u8]) -> (same: bool)
    ensures
        same == (ascii_lowered(a@) == ascii_lowered(b@)),
{
    if a.len() != b.len() {
        assert(ascii_lowered(a@).len() != ascii_lowered(b@).len());
        return false;
    }
    let mut i: usize = 0;
    while i < a.len()
        invariant
            i <= a.len(),
            a.len() == b.len(),
            forall|k: int| 0 <= k < i ==> ascii_lower(a@[k]) == ascii_lower(b@[k]),
        decreases a.len() - i,
    {
        let x = a[i];
        let y = b[i];
        let lx = if 65 <= x && x <= 90 {
            x + 32
        } else {
            x
        };
        let ly = if 65 <= y && y <= 90 {
            y + 32
        } else {
            y
        };
        if lx != ly {
            assert(ascii_lowered(a@)[i as int] != ascii_lowered(b@)[i as int]);
            return false;
        }
        i += 1;
    }
    assert(ascii_lowered(a@) =~= ascii_lowered(b@));
    true
}

impl ProgramKind {
    /// The name of the executable that belongs to a kind; the simple kind has none.
    pub open spec fn exe_name(self) -> Option<Seq<char>> {
        match self {
            ProgramKind::Ssh => Some("ssh"@),
            ProgramKind::Plink => Some("plink"@),
            ProgramKind::Putty => Some("putty"@),
            ProgramKind::TortoisePlink => Some("tortoiseplink.exe"@),
            ProgramKind::Simple => None,
        }
    }

    /// The kind that a program with the file stem `stem` is taken for: one of the known
    /// clients where the stem is its name in any case, and the simple kind otherwise.
    pub open spec fn of_stem(stem: Option<Seq<u8>>) -> ProgramKind {
        match stem {
            None => ProgramKind::Simple,
            Some(name) => if ascii_lowered(name) == name_ssh() {
                ProgramKind::Ssh
            } else if ascii_lowered(name) == name_plink() {
                ProgramKind::Plink
            } else if ascii_lowered(name) == name_putty() {
                ProgramKind::Putty
            } else if ascii_lowered(name) == name_tortoiseplink() {
                ProgramKind::TortoisePlink
            } else {
                ProgramKind::Simple
            },
        }
    }

    /// Provides the name of the executable that belongs to this kind, or `None` for the
    /// simple kind.
    pub fn exe(&self) -> (name: Option<&'static str>)
        ensures
            name is Some <==> self.exe_name() is Some,
            name matches Some(text) ==> self.exe_name() == Some(text@),
    {
        match self {
            ProgramKind::Ssh => Some("ssh"),
            ProgramKind::Plink => Some("plink"),
            ProgramKind::Putty => Some("putty"),
            ProgramKind::TortoisePlink => Some("tortoiseplink.exe"),
            ProgramKind::Simple => None,
        }
    }

    /// Tells the kind of client from the file stem of its program.
    pub fn from_stem(stem: Option<&[u8]>) -> (kind: ProgramKind)
        ensures
            kind == Self::of_stem(
                match stem {
                    Some(name) => Some(name@),
                    None => None,
                },
            ),
    {
        match stem {
            None => ProgramKind::Simple,
            Some(name) => {
                let ssh: Vec<u8> = vec![115u8, 115u8, 104u8];
                let plink: Vec<u8> = vec![112u8, 108u8, 105u8, 110u8, 107u8];
                let putty: Vec<u8> = vec![112u8, 117u8, 116u8, 116u8, 121u8];
                let tortoiseplink: Vec<u8> = vec![
                    116u8,
                    111u8,
                    114u8,
                    116u8,
                    111u8,
                    105u8,
                    115u8,
                    101u8,
                    112u8,
                    108u8,
                    105u8,
                    110u8,
                    107u8,
                ];
                assert(ascii_lowered(ssh@) =~= name_ssh());
                assert(ascii_lowered(plink@) =~= name_plink());
                assert(ascii_lowered(putty@) =~= name_putty());
                assert(ascii_lowered(tortoiseplink@) =~= name_tortoiseplink());
                if eq_ignore_ascii_case(name, ssh.as_slice()) {
                    ProgramKind::Ssh
                } else if eq_ignore_ascii_case(name, plink.as_slice()) {
                    ProgramKind::Plink
                } else if eq_ignore_ascii_case(name, putty.as_slice()) {
                    ProgramKind::Putty
                } else if eq_ignore_ascii_case(name, tortoiseplink.as_slice()) {
                    ProgramKind::TortoisePlink
                } else {
                    ProgramKind::Simple
                }
            },
        }
    }
}

} // verus!
