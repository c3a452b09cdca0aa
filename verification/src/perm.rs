//! Permission renderings: the symbolic `rwxr-xr-x`-style form and the octal
//! form, both derived from the same raw mode bits, with a proof that the
//! two renderings are mutually consistent.

use vstd::prelude::*;
use crate::config::EntryConst;
use crate::fmt::{markup, markup_of, oct_str, u64_to_oct};

verus! {

/// The read character of a permission triad.
pub open spec fn read_char(set: bool) -> char {
    if set {
        'r'
    } else {
        '-'
    }
}

/// The write character of a permission triad.
pub open spec fn write_char(set: bool) -> char {
    if set {
        'w'
    } else {
        '-'
    }
}

/// The execute character of a permission triad, folded with the triad's
/// special bit (setuid/setgid shown as `s`/`S`, sticky as `t`/`T`).
pub open spec fn exec_char(x: bool, special: bool, lower: char, upper: char) -> char {
    if special {
        if x {
            lower
        } else {
            upper
        }
    } else {
        if x {
            'x'
        } else {
            '-'
        }
    }
}

/// The nine symbolic permission characters for raw mode bits `m`.
pub open spec fn sym_perm(m: u32) -> Seq<char> {
    seq![
        read_char(m & 0o400 != 0),
        write_char(m & 0o200 != 0),
        exec_char(m & 0o100 != 0, m & 0o4000 != 0, 's', 'S'),
        read_char(m & 0o040 != 0),
        write_char(m & 0o020 != 0),
        exec_char(m & 0o010 != 0, m & 0o2000 != 0, 's', 'S'),
        read_char(m & 0o004 != 0),
        write_char(m & 0o002 != 0),
        exec_char(m & 0o001 != 0, m & 0o1000 != 0, 't', 'T'),
    ]
}

/// The permission bits encoded by nine symbolic permission characters:
/// decoding reads each character back into the bit (or pair of bits) that
/// produced it.
pub open spec fn sym_bits(s: Seq<char>) -> u32
    recommends
        s.len() == 9,
{
    (if s[0] == 'r' { 0o400u32 } else { 0u32 })
    | (if s[1] == 'w' { 0o200u32 } else { 0u32 })
    | (if s[2] == 'x' || s[2] == 's' { 0o100u32 } else { 0u32 })
    | (if s[2] == 's' || s[2] == 'S' { 0o4000u32 } else { 0u32 })
    | (if s[3] == 'r' { 0o040u32 } else { 0u32 })
    | (if s[4] == 'w' { 0o020u32 } else { 0u32 })
    | (if s[5] == 'x' || s[5] == 's' { 0o010u32 } else { 0u32 })
    | (if s[5] == 's' || s[5] == 'S' { 0o2000u32 } else { 0u32 })
    | (if s[6] == 'r' { 0o004u32 } else { 0u32 })
    | (if s[7] == 'w' { 0o002u32 } else { 0u32 })
    | (if s[8] == 'x' || s[8] == 't' { 0o001u32 } else { 0u32 })
    | (if s[8] == 't' || s[8] == 'T' { 0o1000u32 } else { 0u32 })
}

/// Decoding the symbolic rendering of any mode recovers exactly the mode's
/// permission bits — the same bits the octal rendering shows.
pub proof fn lemma_sym_oct_consistent(m: u32)
    ensures
        sym_bits(sym_perm(m)) == m & 0o7777,
{
    let s = sym_perm(m);
    assert(s[0] == read_char(m & 0o400 != 0));
    assert(s[1] == write_char(m & 0o200 != 0));
    assert(s[2] == exec_char(m & 0o100 != 0, m & 0o4000 != 0, 's', 'S'));
    assert(s[3] == read_char(m & 0o040 != 0));
    assert(s[4] == write_char(m & 0o020 != 0));
    assert(s[5] == exec_char(m & 0o010 != 0, m & 0o2000 != 0, 's', 'S'));
    assert(s[6] == read_char(m & 0o004 != 0));
    assert(s[7] == write_char(m & 0o002 != 0));
    assert(s[8] == exec_char(m & 0o001 != 0, m & 0o1000 != 0, 't', 'T'));
    assert(((if m & 0o400u32 != 0 { 0o400u32 } else { 0u32 })
        | (if m & 0o200u32 != 0 { 0o200u32 } else { 0u32 })
        | (if m & 0o100u32 != 0 { 0o100u32 } else { 0u32 })
        | (if m & 0o4000u32 != 0 { 0o4000u32 } else { 0u32 })
        | (if m & 0o040u32 != 0 { 0o040u32 } else { 0u32 })
        | (if m & 0o020u32 != 0 { 0o020u32 } else { 0u32 })
        | (if m & 0o010u32 != 0 { 0o010u32 } else { 0u32 })
        | (if m & 0o2000u32 != 0 { 0o2000u32 } else { 0u32 })
        | (if m & 0o004u32 != 0 { 0o004u32 } else { 0u32 })
        | (if m & 0o002u32 != 0 { 0o002u32 } else { 0u32 })
        | (if m & 0o001u32 != 0 { 0o001u32 } else { 0u32 })
        | (if m & 0o1000u32 != 0 { 0o1000u32 } else { 0u32 })) == m & 0o7777u32)
        by (bit_vector);
}

/// Whether a symbolic permission character marks a special mode bit
/// (setuid, setgid or sticky).
pub open spec fn is_special_char(c: char) -> bool {
    c == 's' || c == 'S' || c == 't' || c == 'T'
}

/// The style that applies to one symbolic permission character.
pub open spec fn perm_char_style(c: char, entry_const: EntryConst) -> Seq<char> {
    if is_special_char(c) {
        entry_const.perm_special_style@
    } else {
        entry_const.perm_style@
    }
}

/// One symbolic permission character wrapped in the style of its class.
pub open spec fn styled_perm_char(c: char, entry_const: EntryConst) -> Seq<char> {
    markup_of(perm_char_style(c, entry_const), seq![c])
}

/// The symbolic rendering with each of the nine characters wrapped in the
/// style of its class.
pub open spec fn styled_perm(m: u32, entry_const: EntryConst) -> Seq<char> {
    styled_perm_char(sym_perm(m)[0], entry_const) + styled_perm_char(sym_perm(m)[1], entry_const)
        + styled_perm_char(sym_perm(m)[2], entry_const)
        + styled_perm_char(sym_perm(m)[3], entry_const)
        + styled_perm_char(sym_perm(m)[4], entry_const)
        + styled_perm_char(sym_perm(m)[5], entry_const)
        + styled_perm_char(sym_perm(m)[6], entry_const)
        + styled_perm_char(sym_perm(m)[7], entry_const)
        + styled_perm_char(sym_perm(m)[8], entry_const)
}

/// The permission bits of one filesystem entry, as raw mode bits.
pub struct Perm {
    /// the raw mode bits as the metadata API reports them
    pub mode: u32,
}

impl Perm {
    /// Wrap raw mode bits.
    pub fn from_mode(mode: u32) -> (r: Perm)
        ensures
            r.mode == mode,
    {
        Perm { mode }
    }

    /// The symbolic rendering of the permission bits, one styled character
    /// per permission class.
    #[verifier::rlimit(50)]
    pub fn sym(&self, entry_const: &EntryConst) -> (r: String)
        ensures
            r@ == styled_perm(self.mode, *entry_const),
    {
        let m = self.mode;
        let ghost t = sym_perm(m);
        let ghost ec = *entry_const;
        let mut s = styled_char(read_str(m & 0o400 != 0), false, entry_const);
        let p1 = styled_char(write_str(m & 0o200 != 0), false, entry_const);
        s.append(p1.as_str());
        proof {
            assert(s@ =~= styled_perm_char(t[0], ec) + styled_perm_char(t[1], ec));
        }
        let p2 = styled_char(
            exec_str(m & 0o100 != 0, m & 0o4000 != 0, true),
            m & 0o4000 != 0,
            entry_const,
        );
        s.append(p2.as_str());
        let p3 = styled_char(read_str(m & 0o040 != 0), false, entry_const);
        s.append(p3.as_str());
        proof {
            assert(s@ =~= styled_perm_char(t[0], ec) + styled_perm_char(t[1], ec)
                + styled_perm_char(t[2], ec) + styled_perm_char(t[3], ec));
        }
        let p4 = styled_char(write_str(m & 0o020 != 0), false, entry_const);
        s.append(p4.as_str());
        let p5 = styled_char(
            exec_str(m & 0o010 != 0, m & 0o2000 != 0, true),
            m & 0o2000 != 0,
            entry_const,
        );
        s.append(p5.as_str());
        proof {
            assert(s@ =~= styled_perm_char(t[0], ec) + styled_perm_char(t[1], ec)
                + styled_perm_char(t[2], ec) + styled_perm_char(t[3], ec)
                + styled_perm_char(t[4], ec) + styled_perm_char(t[5], ec));
        }
        let p6 = styled_char(read_str(m & 0o004 != 0), false, entry_const);
        s.append(p6.as_str());
        let p7 = styled_char(write_str(m & 0o002 != 0), false, entry_const);
        s.append(p7.as_str());
        let p8 = styled_char(
            exec_str(m & 0o001 != 0, m & 0o1000 != 0, false),
            m & 0o1000 != 0,
            entry_const,
        );
        s.append(p8.as_str());
        proof {
            assert(s@ =~= styled_perm(m, ec));
        }
        s
    }

    /// The octal rendering of the permission bits (the twelve permission
    /// bits shown as an octal numeral).
    pub fn oct(&self, entry_const: &EntryConst) -> (r: String)
        ensures
            r@ == markup_of(entry_const.oct_style@, oct_str((self.mode & 0o7777) as nat)),
    {
        let value = u64_to_oct((self.mode & 0o7777) as u64);
        markup(entry_const.oct_style.as_str(), value.as_str())
    }
}

/// The one-character string for a triad's read position.
fn read_str(set: bool) -> (r: &'static str)
    ensures
        r@ == seq![read_char(set)],
{
    proof {
        reveal_strlit("r");
        reveal_strlit("-");
    }
    let r: &'static str = if set {
        "r"
    } else {
        "-"
    };
    proof {
        assert(r@ =~= seq![read_char(set)]);
    }
    r
}

/// The one-character string for a triad's write position.
fn write_str(set: bool) -> (r: &'static str)
    ensures
        r@ == seq![write_char(set)],
{
    proof {
        reveal_strlit("w");
        reveal_strlit("-");
    }
    let r: &'static str = if set {
        "w"
    } else {
        "-"
    };
    proof {
        assert(r@ =~= seq![write_char(set)]);
    }
    r
}

/// The one-character string for a triad's execute position; `s_kind`
/// selects the setuid/setgid letters over the sticky letters.
fn exec_str(x: bool, special: bool, s_kind: bool) -> (r: &'static str)
    ensures
        s_kind ==> r@ == seq![exec_char(x, special, 's', 'S')],
        !s_kind ==> r@ == seq![exec_char(x, special, 't', 'T')],
{
    proof {
        reveal_strlit("s");
        reveal_strlit("S");
        reveal_strlit("t");
        reveal_strlit("T");
        reveal_strlit("x");
        reveal_strlit("-");
    }
    let r: &'static str = if special {
        if x {
            if s_kind {
                "s"
            } else {
                "t"
            }
        } else {
            if s_kind {
                "S"
            } else {
                "T"
            }
        }
    } else {
        if x {
            "x"
        } else {
            "-"
        }
    };
    proof {
        if s_kind {
            assert(r@ =~= seq![exec_char(x, special, 's', 'S')]);
        } else {
            assert(r@ =~= seq![exec_char(x, special, 't', 'T')]);
        }
    }
    r
}

/// Wrap one symbolic permission character in the style of its class;
/// `special` says whether the character marks a special mode bit.
fn styled_char(piece: &str, special: bool, entry_const: &EntryConst) -> (r: String)
    requires
        piece@.len() == 1,
        special == is_special_char(piece@[0]),
    ensures
        r@ == markup_of(perm_char_style(piece@[0], *entry_const), piece@),
{
    let style: &String = if special {
        &entry_const.perm_special_style
    } else {
        &entry_const.perm_style
    };
    let r = markup(style.as_str(), piece);
    proof {
        assert(piece@ =~= seq![piece@[0]]);
    }
    r
}

} // verus!
