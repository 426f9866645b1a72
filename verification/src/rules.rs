//! The rule tables: the characters that no name may hold and the device
//! names that Windows keeps for itself.

use vstd::prelude::*;

verus! {

/// The device names that Windows 11 reserves.
pub const NOT_ALLOWED_NAMES_WIN11: [&'static str; 28] = [
    "CON", "PRN", "AUX", "NUL",
    "COM1", "COM¹", "COM2", "COM²", "COM3", "COM³", "COM4", "COM5", "COM6", "COM7", "COM8", "COM9",
    "LPT1", "LPT¹", "LPT2", "LPT²", "LPT3", "LPT³", "LPT4", "LPT5", "LPT6", "LPT7", "LPT8", "LPT9",
];

/// The device names that Windows 10 and Windows 11 reserve between them.
pub const NOT_ALLOWED_NAMES: [&'static str; 30] = [
    "CON", "PRN", "AUX", "NUL",
    "COM1", "COM¹", "COM2", "COM²", "COM3", "COM³", "COM4", "COM5", "COM6", "COM7", "COM8", "COM9",
    "LPT1", "LPT¹", "LPT2", "LPT²", "LPT3", "LPT³", "LPT4", "LPT5", "LPT6", "LPT7", "LPT8", "LPT9",
    "COM0", "LPT0",
];

/// The characters that no name may hold: the ASCII control characters and
/// the punctuation of Windows paths.
pub const NOT_ALLOWED_CHARS: [char; 41] = [
    '\0', '\u{1}', '\u{2}', '\u{3}', '\u{4}', '\u{5}',
    '\u{6}', '\u{7}', '\u{8}', '\t', '\n', '\u{b}',
    '\u{c}', '\r', '\u{e}', '\u{f}', '\u{10}', '\u{11}',
    '\u{12}', '\u{13}', '\u{14}', '\u{15}', '\u{16}',
    '\u{17}', '\u{18}', '\u{19}', '\u{1a}', '\u{1b}',
    '\u{1c}', '\u{1d}', '\u{1e}', '\u{1f}',
    '\\', '/', ':', '*', '?', '"', '<', '>', '|',
];

/// `c` is an ASCII control character.
pub open spec fn is_control_char(c: char) -> bool {
    (c as u32) < 32
}

/// `c` is one of the nine punctuation characters of Windows paths.
pub open spec fn is_path_punctuation(c: char) -> bool {
    c == '\\' || c == '/' || c == ':' || c == '*' || c == '?' || c == '"' || c == '<' || c == '>'
        || c == '|'
}

/// `c` may not stand in a name.
pub open spec fn is_not_allowed_char(c: char) -> bool {
    is_control_char(c) || is_path_punctuation(c)
}

/// Some character of `name` may not stand in a name.
pub open spec fn has_not_allowed_char(name: Seq<char>) -> bool {
    exists|i: int| 0 <= i < name.len() && is_not_allowed_char(#[trigger] name[i])
}

/// The entries of `NOT_ALLOWED_CHARS`, one by one.
proof fn lemma_not_allowed_chars_entries()
    ensures
        ({
            let t = NOT_ALLOWED_CHARS@;
            &&& t.len() == 41
            &&& forall|i: int| 0 <= i < 32 ==> (#[trigger] t[i]) as u32 == i
            &&& t[32] == '\\' && t[33] == '/' && t[34] == ':' && t[35] == '*' && t[36] == '?'
            &&& t[37] == '"' && t[38] == '<' && t[39] == '>' && t[40] == '|'
        }),
{
    let t = NOT_ALLOWED_CHARS@;
    assert(t[0] as u32 == 0 && t[1] as u32 == 1 && t[2] as u32 == 2 && t[3] as u32 == 3);
    assert(t[4] as u32 == 4 && t[5] as u32 == 5 && t[6] as u32 == 6 && t[7] as u32 == 7);
    assert(t[8] as u32 == 8 && t[9] as u32 == 9 && t[10] as u32 == 10 && t[11] as u32 == 11);
    assert(t[12] as u32 == 12 && t[13] as u32 == 13 && t[14] as u32 == 14 && t[15] as u32 == 15);
    assert(t[16] as u32 == 16 && t[17] as u32 == 17 && t[18] as u32 == 18 && t[19] as u32 == 19);
    assert(t[20] as u32 == 20 && t[21] as u32 == 21 && t[22] as u32 == 22 && t[23] as u32 == 23);
    assert(t[24] as u32 == 24 && t[25] as u32 == 25 && t[26] as u32 == 26 && t[27] as u32 == 27);
    assert(t[28] as u32 == 28 && t[29] as u32 == 29 && t[30] as u32 == 30 && t[31] as u32 == 31);
}

/// Each character that is not allowed stands in `NOT_ALLOWED_CHARS`.
proof fn lemma_not_allowed_char_is_listed(c: char)
    requires
        is_not_allowed_char(c),
    ensures
        NOT_ALLOWED_CHARS@.contains(c),
{
    let t = NOT_ALLOWED_CHARS@;
    lemma_not_allowed_chars_entries();
    if is_control_char(c) {
        assert(t[c as u32 as int] == c);
    }
}

/// `NOT_ALLOWED_CHARS` lists the characters that are not allowed, each of
/// them once: the control characters in the order of their codes, then the
/// punctuation.
pub proof fn lemma_not_allowed_chars_table()
    ensures
        NOT_ALLOWED_CHARS@.len() == 41,
        NOT_ALLOWED_CHARS@.no_duplicates(),
        forall|c: char| NOT_ALLOWED_CHARS@.contains(c) <==> is_not_allowed_char(c),
        forall|i: int| 0 <= i < 32 ==> (#[trigger] NOT_ALLOWED_CHARS@[i]) as u32 == i,
        forall|i: int| 32 <= i < 41 ==> is_path_punctuation(#[trigger] NOT_ALLOWED_CHARS@[i]),
{
    lemma_not_allowed_chars_entries();
    assert forall|c: char| is_not_allowed_char(c) implies NOT_ALLOWED_CHARS@.contains(c) by {
        lemma_not_allowed_char_is_listed(c);
    }
}

/// The reserved device names as sequences of characters: with
/// `strict_check` those of `NOT_ALLOWED_NAMES`, without it those of
/// `NOT_ALLOWED_NAMES_WIN11`.
pub open spec fn reserved_names(strict_check: bool) -> Seq<Seq<char>> {
    if strict_check {
        Seq::new(30, |i: int| NOT_ALLOWED_NAMES@[i]@)
    } else {
        Seq::new(28, |i: int| NOT_ALLOWED_NAMES_WIN11@[i]@)
    }
}

/// `c` numbers a serial or parallel port: a digit from 1 to 9, one of the
/// superscripts ¹ ² ³ and, with `strict_check`, the digit 0.
pub open spec fn is_port_number(c: char, strict_check: bool) -> bool {
    ('1' <= c && c <= '9') || c == '¹' || c == '²' || c == '³' || (strict_check && c == '0')
}

/// `name` is `CON`, `PRN`, `AUX` or `NUL`.
pub open spec fn is_plain_device_name(name: Seq<char>) -> bool {
    &&& name.len() == 3
    &&& {
        ||| name[0] == 'C' && name[1] == 'O' && name[2] == 'N'
        ||| name[0] == 'P' && name[1] == 'R' && name[2] == 'N'
        ||| name[0] == 'A' && name[1] == 'U' && name[2] == 'X'
        ||| name[0] == 'N' && name[1] == 'U' && name[2] == 'L'
    }
}

/// `name` is `COM` or `LPT` with a port number behind it.
pub open spec fn is_port_name(name: Seq<char>, strict_check: bool) -> bool {
    &&& name.len() == 4
    &&& {
        ||| name[0] == 'C' && name[1] == 'O' && name[2] == 'M'
        ||| name[0] == 'L' && name[1] == 'P' && name[2] == 'T'
    }
    &&& is_port_number(name[3], strict_check)
}

/// `name` is a device name, letter for letter.
pub open spec fn is_device_name(name: Seq<char>, strict_check: bool) -> bool {
    is_plain_device_name(name) || is_port_name(name, strict_check)
}

/// The two tables hold the device names and nothing else.
pub proof fn lemma_reserved_names_are_device_names(name: Seq<char>, strict_check: bool)
    ensures
        reserved_names(strict_check).contains(name) <==> is_device_name(name, strict_check),
{
    let strict = reserved_names(true);
    let win11 = reserved_names(false);
    reveal_strlit("CON");
    reveal_strlit("PRN");
    reveal_strlit("AUX");
    reveal_strlit("NUL");
    reveal_strlit("COM1");
    reveal_strlit("COM¹");
    reveal_strlit("COM2");
    reveal_strlit("COM²");
    reveal_strlit("COM3");
    reveal_strlit("COM³");
    reveal_strlit("COM4");
    reveal_strlit("COM5");
    reveal_strlit("COM6");
    reveal_strlit("COM7");
    reveal_strlit("COM8");
    reveal_strlit("COM9");
    reveal_strlit("LPT1");
    reveal_strlit("LPT¹");
    reveal_strlit("LPT2");
    reveal_strlit("LPT²");
    reveal_strlit("LPT3");
    reveal_strlit("LPT³");
    reveal_strlit("LPT4");
    reveal_strlit("LPT5");
    reveal_strlit("LPT6");
    reveal_strlit("LPT7");
    reveal_strlit("LPT8");
    reveal_strlit("LPT9");
    reveal_strlit("COM0");
    reveal_strlit("LPT0");
    assert(strict[0] =~= seq!['C', 'O', 'N']);
    assert(strict[1] =~= seq!['P', 'R', 'N']);
    assert(strict[2] =~= seq!['A', 'U', 'X']);
    assert(strict[3] =~= seq!['N', 'U', 'L']);
    assert(strict[4] =~= seq!['C', 'O', 'M', '1']);
    assert(strict[5] =~= seq!['C', 'O', 'M', '¹']);
    assert(strict[6] =~= seq!['C', 'O', 'M', '2']);
    assert(strict[7] =~= seq!['C', 'O', 'M', '²']);
    assert(strict[8] =~= seq!['C', 'O', 'M', '3']);
    assert(strict[9] =~= seq!['C', 'O', 'M', '³']);
    assert(strict[10] =~= seq!['C', 'O', 'M', '4']);
    assert(strict[11] =~= seq!['C', 'O', 'M', '5']);
    assert(strict[12] =~= seq!['C', 'O', 'M', '6']);
    assert(strict[13] =~= seq!['C', 'O', 'M', '7']);
    assert(strict[14] =~= seq!['C', 'O', 'M', '8']);
    assert(strict[15] =~= seq!['C', 'O', 'M', '9']);
    assert(strict[16] =~= seq!['L', 'P', 'T', '1']);
    assert(strict[17] =~= seq!['L', 'P', 'T', '¹']);
    assert(strict[18] =~= seq!['L', 'P', 'T', '2']);
    assert(strict[19] =~= seq!['L', 'P', 'T', '²']);
    assert(strict[20] =~= seq!['L', 'P', 'T', '3']);
    assert(strict[21] =~= seq!['L', 'P', 'T', '³']);
    assert(strict[22] =~= seq!['L', 'P', 'T', '4']);
    assert(strict[23] =~= seq!['L', 'P', 'T', '5']);
    assert(strict[24] =~= seq!['L', 'P', 'T', '6']);
    assert(strict[25] =~= seq!['L', 'P', 'T', '7']);
    assert(strict[26] =~= seq!['L', 'P', 'T', '8']);
    assert(strict[27] =~= seq!['L', 'P', 'T', '9']);
    assert(strict[28] =~= seq!['C', 'O', 'M', '0']);
    assert(strict[29] =~= seq!['L', 'P', 'T', '0']);
    assert(win11[0] =~= seq!['C', 'O', 'N']);
    assert(win11[1] =~= seq!['P', 'R', 'N']);
    assert(win11[2] =~= seq!['A', 'U', 'X']);
    assert(win11[3] =~= seq!['N', 'U', 'L']);
    assert(win11[4] =~= seq!['C', 'O', 'M', '1']);
    assert(win11[5] =~= seq!['C', 'O', 'M', '¹']);
    assert(win11[6] =~= seq!['C', 'O', 'M', '2']);
    assert(win11[7] =~= seq!['C', 'O', 'M', '²']);
    assert(win11[8] =~= seq!['C', 'O', 'M', '3']);
    assert(win11[9] =~= seq!['C', 'O', 'M', '³']);
    assert(win11[10] =~= seq!['C', 'O', 'M', '4']);
    assert(win11[11] =~= seq!['C', 'O', 'M', '5']);
    assert(win11[12] =~= seq!['C', 'O', 'M', '6']);
    assert(win11[13] =~= seq!['C', 'O', 'M', '7']);
    assert(win11[14] =~= seq!['C', 'O', 'M', '8']);
    assert(win11[15] =~= seq!['C', 'O', 'M', '9']);
    assert(win11[16] =~= seq!['L', 'P', 'T', '1']);
    assert(win11[17] =~= seq!['L', 'P', 'T', '¹']);
    assert(win11[18] =~= seq!['L', 'P', 'T', '2']);
    assert(win11[19] =~= seq!['L', 'P', 'T', '²']);
    assert(win11[20] =~= seq!['L', 'P', 'T', '3']);
    assert(win11[21] =~= seq!['L', 'P', 'T', '³']);
    assert(win11[22] =~= seq!['L', 'P', 'T', '4']);
    assert(win11[23] =~= seq!['L', 'P', 'T', '5']);
    assert(win11[24] =~= seq!['L', 'P', 'T', '6']);
    assert(win11[25] =~= seq!['L', 'P', 'T', '7']);
    assert(win11[26] =~= seq!['L', 'P', 'T', '8']);
    assert(win11[27] =~= seq!['L', 'P', 'T', '9']);
    if is_device_name(name, strict_check) {
        if strict_check {
            if name =~= seq!['C', 'O', 'N'] {
                assert(strict[0] == name);
            } else if name =~= seq!['P', 'R', 'N'] {
                assert(strict[1] == name);
            } else if name =~= seq!['A', 'U', 'X'] {
                assert(strict[2] == name);
            } else if name =~= seq!['N', 'U', 'L'] {
                assert(strict[3] == name);
            } else if name =~= seq!['C', 'O', 'M', '1'] {
                assert(strict[4] == name);
            } else if name =~= seq!['C', 'O', 'M', '¹'] {
                assert(strict[5] == name);
            } else if name =~= seq!['C', 'O', 'M', '2'] {
                assert(strict[6] == name);
            } else if name =~= seq!['C', 'O', 'M', '²'] {
                assert(strict[7] == name);
            } else if name =~= seq!['C', 'O', 'M', '3'] {
                assert(strict[8] == name);
            } else if name =~= seq!['C', 'O', 'M', '³'] {
                assert(strict[9] == name);
            } else if name =~= seq!['C', 'O', 'M', '4'] {
                assert(strict[10] == name);
            } else if name =~= seq!['C', 'O', 'M', '5'] {
                assert(strict[11] == name);
            } else if name =~= seq!['C', 'O', 'M', '6'] {
                assert(strict[12] == name);
            } else if name =~= seq!['C', 'O', 'M', '7'] {
                assert(strict[13] == name);
            } else if name =~= seq!['C', 'O', 'M', '8'] {
                assert(strict[14] == name);
            } else if name =~= seq!['C', 'O', 'M', '9'] {
                assert(strict[15] == name);
            } else if name =~= seq!['L', 'P', 'T', '1'] {
                assert(strict[16] == name);
            } else if name =~= seq!['L', 'P', 'T', '¹'] {
                assert(strict[17] == name);
            } else if name =~= seq!['L', 'P', 'T', '2'] {
                assert(strict[18] == name);
            } else if name =~= seq!['L', 'P', 'T', '²'] {
                assert(strict[19] == name);
            } else if name =~= seq!['L', 'P', 'T', '3'] {
                assert(strict[20] == name);
            } else if name =~= seq!['L', 'P', 'T', '³'] {
                assert(strict[21] == name);
            } else if name =~= seq!['L', 'P', 'T', '4'] {
                assert(strict[22] == name);
            } else if name =~= seq!['L', 'P', 'T', '5'] {
                assert(strict[23] == name);
            } else if name =~= seq!['L', 'P', 'T', '6'] {
                assert(strict[24] == name);
            } else if name =~= seq!['L', 'P', 'T', '7'] {
                assert(strict[25] == name);
            } else if name =~= seq!['L', 'P', 'T', '8'] {
                assert(strict[26] == name);
            } else if name =~= seq!['L', 'P', 'T', '9'] {
                assert(strict[27] == name);
            } else if name =~= seq!['C', 'O', 'M', '0'] {
                assert(strict[28] == name);
            } else if name =~= seq!['L', 'P', 'T', '0'] {
                assert(strict[29] == name);
            }
        } else {
            if name =~= seq!['C', 'O', 'N'] {
                assert(win11[0] == name);
            } else if name =~= seq!['P', 'R', 'N'] {
                assert(win11[1] == name);
            } else if name =~= seq!['A', 'U', 'X'] {
                assert(win11[2] == name);
            } else if name =~= seq!['N', 'U', 'L'] {
                assert(win11[3] == name);
            } else if name =~= seq!['C', 'O', 'M', '1'] {
                assert(win11[4] == name);
            } else if name =~= seq!['C', 'O', 'M', '¹'] {
                assert(win11[5] == name);
            } else if name =~= seq!['C', 'O', 'M', '2'] {
                assert(win11[6] == name);
            } else if name =~= seq!['C', 'O', 'M', '²'] {
                assert(win11[7] == name);
            } else if name =~= seq!['C', 'O', 'M', '3'] {
                assert(win11[8] == name);
            } else if name =~= seq!['C', 'O', 'M', '³'] {
                assert(win11[9] == name);
            } else if name =~= seq!['C', 'O', 'M', '4'] {
                assert(win11[10] == name);
            } else if name =~= seq!['C', 'O', 'M', '5'] {
                assert(win11[11] == name);
            } else if name =~= seq!['C', 'O', 'M', '6'] {
                assert(win11[12] == name);
            } else if name =~= seq!['C', 'O', 'M', '7'] {
                assert(win11[13] == name);
            } else if name =~= seq!['C', 'O', 'M', '8'] {
                assert(win11[14] == name);
            } else if name =~= seq!['C', 'O', 'M', '9'] {
                assert(win11[15] == name);
            } else if name =~= seq!['L', 'P', 'T', '1'] {
                assert(win11[16] == name);
            } else if name =~= seq!['L', 'P', 'T', '¹'] {
                assert(win11[17] == name);
            } else if name =~= seq!['L', 'P', 'T', '2'] {
                assert(win11[18] == name);
            } else if name =~= seq!['L', 'P', 'T', '²'] {
                assert(win11[19] == name);
            } else if name =~= seq!['L', 'P', 'T', '3'] {
                assert(win11[20] == name);
            } else if name =~= seq!['L', 'P', 'T', '³'] {
                assert(win11[21] == name);
            } else if name =~= seq!['L', 'P', 'T', '4'] {
                assert(win11[22] == name);
            } else if name =~= seq!['L', 'P', 'T', '5'] {
                assert(win11[23] == name);
            } else if name =~= seq!['L', 'P', 'T', '6'] {
                assert(win11[24] == name);
            } else if name =~= seq!['L', 'P', 'T', '7'] {
                assert(win11[25] == name);
            } else if name =~= seq!['L', 'P', 'T', '8'] {
                assert(win11[26] == name);
            } else if name =~= seq!['L', 'P', 'T', '9'] {
                assert(win11[27] == name);
            }
        }
    }
}

} // verus!
