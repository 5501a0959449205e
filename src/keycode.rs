//! The table between virtual-key codes and symbolic key names.
use vstd::prelude::*;
use vstd::string::*;

verus! {

broadcast use vstd::string::group_string_axioms;

/// The name of every key that the table knows, by virtual-key code.
pub open spec fn key_name_of(code: u16) -> Option<Seq<char>> {
    match code {
        164 => Some("L_Alt"@),
        165 => Some("R_Alt"@),
        8 => Some("Backspace"@),
        20 => Some("CapsLock"@),
        162 => Some("L_Control"@),
        163 => Some("R_Control"@),
        46 => Some("Delete"@),
        40 => Some("ArrowDown"@),
        35 => Some("End"@),
        27 => Some("Escape"@),
        112 => Some("F1"@),
        121 => Some("F10"@),
        122 => Some("F11"@),
        123 => Some("F12"@),
        113 => Some("F2"@),
        114 => Some("F3"@),
        115 => Some("F4"@),
        116 => Some("F5"@),
        117 => Some("F6"@),
        118 => Some("F7"@),
        119 => Some("F8"@),
        120 => Some("F9"@),
        36 => Some("Home"@),
        37 => Some("ArrowLeft"@),
        91 => Some("L_Windows"@),
        34 => Some("PageDown"@),
        33 => Some("PageUp"@),
        13 => Some("Enter"@),
        39 => Some("ArrowRight"@),
        160 => Some("L_Shift"@),
        161 => Some("R_Shift"@),
        32 => Some("Space"@),
        9 => Some("Tab"@),
        38 => Some("ArrowUp"@),
        44 => Some("PrintScreen"@),
        145 => Some("ScrollLock"@),
        19 => Some("Pause"@),
        144 => Some("NumLock"@),
        192 => Some("BackQuote"@),
        49 => Some("Num1"@),
        50 => Some("Num2"@),
        51 => Some("Num3"@),
        52 => Some("Num4"@),
        53 => Some("Num5"@),
        54 => Some("Num6"@),
        55 => Some("Num7"@),
        56 => Some("Num8"@),
        57 => Some("Num9"@),
        48 => Some("Num0"@),
        189 => Some("Minus"@),
        187 => Some("Equal"@),
        81 => Some("Q"@),
        87 => Some("W"@),
        69 => Some("E"@),
        82 => Some("R"@),
        84 => Some("T"@),
        89 => Some("Y"@),
        85 => Some("U"@),
        73 => Some("I"@),
        79 => Some("O"@),
        80 => Some("P"@),
        219 => Some("L_Bracket"@),
        221 => Some("R_Bracket"@),
        65 => Some("A"@),
        83 => Some("S"@),
        68 => Some("D"@),
        70 => Some("F"@),
        71 => Some("G"@),
        72 => Some("H"@),
        74 => Some("J"@),
        75 => Some("K"@),
        76 => Some("L"@),
        186 => Some("SemiColon"@),
        222 => Some("Quote"@),
        220 => Some("BackSlash"@),
        226 => Some("IntlBackslash"@),
        90 => Some("Z"@),
        88 => Some("X"@),
        67 => Some("C"@),
        86 => Some("V"@),
        66 => Some("B"@),
        78 => Some("N"@),
        77 => Some("M"@),
        188 => Some("Comma"@),
        190 => Some("Dot"@),
        191 => Some("Slash"@),
        45 => Some("Insert"@),
        109 => Some("KeyPadMinus"@),
        107 => Some("KeyPadPlus"@),
        106 => Some("KeyPadMultiply"@),
        111 => Some("KeyPadDivide"@),
        96 => Some("KeyPad0"@),
        97 => Some("KeyPad1"@),
        98 => Some("KeyPad2"@),
        99 => Some("KeyPad3"@),
        100 => Some("KeyPad4"@),
        101 => Some("KeyPad5"@),
        102 => Some("KeyPad6"@),
        103 => Some("KeyPad7"@),
        104 => Some("KeyPad8"@),
        105 => Some("KeyPad9"@),
        110 => Some("KeyPadDelete"@),
        _ => None,
    }
}

/// The name that stands for every code the table does not know.
pub open spec fn unknown_name() -> Seq<char> {
    "Unknown"@
}

/// The name of a code: its entry in the table, else the sentinel.
pub open spec fn spec_key_from_code(code: u16) -> Seq<char> {
    match key_name_of(code) {
        Some(name) => name,
        None => unknown_name(),
    }
}

/// The code whose entry in the table has the given name, if there is one.
pub open spec fn spec_code_from_key(name: Seq<char>) -> Option<u16> {
    if exists|c: u16| key_name_of(c) == Some(name) {
        Some(choose|c: u16| key_name_of(c) == Some(name))
    } else {
        None
    }
}

/// A short fingerprint of a name: its length, its first character and its
/// last two (`'\0'` where the name is shorter).
spec fn signature(s: Seq<char>) -> (int, char, char, char) {
    (
        s.len() as int,
        if s.len() >= 1 { s[0] } else { '\0' },
        if s.len() >= 2 { s[s.len() - 2] } else { '\0' },
        if s.len() >= 1 { s[s.len() - 1] } else { '\0' },
    )
}

/// Recovers a table code from the fingerprint of its name; no two entries
/// share a fingerprint, and neither does the sentinel.
spec fn code_by_signature(s: Seq<char>) -> Option<u16> {
    let g = signature(s);
    if g == (5int, 'L', 'l', 't') {
        Some(164)
    } else if g == (5int, 'R', 'l', 't') {
        Some(165)
    } else if g == (9int, 'B', 'c', 'e') {
        Some(8)
    } else if g == (8int, 'C', 'c', 'k') {
        Some(20)
    } else if g == (9int, 'L', 'o', 'l') {
        Some(162)
    } else if g == (9int, 'R', 'o', 'l') {
        Some(163)
    } else if g == (6int, 'D', 't', 'e') {
        Some(46)
    } else if g == (9int, 'A', 'w', 'n') {
        Some(40)
    } else if g == (3int, 'E', 'n', 'd') {
        Some(35)
    } else if g == (6int, 'E', 'p', 'e') {
        Some(27)
    } else if g == (2int, 'F', 'F', '1') {
        Some(112)
    } else if g == (3int, 'F', '1', '0') {
        Some(121)
    } else if g == (3int, 'F', '1', '1') {
        Some(122)
    } else if g == (3int, 'F', '1', '2') {
        Some(123)
    } else if g == (2int, 'F', 'F', '2') {
        Some(113)
    } else if g == (2int, 'F', 'F', '3') {
        Some(114)
    } else if g == (2int, 'F', 'F', '4') {
        Some(115)
    } else if g == (2int, 'F', 'F', '5') {
        Some(116)
    } else if g == (2int, 'F', 'F', '6') {
        Some(117)
    } else if g == (2int, 'F', 'F', '7') {
        Some(118)
    } else if g == (2int, 'F', 'F', '8') {
        Some(119)
    } else if g == (2int, 'F', 'F', '9') {
        Some(120)
    } else if g == (4int, 'H', 'm', 'e') {
        Some(36)
    } else if g == (9int, 'A', 'f', 't') {
        Some(37)
    } else if g == (9int, 'L', 'w', 's') {
        Some(91)
    } else if g == (8int, 'P', 'w', 'n') {
        Some(34)
    } else if g == (6int, 'P', 'U', 'p') {
        Some(33)
    } else if g == (5int, 'E', 'e', 'r') {
        Some(13)
    } else if g == (10int, 'A', 'h', 't') {
        Some(39)
    } else if g == (7int, 'L', 'f', 't') {
        Some(160)
    } else if g == (7int, 'R', 'f', 't') {
        Some(161)
    } else if g == (5int, 'S', 'c', 'e') {
        Some(32)
    } else if g == (3int, 'T', 'a', 'b') {
        Some(9)
    } else if g == (7int, 'A', 'U', 'p') {
        Some(38)
    } else if g == (11int, 'P', 'e', 'n') {
        Some(44)
    } else if g == (10int, 'S', 'c', 'k') {
        Some(145)
    } else if g == (5int, 'P', 's', 'e') {
        Some(19)
    } else if g == (7int, 'N', 'c', 'k') {
        Some(144)
    } else if g == (9int, 'B', 't', 'e') {
        Some(192)
    } else if g == (4int, 'N', 'm', '1') {
        Some(49)
    } else if g == (4int, 'N', 'm', '2') {
        Some(50)
    } else if g == (4int, 'N', 'm', '3') {
        Some(51)
    } else if g == (4int, 'N', 'm', '4') {
        Some(52)
    } else if g == (4int, 'N', 'm', '5') {
        Some(53)
    } else if g == (4int, 'N', 'm', '6') {
        Some(54)
    } else if g == (4int, 'N', 'm', '7') {
        Some(55)
    } else if g == (4int, 'N', 'm', '8') {
        Some(56)
    } else if g == (4int, 'N', 'm', '9') {
        Some(57)
    } else if g == (4int, 'N', 'm', '0') {
        Some(48)
    } else if g == (5int, 'M', 'u', 's') {
        Some(189)
    } else if g == (5int, 'E', 'a', 'l') {
        Some(187)
    } else if g == (1int, 'Q', '\0', 'Q') {
        Some(81)
    } else if g == (1int, 'W', '\0', 'W') {
        Some(87)
    } else if g == (1int, 'E', '\0', 'E') {
        Some(69)
    } else if g == (1int, 'R', '\0', 'R') {
        Some(82)
    } else if g == (1int, 'T', '\0', 'T') {
        Some(84)
    } else if g == (1int, 'Y', '\0', 'Y') {
        Some(89)
    } else if g == (1int, 'U', '\0', 'U') {
        Some(85)
    } else if g == (1int, 'I', '\0', 'I') {
        Some(73)
    } else if g == (1int, 'O', '\0', 'O') {
        Some(79)
    } else if g == (1int, 'P', '\0', 'P') {
        Some(80)
    } else if g == (9int, 'L', 'e', 't') {
        Some(219)
    } else if g == (9int, 'R', 'e', 't') {
        Some(221)
    } else if g == (1int, 'A', '\0', 'A') {
        Some(65)
    } else if g == (1int, 'S', '\0', 'S') {
        Some(83)
    } else if g == (1int, 'D', '\0', 'D') {
        Some(68)
    } else if g == (1int, 'F', '\0', 'F') {
        Some(70)
    } else if g == (1int, 'G', '\0', 'G') {
        Some(71)
    } else if g == (1int, 'H', '\0', 'H') {
        Some(72)
    } else if g == (1int, 'J', '\0', 'J') {
        Some(74)
    } else if g == (1int, 'K', '\0', 'K') {
        Some(75)
    } else if g == (1int, 'L', '\0', 'L') {
        Some(76)
    } else if g == (9int, 'S', 'o', 'n') {
        Some(186)
    } else if g == (5int, 'Q', 't', 'e') {
        Some(222)
    } else if g == (9int, 'B', 's', 'h') {
        Some(220)
    } else if g == (13int, 'I', 's', 'h') {
        Some(226)
    } else if g == (1int, 'Z', '\0', 'Z') {
        Some(90)
    } else if g == (1int, 'X', '\0', 'X') {
        Some(88)
    } else if g == (1int, 'C', '\0', 'C') {
        Some(67)
    } else if g == (1int, 'V', '\0', 'V') {
        Some(86)
    } else if g == (1int, 'B', '\0', 'B') {
        Some(66)
    } else if g == (1int, 'N', '\0', 'N') {
        Some(78)
    } else if g == (1int, 'M', '\0', 'M') {
        Some(77)
    } else if g == (5int, 'C', 'm', 'a') {
        Some(188)
    } else if g == (3int, 'D', 'o', 't') {
        Some(190)
    } else if g == (5int, 'S', 's', 'h') {
        Some(191)
    } else if g == (6int, 'I', 'r', 't') {
        Some(45)
    } else if g == (11int, 'K', 'u', 's') {
        Some(109)
    } else if g == (10int, 'K', 'u', 's') {
        Some(107)
    } else if g == (14int, 'K', 'l', 'y') {
        Some(106)
    } else if g == (12int, 'K', 'd', 'e') {
        Some(111)
    } else if g == (7int, 'K', 'd', '0') {
        Some(96)
    } else if g == (7int, 'K', 'd', '1') {
        Some(97)
    } else if g == (7int, 'K', 'd', '2') {
        Some(98)
    } else if g == (7int, 'K', 'd', '3') {
        Some(99)
    } else if g == (7int, 'K', 'd', '4') {
        Some(100)
    } else if g == (7int, 'K', 'd', '5') {
        Some(101)
    } else if g == (7int, 'K', 'd', '6') {
        Some(102)
    } else if g == (7int, 'K', 'd', '7') {
        Some(103)
    } else if g == (7int, 'K', 'd', '8') {
        Some(104)
    } else if g == (7int, 'K', 'd', '9') {
        Some(105)
    } else if g == (12int, 'K', 't', 'e') {
        Some(110)
    } else {
        None
    }
}


/// Each name of the table leads back to its own code, and the sentinel to none.
proof fn lemma_signature_inverts_table()
    ensures
        forall|c: u16| #[trigger]
            key_name_of(c) is Some ==> code_by_signature(key_name_of(c).unwrap()) == Some(c),
        code_by_signature(unknown_name()) is None,
{
    reveal_strlit("L_Alt");
    reveal_strlit("R_Alt");
    reveal_strlit("Backspace");
    reveal_strlit("CapsLock");
    reveal_strlit("L_Control");
    reveal_strlit("R_Control");
    reveal_strlit("Delete");
    reveal_strlit("ArrowDown");
    reveal_strlit("End");
    reveal_strlit("Escape");
    reveal_strlit("F1");
    reveal_strlit("F10");
    reveal_strlit("F11");
    reveal_strlit("F12");
    reveal_strlit("F2");
    reveal_strlit("F3");
    reveal_strlit("F4");
    reveal_strlit("F5");
    reveal_strlit("F6");
    reveal_strlit("F7");
    reveal_strlit("F8");
    reveal_strlit("F9");
    reveal_strlit("Home");
    reveal_strlit("ArrowLeft");
    reveal_strlit("L_Windows");
    reveal_strlit("PageDown");
    reveal_strlit("PageUp");
    reveal_strlit("Enter");
    reveal_strlit("ArrowRight");
    reveal_strlit("L_Shift");
    reveal_strlit("R_Shift");
    reveal_strlit("Space");
    reveal_strlit("Tab");
    reveal_strlit("ArrowUp");
    reveal_strlit("PrintScreen");
    reveal_strlit("ScrollLock");
    reveal_strlit("Pause");
    reveal_strlit("NumLock");
    reveal_strlit("BackQuote");
    reveal_strlit("Num1");
    reveal_strlit("Num2");
    reveal_strlit("Num3");
    reveal_strlit("Num4");
    reveal_strlit("Num5");
    reveal_strlit("Num6");
    reveal_strlit("Num7");
    reveal_strlit("Num8");
    reveal_strlit("Num9");
    reveal_strlit("Num0");
    reveal_strlit("Minus");
    reveal_strlit("Equal");
    reveal_strlit("Q");
    reveal_strlit("W");
    reveal_strlit("E");
    reveal_strlit("R");
    reveal_strlit("T");
    reveal_strlit("Y");
    reveal_strlit("U");
    reveal_strlit("I");
    reveal_strlit("O");
    reveal_strlit("P");
    reveal_strlit("L_Bracket");
    reveal_strlit("R_Bracket");
    reveal_strlit("A");
    reveal_strlit("S");
    reveal_strlit("D");
    reveal_strlit("F");
    reveal_strlit("G");
    reveal_strlit("H");
    reveal_strlit("J");
    reveal_strlit("K");
    reveal_strlit("L");
    reveal_strlit("SemiColon");
    reveal_strlit("Quote");
    reveal_strlit("BackSlash");
    reveal_strlit("IntlBackslash");
    reveal_strlit("Z");
    reveal_strlit("X");
    reveal_strlit("C");
    reveal_strlit("V");
    reveal_strlit("B");
    reveal_strlit("N");
    reveal_strlit("M");
    reveal_strlit("Comma");
    reveal_strlit("Dot");
    reveal_strlit("Slash");
    reveal_strlit("Insert");
    reveal_strlit("KeyPadMinus");
    reveal_strlit("KeyPadPlus");
    reveal_strlit("KeyPadMultiply");
    reveal_strlit("KeyPadDivide");
    reveal_strlit("KeyPad0");
    reveal_strlit("KeyPad1");
    reveal_strlit("KeyPad2");
    reveal_strlit("KeyPad3");
    reveal_strlit("KeyPad4");
    reveal_strlit("KeyPad5");
    reveal_strlit("KeyPad6");
    reveal_strlit("KeyPad7");
    reveal_strlit("KeyPad8");
    reveal_strlit("KeyPad9");
    reveal_strlit("KeyPadDelete");
    reveal_strlit("Unknown");
}

/// Returns the symbolic name of a virtual-key code, or `"Unknown"` when the
/// table holds no entry for it.
pub fn key_from_code(code: u16) -> (r: &'static str)
    ensures
        r@ == spec_key_from_code(code),
{
    match code {
        164 => "L_Alt",
        165 => "R_Alt",
        8 => "Backspace",
        20 => "CapsLock",
        162 => "L_Control",
        163 => "R_Control",
        46 => "Delete",
        40 => "ArrowDown",
        35 => "End",
        27 => "Escape",
        112 => "F1",
        121 => "F10",
        122 => "F11",
        123 => "F12",
        113 => "F2",
        114 => "F3",
        115 => "F4",
        116 => "F5",
        117 => "F6",
        118 => "F7",
        119 => "F8",
        120 => "F9",
        36 => "Home",
        37 => "ArrowLeft",
        91 => "L_Windows",
        34 => "PageDown",
        33 => "PageUp",
        13 => "Enter",
        39 => "ArrowRight",
        160 => "L_Shift",
        161 => "R_Shift",
        32 => "Space",
        9 => "Tab",
        38 => "ArrowUp",
        44 => "PrintScreen",
        145 => "ScrollLock",
        19 => "Pause",
        144 => "NumLock",
        192 => "BackQuote",
        49 => "Num1",
        50 => "Num2",
        51 => "Num3",
        52 => "Num4",
        53 => "Num5",
        54 => "Num6",
        55 => "Num7",
        56 => "Num8",
        57 => "Num9",
        48 => "Num0",
        189 => "Minus",
        187 => "Equal",
        81 => "Q",
        87 => "W",
        69 => "E",
        82 => "R",
        84 => "T",
        89 => "Y",
        85 => "U",
        73 => "I",
        79 => "O",
        80 => "P",
        219 => "L_Bracket",
        221 => "R_Bracket",
        65 => "A",
        83 => "S",
        68 => "D",
        70 => "F",
        71 => "G",
        72 => "H",
        74 => "J",
        75 => "K",
        76 => "L",
        186 => "SemiColon",
        222 => "Quote",
        220 => "BackSlash",
        226 => "IntlBackslash",
        90 => "Z",
        88 => "X",
        67 => "C",
        86 => "V",
        66 => "B",
        78 => "N",
        77 => "M",
        188 => "Comma",
        190 => "Dot",
        191 => "Slash",
        45 => "Insert",
        109 => "KeyPadMinus",
        107 => "KeyPadPlus",
        106 => "KeyPadMultiply",
        111 => "KeyPadDivide",
        96 => "KeyPad0",
        97 => "KeyPad1",
        98 => "KeyPad2",
        99 => "KeyPad3",
        100 => "KeyPad4",
        101 => "KeyPad5",
        102 => "KeyPad6",
        103 => "KeyPad7",
        104 => "KeyPad8",
        105 => "KeyPad9",
        110 => "KeyPadDelete",
        _ => "Unknown",
    }
}

/// The code of a table entry is the one that its name looks up.
proof fn lemma_code_of_entry(c: u16)
    requires
        key_name_of(c) is Some,
    ensures
        spec_code_from_key(key_name_of(c).unwrap()) == Some(c),
{
    lemma_signature_inverts_table();
    let name = key_name_of(c).unwrap();
    assert(key_name_of(c) == Some(name));
    let d = choose|d: u16| key_name_of(d) == Some(name);
    assert(code_by_signature(key_name_of(d).unwrap()) == Some(d));
}

/// Whether two strings hold the same characters.
fn str_eq(a: &str, b: &str) -> (r: bool)
    ensures
        r == (a@ == b@),
{
    let n = a.unicode_len();
    if n != b.unicode_len() {
        return false;
    }
    let mut i: usize = 0;
    while i < n
        invariant
            n == a@.len(),
            n == b@.len(),
            i <= n,
            forall|k: int| 0 <= k < i ==> a@[k] == b@[k],
        decreases n - i,
    {
        if a.get_char(i) != b.get_char(i) {
            return false;
        }
        i += 1;
    }
    assert(a@ =~= b@);
    true
}

/// Returns the virtual-key code whose table entry carries the name `key`, or
/// `None` when no entry does (the sentinel `"Unknown"` among them).
pub fn code_from_key(key: &'static str) -> (r: Option<u16>)
    ensures
        r == spec_code_from_key(key@),
{
    if str_eq(key, "L_Alt") {
        proof {
            lemma_code_of_entry(164);
        }
        return Some(164);
    }
    if str_eq(key, "R_Alt") {
        proof {
            lemma_code_of_entry(165);
        }
        return Some(165);
    }
    if str_eq(key, "Backspace") {
        proof {
            lemma_code_of_entry(8);
        }
        return Some(8);
    }
    if str_eq(key, "CapsLock") {
        proof {
            lemma_code_of_entry(20);
        }
        return Some(20);
    }
    if str_eq(key, "L_Control") {
        proof {
            lemma_code_of_entry(162);
        }
        return Some(162);
    }
    if str_eq(key, "R_Control") {
        proof {
            lemma_code_of_entry(163);
        }
        return Some(163);
    }
    if str_eq(key, "Delete") {
        proof {
            lemma_code_of_entry(46);
        }
        return Some(46);
    }
    if str_eq(key, "ArrowDown") {
        proof {
            lemma_code_of_entry(40);
        }
        return Some(40);
    }
    if str_eq(key, "End") {
        proof {
            lemma_code_of_entry(35);
        }
        return Some(35);
    }
    if str_eq(key, "Escape") {
        proof {
            lemma_code_of_entry(27);
        }
        return Some(27);
    }
    if str_eq(key, "F1") {
        proof {
            lemma_code_of_entry(112);
        }
        return Some(112);
    }
    if str_eq(key, "F10") {
        proof {
            lemma_code_of_entry(121);
        }
        return Some(121);
    }
    if str_eq(key, "F11") {
        proof {
            lemma_code_of_entry(122);
        }
        return Some(122);
    }
    if str_eq(key, "F12") {
        proof {
            lemma_code_of_entry(123);
        }
        return Some(123);
    }
    if str_eq(key, "F2") {
        proof {
            lemma_code_of_entry(113);
        }
        return Some(113);
    }
    if str_eq(key, "F3") {
        proof {
            lemma_code_of_entry(114);
        }
        return Some(114);
    }
    if str_eq(key, "F4") {
        proof {
            lemma_code_of_entry(115);
        }
        return Some(115);
    }
    if str_eq(key, "F5") {
        proof {
            lemma_code_of_entry(116);
        }
        return Some(116);
    }
    if str_eq(key, "F6") {
        proof {
            lemma_code_of_entry(117);
        }
        return Some(117);
    }
    if str_eq(key, "F7") {
        proof {
            lemma_code_of_entry(118);
        }
        return Some(118);
    }
    if str_eq(key, "F8") {
        proof {
            lemma_code_of_entry(119);
        }
        return Some(119);
    }
    if str_eq(key, "F9") {
        proof {
            lemma_code_of_entry(120);
        }
        return Some(120);
    }
    if str_eq(key, "Home") {
        proof {
            lemma_code_of_entry(36);
        }
        return Some(36);
    }
    if str_eq(key, "ArrowLeft") {
        proof {
            lemma_code_of_entry(37);
        }
        return Some(37);
    }
    if str_eq(key, "L_Windows") {
        proof {
            lemma_code_of_entry(91);
        }
        return Some(91);
    }
    if str_eq(key, "PageDown") {
        proof {
            lemma_code_of_entry(34);
        }
        return Some(34);
    }
    if str_eq(key, "PageUp") {
        proof {
            lemma_code_of_entry(33);
        }
        return Some(33);
    }
    if str_eq(key, "Enter") {
        proof {
            lemma_code_of_entry(13);
        }
        return Some(13);
    }
    if str_eq(key, "ArrowRight") {
        proof {
            lemma_code_of_entry(39);
        }
        return Some(39);
    }
    if str_eq(key, "L_Shift") {
        proof {
            lemma_code_of_entry(160);
        }
        return Some(160);
    }
    if str_eq(key, "R_Shift") {
        proof {
            lemma_code_of_entry(161);
        }
        return Some(161);
    }
    if str_eq(key, "Space") {
        proof {
            lemma_code_of_entry(32);
        }
        return Some(32);
    }
    if str_eq(key, "Tab") {
        proof {
            lemma_code_of_entry(9);
        }
        return Some(9);
    }
    if str_eq(key, "ArrowUp") {
        proof {
            lemma_code_of_entry(38);
        }
        return Some(38);
    }
    if str_eq(key, "PrintScreen") {
        proof {
            lemma_code_of_entry(44);
        }
        return Some(44);
    }
    if str_eq(key, "ScrollLock") {
        proof {
            lemma_code_of_entry(145);
        }
        return Some(145);
    }
    if str_eq(key, "Pause") {
        proof {
            lemma_code_of_entry(19);
        }
        return Some(19);
    }
    if str_eq(key, "NumLock") {
        proof {
            lemma_code_of_entry(144);
        }
        return Some(144);
    }
    if str_eq(key, "BackQuote") {
        proof {
            lemma_code_of_entry(192);
        }
        return Some(192);
    }
    if str_eq(key, "Num1") {
        proof {
            lemma_code_of_entry(49);
        }
        return Some(49);
    }
    if str_eq(key, "Num2") {
        proof {
            lemma_code_of_entry(50);
        }
        return Some(50);
    }
    if str_eq(key, "Num3") {
        proof {
            lemma_code_of_entry(51);
        }
        return Some(51);
    }
    if str_eq(key, "Num4") {
        proof {
            lemma_code_of_entry(52);
        }
        return Some(52);
    }
    if str_eq(key, "Num5") {
        proof {
            lemma_code_of_entry(53);
        }
        return Some(53);
    }
    if str_eq(key, "Num6") {
        proof {
            lemma_code_of_entry(54);
        }
        return Some(54);
    }
    if str_eq(key, "Num7") {
        proof {
            lemma_code_of_entry(55);
        }
        return Some(55);
    }
    if str_eq(key, "Num8") {
        proof {
            lemma_code_of_entry(56);
        }
        return Some(56);
    }
    if str_eq(key, "Num9") {
        proof {
            lemma_code_of_entry(57);
        }
        return Some(57);
    }
    if str_eq(key, "Num0") {
        proof {
            lemma_code_of_entry(48);
        }
        return Some(48);
    }
    if str_eq(key, "Minus") {
        proof {
            lemma_code_of_entry(189);
        }
        return Some(189);
    }
    if str_eq(key, "Equal") {
        proof {
            lemma_code_of_entry(187);
        }
        return Some(187);
    }
    if str_eq(key, "Q") {
        proof {
            lemma_code_of_entry(81);
        }
        return Some(81);
    }
    if str_eq(key, "W") {
        proof {
            lemma_code_of_entry(87);
        }
        return Some(87);
    }
    if str_eq(key, "E") {
        proof {
            lemma_code_of_entry(69);
        }
        return Some(69);
    }
    if str_eq(key, "R") {
        proof {
            lemma_code_of_entry(82);
        }
        return Some(82);
    }
    if str_eq(key, "T") {
        proof {
            lemma_code_of_entry(84);
        }
        return Some(84);
    }
    if str_eq(key, "Y") {
        proof {
            lemma_code_of_entry(89);
        }
        return Some(89);
    }
    if str_eq(key, "U") {
        proof {
            lemma_code_of_entry(85);
        }
        return Some(85);
    }
    if str_eq(key, "I") {
        proof {
            lemma_code_of_entry(73);
        }
        return Some(73);
    }
    if str_eq(key, "O") {
        proof {
            lemma_code_of_entry(79);
        }
        return Some(79);
    }
    if str_eq(key, "P") {
        proof {
            lemma_code_of_entry(80);
        }
        return Some(80);
    }
    if str_eq(key, "L_Bracket") {
        proof {
            lemma_code_of_entry(219);
        }
        return Some(219);
    }
    if str_eq(key, "R_Bracket") {
        proof {
            lemma_code_of_entry(221);
        }
        return Some(221);
    }
    if str_eq(key, "A") {
        proof {
            lemma_code_of_entry(65);
        }
        return Some(65);
    }
    if str_eq(key, "S") {
        proof {
            lemma_code_of_entry(83);
        }
        return Some(83);
    }
    if str_eq(key, "D") {
        proof {
            lemma_code_of_entry(68);
        }
        return Some(68);
    }
    if str_eq(key, "F") {
        proof {
            lemma_code_of_entry(70);
        }
        return Some(70);
    }
    if str_eq(key, "G") {
        proof {
            lemma_code_of_entry(71);
        }
        return Some(71);
    }
    if str_eq(key, "H") {
        proof {
            lemma_code_of_entry(72);
        }
        return Some(72);
    }
    if str_eq(key, "J") {
        proof {
            lemma_code_of_entry(74);
        }
        return Some(74);
    }
    if str_eq(key, "K") {
        proof {
            lemma_code_of_entry(75);
        }
        return Some(75);
    }
    if str_eq(key, "L") {
        proof {
            lemma_code_of_entry(76);
        }
        return Some(76);
    }
    if str_eq(key, "SemiColon") {
        proof {
            lemma_code_of_entry(186);
        }
        return Some(186);
    }
    if str_eq(key, "Quote") {
        proof {
            lemma_code_of_entry(222);
        }
        return Some(222);
    }
    if str_eq(key, "BackSlash") {
        proof {
            lemma_code_of_entry(220);
        }
        return Some(220);
    }
    if str_eq(key, "IntlBackslash") {
        proof {
            lemma_code_of_entry(226);
        }
        return Some(226);
    }
    if str_eq(key, "Z") {
        proof {
            lemma_code_of_entry(90);
        }
        return Some(90);
    }
    if str_eq(key, "X") {
        proof {
            lemma_code_of_entry(88);
        }
        return Some(88);
    }
    if str_eq(key, "C") {
        proof {
            lemma_code_of_entry(67);
        }
        return Some(67);
    }
    if str_eq(key, "V") {
        proof {
            lemma_code_of_entry(86);
        }
        return Some(86);
    }
    if str_eq(key, "B") {
        proof {
            lemma_code_of_entry(66);
        }
        return Some(66);
    }
    if str_eq(key, "N") {
        proof {
            lemma_code_of_entry(78);
        }
        return Some(78);
    }
    if str_eq(key, "M") {
        proof {
            lemma_code_of_entry(77);
        }
        return Some(77);
    }
    if str_eq(key, "Comma") {
        proof {
            lemma_code_of_entry(188);
        }
        return Some(188);
    }
    if str_eq(key, "Dot") {
        proof {
            lemma_code_of_entry(190);
        }
        return Some(190);
    }
    if str_eq(key, "Slash") {
        proof {
            lemma_code_of_entry(191);
        }
        return Some(191);
    }
    if str_eq(key, "Insert") {
        proof {
            lemma_code_of_entry(45);
        }
        return Some(45);
    }
    if str_eq(key, "KeyPadMinus") {
        proof {
            lemma_code_of_entry(109);
        }
        return Some(109);
    }
    if str_eq(key, "KeyPadPlus") {
        proof {
            lemma_code_of_entry(107);
        }
        return Some(107);
    }
    if str_eq(key, "KeyPadMultiply") {
        proof {
            lemma_code_of_entry(106);
        }
        return Some(106);
    }
    if str_eq(key, "KeyPadDivide") {
        proof {
            lemma_code_of_entry(111);
        }
        return Some(111);
    }
    if str_eq(key, "KeyPad0") {
        proof {
            lemma_code_of_entry(96);
        }
        return Some(96);
    }
    if str_eq(key, "KeyPad1") {
        proof {
            lemma_code_of_entry(97);
        }
        return Some(97);
    }
    if str_eq(key, "KeyPad2") {
        proof {
            lemma_code_of_entry(98);
        }
        return Some(98);
    }
    if str_eq(key, "KeyPad3") {
        proof {
            lemma_code_of_entry(99);
        }
        return Some(99);
    }
    if str_eq(key, "KeyPad4") {
        proof {
            lemma_code_of_entry(100);
        }
        return Some(100);
    }
    if str_eq(key, "KeyPad5") {
        proof {
            lemma_code_of_entry(101);
        }
        return Some(101);
    }
    if str_eq(key, "KeyPad6") {
        proof {
            lemma_code_of_entry(102);
        }
        return Some(102);
    }
    if str_eq(key, "KeyPad7") {
        proof {
            lemma_code_of_entry(103);
        }
        return Some(103);
    }
    if str_eq(key, "KeyPad8") {
        proof {
            lemma_code_of_entry(104);
        }
        return Some(104);
    }
    if str_eq(key, "KeyPad9") {
        proof {
            lemma_code_of_entry(105);
        }
        return Some(105);
    }
    if str_eq(key, "KeyPadDelete") {
        proof {
            lemma_code_of_entry(110);
        }
        return Some(110);
    }
    None
}


/// The sentinel is no name of the table: looking it up finds no code.
pub proof fn lemma_unknown_has_no_code()
    ensures
        spec_code_from_key(unknown_name()) is None,
{
    lemma_signature_inverts_table();
    if exists|c: u16| key_name_of(c) == Some(unknown_name()) {
        let c = choose|c: u16| key_name_of(c) == Some(unknown_name());
        assert(code_by_signature(key_name_of(c).unwrap()) == Some(c));
    }
}

/// Every code survives the trip through its name and back, unless its name is
/// the sentinel, which leads back to no code.
pub proof fn lemma_round_trip(code: u16)
    ensures
        spec_key_from_code(code) != unknown_name() ==> spec_code_from_key(
            spec_key_from_code(code),
        ) == Some(code),
        spec_key_from_code(code) == unknown_name() ==> spec_code_from_key(
            spec_key_from_code(code),
        ) is None,
{
    lemma_unknown_has_no_code();
    lemma_signature_inverts_table();
    if key_name_of(code) is Some {
        lemma_code_of_entry(code);
        assert(code_by_signature(key_name_of(code).unwrap()) == Some(code));
    }
}

/// No two codes share a name, the sentinel aside.
pub proof fn lemma_codes_have_distinct_names(c1: u16, c2: u16)
    requires
        spec_key_from_code(c1) == spec_key_from_code(c2),
        spec_key_from_code(c1) != unknown_name(),
    ensures
        c1 == c2,
{
    lemma_round_trip(c1);
    lemma_round_trip(c2);
}

/// No two names look up the same code.
pub proof fn lemma_names_have_distinct_codes(n1: Seq<char>, n2: Seq<char>)
    requires
        spec_code_from_key(n1) is Some,
        spec_code_from_key(n1) == spec_code_from_key(n2),
    ensures
        n1 == n2,
{
    let c = spec_code_from_key(n1).unwrap();
    assert(key_name_of(c) == Some(n1));
    assert(key_name_of(c) == Some(n2));
}

} // verus!
