use vstd::prelude::*;

verus! {

/// A key as the input hook reports it. Keys that the logic reads are named;
/// any other key is carried by its name.
#[derive(Clone, Debug, PartialEq, Eq)]
pub enum Key {
    KeyA,
    KeyB,
    KeyC,
    KeyD,
    KeyE,
    KeyF,
    KeyG,
    KeyH,
    KeyI,
    KeyJ,
    KeyK,
    KeyL,
    KeyM,
    KeyN,
    KeyO,
    KeyP,
    KeyQ,
    KeyR,
    KeyS,
    KeyT,
    KeyU,
    KeyV,
    KeyW,
    KeyX,
    KeyY,
    KeyZ,
    Num1,
    Num2,
    Num3,
    Num4,
    Num5,
    Num6,
    Num7,
    Num8,
    Num9,
    Num0,
    Space,
    Return,
    Tab,
    ShiftLeft,
    ShiftRight,
    CapsLock,
    /// Any other key, with the name it is logged under.
    Other(String),
}

/// The lower and upper case character of a letter key.
pub open spec fn letter_case(k: Key) -> Option<(char, char)> {
    match k {
        Key::KeyA => Some(('a', 'A')),
        Key::KeyB => Some(('b', 'B')),
        Key::KeyC => Some(('c', 'C')),
        Key::KeyD => Some(('d', 'D')),
        Key::KeyE => Some(('e', 'E')),
        Key::KeyF => Some(('f', 'F')),
        Key::KeyG => Some(('g', 'G')),
        Key::KeyH => Some(('h', 'H')),
        Key::KeyI => Some(('i', 'I')),
        Key::KeyJ => Some(('j', 'J')),
        Key::KeyK => Some(('k', 'K')),
        Key::KeyL => Some(('l', 'L')),
        Key::KeyM => Some(('m', 'M')),
        Key::KeyN => Some(('n', 'N')),
        Key::KeyO => Some(('o', 'O')),
        Key::KeyP => Some(('p', 'P')),
        Key::KeyQ => Some(('q', 'Q')),
        Key::KeyR => Some(('r', 'R')),
        Key::KeyS => Some(('s', 'S')),
        Key::KeyT => Some(('t', 'T')),
        Key::KeyU => Some(('u', 'U')),
        Key::KeyV => Some(('v', 'V')),
        Key::KeyW => Some(('w', 'W')),
        Key::KeyX => Some(('x', 'X')),
        Key::KeyY => Some(('y', 'Y')),
        Key::KeyZ => Some(('z', 'Z')),
        _ => None,
    }
}

/// The plain and shifted character of a digit key.
pub open spec fn digit_case(k: Key) -> Option<(char, char)> {
    match k {
        Key::Num1 => Some(('1', '!')),
        Key::Num2 => Some(('2', '@')),
        Key::Num3 => Some(('3', '#')),
        Key::Num4 => Some(('4', '$')),
        Key::Num5 => Some(('5', '%')),
        Key::Num6 => Some(('6', '^')),
        Key::Num7 => Some(('7', '&')),
        Key::Num8 => Some(('8', '*')),
        Key::Num9 => Some(('9', '(')),
        Key::Num0 => Some(('0', ')')),
        _ => None,
    }
}

/// The character of a whitespace key.
pub open spec fn whitespace_char(k: Key) -> Option<char> {
    match k {
        Key::Space => Some(' '),
        Key::Return => Some('\n'),
        Key::Tab => Some('\t'),
        _ => None,
    }
}

/// The text that a key press produces under the given modifier state.
pub open spec fn resolve(k: Key, shift: bool, caps: bool) -> Option<Seq<char>> {
    if let Some((lower, upper)) = letter_case(k) {
        Some(seq![if shift != caps { upper } else { lower }])
    } else if let Some((plain, shifted)) = digit_case(k) {
        Some(seq![if shift { shifted } else { plain }])
    } else if let Some(c) = whitespace_char(k) {
        Some(seq![c])
    } else {
        None
    }
}

pub open spec fn is_ascii_upper(c: char) -> bool {
    'A' <= c <= 'Z'
}

pub open spec fn is_ascii_lower(c: char) -> bool {
    'a' <= c <= 'z'
}

/// The name under which a key is logged.
pub open spec fn key_name(k: Key) -> Seq<char> {
    match k {
        Key::KeyA => "KeyA"@,
        Key::KeyB => "KeyB"@,
        Key::KeyC => "KeyC"@,
        Key::KeyD => "KeyD"@,
        Key::KeyE => "KeyE"@,
        Key::KeyF => "KeyF"@,
        Key::KeyG => "KeyG"@,
        Key::KeyH => "KeyH"@,
        Key::KeyI => "KeyI"@,
        Key::KeyJ => "KeyJ"@,
        Key::KeyK => "KeyK"@,
        Key::KeyL => "KeyL"@,
        Key::KeyM => "KeyM"@,
        Key::KeyN => "KeyN"@,
        Key::KeyO => "KeyO"@,
        Key::KeyP => "KeyP"@,
        Key::KeyQ => "KeyQ"@,
        Key::KeyR => "KeyR"@,
        Key::KeyS => "KeyS"@,
        Key::KeyT => "KeyT"@,
        Key::KeyU => "KeyU"@,
        Key::KeyV => "KeyV"@,
        Key::KeyW => "KeyW"@,
        Key::KeyX => "KeyX"@,
        Key::KeyY => "KeyY"@,
        Key::KeyZ => "KeyZ"@,
        Key::Num1 => "Num1"@,
        Key::Num2 => "Num2"@,
        Key::Num3 => "Num3"@,
        Key::Num4 => "Num4"@,
        Key::Num5 => "Num5"@,
        Key::Num6 => "Num6"@,
        Key::Num7 => "Num7"@,
        Key::Num8 => "Num8"@,
        Key::Num9 => "Num9"@,
        Key::Num0 => "Num0"@,
        Key::Space => "Space"@,
        Key::Return => "Return"@,
        Key::Tab => "Tab"@,
        Key::ShiftLeft => "ShiftLeft"@,
        Key::ShiftRight => "ShiftRight"@,
        Key::CapsLock => "CapsLock"@,
        Key::Other(name) => name@,
    }
}

impl Key {
    pub open spec fn is_shift(&self) -> bool {
        self is ShiftLeft || self is ShiftRight
    }

    /// The name under which this key is logged.
    pub fn name(&self) -> (r: String)
        ensures
            r@ == key_name(*self),
    {
        match self {
            Key::KeyA => "KeyA".to_owned(),
            Key::KeyB => "KeyB".to_owned(),
            Key::KeyC => "KeyC".to_owned(),
            Key::KeyD => "KeyD".to_owned(),
            Key::KeyE => "KeyE".to_owned(),
            Key::KeyF => "KeyF".to_owned(),
            Key::KeyG => "KeyG".to_owned(),
            Key::KeyH => "KeyH".to_owned(),
            Key::KeyI => "KeyI".to_owned(),
            Key::KeyJ => "KeyJ".to_owned(),
            Key::KeyK => "KeyK".to_owned(),
            Key::KeyL => "KeyL".to_owned(),
            Key::KeyM => "KeyM".to_owned(),
            Key::KeyN => "KeyN".to_owned(),
            Key::KeyO => "KeyO".to_owned(),
            Key::KeyP => "KeyP".to_owned(),
            Key::KeyQ => "KeyQ".to_owned(),
            Key::KeyR => "KeyR".to_owned(),
            Key::KeyS => "KeyS".to_owned(),
            Key::KeyT => "KeyT".to_owned(),
            Key::KeyU => "KeyU".to_owned(),
            Key::KeyV => "KeyV".to_owned(),
            Key::KeyW => "KeyW".to_owned(),
            Key::KeyX => "KeyX".to_owned(),
            Key::KeyY => "KeyY".to_owned(),
            Key::KeyZ => "KeyZ".to_owned(),
            Key::Num1 => "Num1".to_owned(),
            Key::Num2 => "Num2".to_owned(),
            Key::Num3 => "Num3".to_owned(),
            Key::Num4 => "Num4".to_owned(),
            Key::Num5 => "Num5".to_owned(),
            Key::Num6 => "Num6".to_owned(),
            Key::Num7 => "Num7".to_owned(),
            Key::Num8 => "Num8".to_owned(),
            Key::Num9 => "Num9".to_owned(),
            Key::Num0 => "Num0".to_owned(),
            Key::Space => "Space".to_owned(),
            Key::Return => "Return".to_owned(),
            Key::Tab => "Tab".to_owned(),
            Key::ShiftLeft => "ShiftLeft".to_owned(),
            Key::ShiftRight => "ShiftRight".to_owned(),
            Key::CapsLock => "CapsLock".to_owned(),
            Key::Other(name) => name.clone(),
        }
    }

    fn letter_case(&self) -> (r: Option<(char, char)>)
        ensures
            r == letter_case(*self),
    {
        match self {
            Key::KeyA => Some(('a', 'A')),
            Key::KeyB => Some(('b', 'B')),
            Key::KeyC => Some(('c', 'C')),
            Key::KeyD => Some(('d', 'D')),
            Key::KeyE => Some(('e', 'E')),
            Key::KeyF => Some(('f', 'F')),
            Key::KeyG => Some(('g', 'G')),
            Key::KeyH => Some(('h', 'H')),
            Key::KeyI => Some(('i', 'I')),
            Key::KeyJ => Some(('j', 'J')),
            Key::KeyK => Some(('k', 'K')),
            Key::KeyL => Some(('l', 'L')),
            Key::KeyM => Some(('m', 'M')),
            Key::KeyN => Some(('n', 'N')),
            Key::KeyO => Some(('o', 'O')),
            Key::KeyP => Some(('p', 'P')),
            Key::KeyQ => Some(('q', 'Q')),
            Key::KeyR => Some(('r', 'R')),
            Key::KeyS => Some(('s', 'S')),
            Key::KeyT => Some(('t', 'T')),
            Key::KeyU => Some(('u', 'U')),
            Key::KeyV => Some(('v', 'V')),
            Key::KeyW => Some(('w', 'W')),
            Key::KeyX => Some(('x', 'X')),
            Key::KeyY => Some(('y', 'Y')),
            Key::KeyZ => Some(('z', 'Z')),
            _ => None,
        }
    }

    fn digit_case(&self) -> (r: Option<(char, char)>)
        ensures
            r == digit_case(*self),
    {
        match self {
            Key::Num1 => Some(('1', '!')),
            Key::Num2 => Some(('2', '@')),
            Key::Num3 => Some(('3', '#')),
            Key::Num4 => Some(('4', '$')),
            Key::Num5 => Some(('5', '%')),
            Key::Num6 => Some(('6', '^')),
            Key::Num7 => Some(('7', '&')),
            Key::Num8 => Some(('8', '*')),
            Key::Num9 => Some(('9', '(')),
            Key::Num0 => Some(('0', ')')),
            _ => None,
        }
    }
}

/// A character that some key resolves to.
pub open spec fn is_resolvable_char(c: char) -> bool {
    ||| 'a' <= c <= 'z'
    ||| 'A' <= c <= 'Z'
    ||| '0' <= c <= '9'
    ||| c == '!' || c == '@' || c == '#' || c == '$' || c == '%'
    ||| c == '^' || c == '&' || c == '*' || c == '(' || c == ')'
    ||| c == ' ' || c == '\n' || c == '\t'
}

/// The one-character string holding `c`.
fn char_text(c: char) -> (r: String)
    requires
        is_resolvable_char(c),
    ensures
        r@ == seq![c],
{
    match c {
        'a' => {
            proof {
                reveal_strlit("a");
            }
            "a".to_owned()
        },
        'b' => {
            proof {
                reveal_strlit("b");
            }
            "b".to_owned()
        },
        'c' => {
            proof {
                reveal_strlit("c");
            }
            "c".to_owned()
        },
        'd' => {
            proof {
                reveal_strlit("d");
            }
            "d".to_owned()
        },
        'e' => {
            proof {
                reveal_strlit("e");
            }
            "e".to_owned()
        },
        'f' => {
            proof {
                reveal_strlit("f");
            }
            "f".to_owned()
        },
        'g' => {
            proof {
                reveal_strlit("g");
            }
            "g".to_owned()
        },
        'h' => {
            proof {
                reveal_strlit("h");
            }
            "h".to_owned()
        },
        'i' => {
            proof {
                reveal_strlit("i");
            }
            "i".to_owned()
        },
        'j' => {
            proof {
                reveal_strlit("j");
            }
            "j".to_owned()
        },
        'k' => {
            proof {
                reveal_strlit("k");
            }
            "k".to_owned()
        },
        'l' => {
            proof {
                reveal_strlit("l");
            }
            "l".to_owned()
        },
        'm' => {
            proof {
                reveal_strlit("m");
            }
            "m".to_owned()
        },
        'n' => {
            proof {
                reveal_strlit("n");
            }
            "n".to_owned()
        },
        'o' => {
            proof {
                reveal_strlit("o");
            }
            "o".to_owned()
        },
        'p' => {
            proof {
                reveal_strlit("p");
            }
            "p".to_owned()
        },
        'q' => {
            proof {
                reveal_strlit("q");
            }
            "q".to_owned()
        },
        'r' => {
            proof {
                reveal_strlit("r");
            }
            "r".to_owned()
        },
        's' => {
            proof {
                reveal_strlit("s");
            }
            "s".to_owned()
        },
        't' => {
            proof {
                reveal_strlit("t");
            }
            "t".to_owned()
        },
        'u' => {
            proof {
                reveal_strlit("u");
            }
            "u".to_owned()
        },
        'v' => {
            proof {
                reveal_strlit("v");
            }
            "v".to_owned()
        },
        'w' => {
            proof {
                reveal_strlit("w");
            }
            "w".to_owned()
        },
        'x' => {
            proof {
                reveal_strlit("x");
            }
            "x".to_owned()
        },
        'y' => {
            proof {
                reveal_strlit("y");
            }
            "y".to_owned()
        },
        'z' => {
            proof {
                reveal_strlit("z");
            }
            "z".to_owned()
        },
        'A' => {
            proof {
                reveal_strlit("A");
            }
            "A".to_owned()
        },
        'B' => {
            proof {
                reveal_strlit("B");
            }
            "B".to_owned()
        },
        'C' => {
            proof {
                reveal_strlit("C");
            }
            "C".to_owned()
        },
        'D' => {
            proof {
                reveal_strlit("D");
            }
            "D".to_owned()
        },
        'E' => {
            proof {
                reveal_strlit("E");
            }
            "E".to_owned()
        },
        'F' => {
            proof {
                reveal_strlit("F");
            }
            "F".to_owned()
        },
        'G' => {
            proof {
                reveal_strlit("G");
            }
            "G".to_owned()
        },
        'H' => {
            proof {
                reveal_strlit("H");
            }
            "H".to_owned()
        },
        'I' => {
            proof {
                reveal_strlit("I");
            }
            "I".to_owned()
        },
        'J' => {
            proof {
                reveal_strlit("J");
            }
            "J".to_owned()
        },
        'K' => {
            proof {
                reveal_strlit("K");
            }
            "K".to_owned()
        },
        'L' => {
            proof {
                reveal_strlit("L");
            }
            "L".to_owned()
        },
        'M' => {
            proof {
                reveal_strlit("M");
            }
            "M".to_owned()
        },
        'N' => {
            proof {
                reveal_strlit("N");
            }
            "N".to_owned()
        },
        'O' => {
            proof {
                reveal_strlit("O");
            }
            "O".to_owned()
        },
        'P' => {
            proof {
                reveal_strlit("P");
            }
            "P".to_owned()
        },
        'Q' => {
            proof {
                reveal_strlit("Q");
            }
            "Q".to_owned()
        },
        'R' => {
            proof {
                reveal_strlit("R");
            }
            "R".to_owned()
        },
        'S' => {
            proof {
                reveal_strlit("S");
            }
            "S".to_owned()
        },
        'T' => {
            proof {
                reveal_strlit("T");
            }
            "T".to_owned()
        },
        'U' => {
            proof {
                reveal_strlit("U");
            }
            "U".to_owned()
        },
        'V' => {
            proof {
                reveal_strlit("V");
            }
            "V".to_owned()
        },
        'W' => {
            proof {
                reveal_strlit("W");
            }
            "W".to_owned()
        },
        'X' => {
            proof {
                reveal_strlit("X");
            }
            "X".to_owned()
        },
        'Y' => {
            proof {
                reveal_strlit("Y");
            }
            "Y".to_owned()
        },
        'Z' => {
            proof {
                reveal_strlit("Z");
            }
            "Z".to_owned()
        },
        '0' => {
            proof {
                reveal_strlit("0");
            }
            "0".to_owned()
        },
        '1' => {
            proof {
                reveal_strlit("1");
            }
            "1".to_owned()
        },
        '2' => {
            proof {
                reveal_strlit("2");
            }
            "2".to_owned()
        },
        '3' => {
            proof {
                reveal_strlit("3");
            }
            "3".to_owned()
        },
        '4' => {
            proof {
                reveal_strlit("4");
            }
            "4".to_owned()
        },
        '5' => {
            proof {
                reveal_strlit("5");
            }
            "5".to_owned()
        },
        '6' => {
            proof {
                reveal_strlit("6");
            }
            "6".to_owned()
        },
        '7' => {
            proof {
                reveal_strlit("7");
            }
            "7".to_owned()
        },
        '8' => {
            proof {
                reveal_strlit("8");
            }
            "8".to_owned()
        },
        '9' => {
            proof {
                reveal_strlit("9");
            }
            "9".to_owned()
        },
        '!' => {
            proof {
                reveal_strlit("!");
            }
            "!".to_owned()
        },
        '@' => {
            proof {
                reveal_strlit("@");
            }
            "@".to_owned()
        },
        '#' => {
            proof {
                reveal_strlit("#");
            }
            "#".to_owned()
        },
        '$' => {
            proof {
                reveal_strlit("$");
            }
            "$".to_owned()
        },
        '%' => {
            proof {
                reveal_strlit("%");
            }
            "%".to_owned()
        },
        '^' => {
            proof {
                reveal_strlit("^");
            }
            "^".to_owned()
        },
        '&' => {
            proof {
                reveal_strlit("&");
            }
            "&".to_owned()
        },
        '*' => {
            proof {
                reveal_strlit("*");
            }
            "*".to_owned()
        },
        '(' => {
            proof {
                reveal_strlit("(");
            }
            "(".to_owned()
        },
        ')' => {
            proof {
                reveal_strlit(")");
            }
            ")".to_owned()
        },
        ' ' => {
            proof {
                reveal_strlit(" ");
            }
            " ".to_owned()
        },
        '\n' => {
            proof {
                reveal_strlit("\n");
            }
            "\n".to_owned()
        },
        '\t' => {
            proof {
                reveal_strlit("\t");
            }
            "\t".to_owned()
        },
        _ => {
            assert(false);
            String::new()
        },
    }
}

/// The printable text that pressing `key` produces, if any. A letter is upper
/// case when exactly one of shift and caps lock is on; shift selects the
/// symbol of a digit key; space, enter and tab give their whitespace.
pub fn key_to_char(key: &Key, shift: bool, caps: bool) -> (r: Option<String>)
    ensures
        r is None <==> resolve(*key, shift, caps) is None,
        r is Some ==> r->0@ == resolve(*key, shift, caps)->0,
{
    if let Some((lower, upper)) = key.letter_case() {
        let is_upper: bool = shift ^ caps;
        Some(char_text(if is_upper { upper } else { lower }))
    } else if let Some((plain, shifted)) = key.digit_case() {
        Some(char_text(if shift { shifted } else { plain }))
    } else {
        match key {
            Key::Space => Some(char_text(' ')),
            Key::Return => Some(char_text('\n')),
            Key::Tab => Some(char_text('\t')),
            _ => None,
        }
    }
}

/// A resolved letter is upper case exactly when shift and caps lock differ,
/// and lower case otherwise; a digit key gives its shifted symbol exactly when
/// shift is held, whatever caps lock is; a key outside the letters, digits and
/// whitespace gives nothing.
pub proof fn lemma_resolution_case(k: Key, shift: bool, caps: bool)
    ensures
        letter_case(k) is Some ==> {
            let c = resolve(k, shift, caps)->0;
            &&& c.len() == 1
            &&& is_ascii_upper(c[0]) <==> (shift != caps)
            &&& is_ascii_lower(c[0]) <==> (shift == caps)
        },
        digit_case(k) is Some ==> {
            let (plain, shifted) = digit_case(k)->0;
            resolve(k, shift, caps) == Some(seq![if shift { shifted } else { plain }])
        },
        digit_case(k) is Some ==> resolve(k, shift, caps) == resolve(k, shift, !caps),
        (letter_case(k) is None && digit_case(k) is None && whitespace_char(k) is None)
            ==> resolve(k, shift, caps) is None,
{
}

} // verus!
