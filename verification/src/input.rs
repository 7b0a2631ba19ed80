//! Key presses and typed text as input for the editor.

use vstd::prelude::*;
use vstd::string::{StrSliceExecFns, StringExecFns};

verus! {

/// Whether two strings hold the same characters.
pub fn str_eq(a: &str, b: &str) -> (same: bool)
    ensures
        same == (a@ == b@),
{
    let n = a.unicode_len();
    if n != b.unicode_len() {
        return false;
    }
    let mut i: usize = 0;
    while i < n
        invariant
            i <= n,
            n == a@.len(),
            n == b@.len(),
            forall|j: int| 0 <= j < i ==> a@[j] == b@[j],
        decreases n - i,
    {
        if a.get_char(i) != b.get_char(i) {
            return false;
        }
        i += 1;
    }
    assert(a@ =~= b@);
    true
}

/// The editor's name for the key that the windowing system calls `name`,
/// for the keys whose two names differ or that are written out by name.
pub open spec fn nvim_key(name: Seq<char>) -> Option<Seq<char>> {
    if name == "asciicircum"@ {
        Some("^"@)
    } else     if name == "slash"@ {
        Some("/"@)
    } else     if name == "backslash"@ {
        Some("\\"@)
    } else     if name == "dead_circumflex"@ {
        Some("^"@)
    } else     if name == "at"@ {
        Some("@"@)
    } else     if name == "numbersign"@ {
        Some("#"@)
    } else     if name == "dollar"@ {
        Some("$"@)
    } else     if name == "percent"@ {
        Some("%"@)
    } else     if name == "ampersand"@ {
        Some("&"@)
    } else     if name == "asterisk"@ {
        Some("*"@)
    } else     if name == "parenleft"@ {
        Some("("@)
    } else     if name == "parenright"@ {
        Some(")"@)
    } else     if name == "underscore"@ {
        Some("_"@)
    } else     if name == "plus"@ {
        Some("+"@)
    } else     if name == "minus"@ {
        Some("-"@)
    } else     if name == "bracketleft"@ {
        Some("["@)
    } else     if name == "bracketright"@ {
        Some("]"@)
    } else     if name == "braceleft"@ {
        Some("{"@)
    } else     if name == "braceright"@ {
        Some("}"@)
    } else     if name == "dead_diaeresis"@ {
        Some("\""@)
    } else     if name == "dead_acute"@ {
        Some("'"@)
    } else     if name == "less"@ {
        Some("<"@)
    } else     if name == "greater"@ {
        Some(">"@)
    } else     if name == "comma"@ {
        Some(","@)
    } else     if name == "period"@ {
        Some("."@)
    } else     if name == "space"@ {
        Some("Space"@)
    } else     if name == "BackSpace"@ {
        Some("BS"@)
    } else     if name == "Insert"@ {
        Some("Insert"@)
    } else     if name == "Return"@ {
        Some("CR"@)
    } else     if name == "Escape"@ {
        Some("Esc"@)
    } else     if name == "Delete"@ {
        Some("Del"@)
    } else     if name == "Page_Up"@ {
        Some("PageUp"@)
    } else     if name == "Page_Down"@ {
        Some("PageDown"@)
    } else     if name == "Enter"@ {
        Some("CR"@)
    } else     if name == "ISO_Left_Tab"@ {
        Some("Tab"@)
    } else     if name == "Tab"@ {
        Some("Tab"@)
    } else     if name == "Up"@ {
        Some("Up"@)
    } else     if name == "Down"@ {
        Some("Down"@)
    } else     if name == "Left"@ {
        Some("Left"@)
    } else     if name == "Right"@ {
        Some("Right"@)
    } else     if name == "Home"@ {
        Some("Home"@)
    } else     if name == "End"@ {
        Some("End"@)
    } else     if name == "F1"@ {
        Some("F1"@)
    } else     if name == "F2"@ {
        Some("F2"@)
    } else     if name == "F3"@ {
        Some("F3"@)
    } else     if name == "F4"@ {
        Some("F4"@)
    } else     if name == "F5"@ {
        Some("F5"@)
    } else     if name == "F6"@ {
        Some("F6"@)
    } else     if name == "F7"@ {
        Some("F7"@)
    } else     if name == "F8"@ {
        Some("F8"@)
    } else     if name == "F9"@ {
        Some("F9"@)
    } else     if name == "F10"@ {
        Some("F10"@)
    } else     if name == "F11"@ {
        Some("F11"@)
    } else     if name == "F12"@ {
        Some("F12"@)
    } else {
        None
    }
}

/// Looks up the editor's name for the key that the windowing system calls
/// `s`.
pub fn keyname_to_nvim_key(s: &str) -> (key: Option<&'static str>)
    ensures
        match key {
            Some(k) => nvim_key(s@) == Some(k@),
            None => nvim_key(s@).is_none(),
        },
{
    if str_eq(s, "asciicircum") {
        return Some("^");
    }
    if str_eq(s, "slash") {
        return Some("/");
    }
    if str_eq(s, "backslash") {
        return Some("\\");
    }
    if str_eq(s, "dead_circumflex") {
        return Some("^");
    }
    if str_eq(s, "at") {
        return Some("@");
    }
    if str_eq(s, "numbersign") {
        return Some("#");
    }
    if str_eq(s, "dollar") {
        return Some("$");
    }
    if str_eq(s, "percent") {
        return Some("%");
    }
    if str_eq(s, "ampersand") {
        return Some("&");
    }
    if str_eq(s, "asterisk") {
        return Some("*");
    }
    if str_eq(s, "parenleft") {
        return Some("(");
    }
    if str_eq(s, "parenright") {
        return Some(")");
    }
    if str_eq(s, "underscore") {
        return Some("_");
    }
    if str_eq(s, "plus") {
        return Some("+");
    }
    if str_eq(s, "minus") {
        return Some("-");
    }
    if str_eq(s, "bracketleft") {
        return Some("[");
    }
    if str_eq(s, "bracketright") {
        return Some("]");
    }
    if str_eq(s, "braceleft") {
        return Some("{");
    }
    if str_eq(s, "braceright") {
        return Some("}");
    }
    if str_eq(s, "dead_diaeresis") {
        return Some("\"");
    }
    if str_eq(s, "dead_acute") {
        return Some("'");
    }
    if str_eq(s, "less") {
        return Some("<");
    }
    if str_eq(s, "greater") {
        return Some(">");
    }
    if str_eq(s, "comma") {
        return Some(",");
    }
    if str_eq(s, "period") {
        return Some(".");
    }
    if str_eq(s, "space") {
        return Some("Space");
    }
    if str_eq(s, "BackSpace") {
        return Some("BS");
    }
    if str_eq(s, "Insert") {
        return Some("Insert");
    }
    if str_eq(s, "Return") {
        return Some("CR");
    }
    if str_eq(s, "Escape") {
        return Some("Esc");
    }
    if str_eq(s, "Delete") {
        return Some("Del");
    }
    if str_eq(s, "Page_Up") {
        return Some("PageUp");
    }
    if str_eq(s, "Page_Down") {
        return Some("PageDown");
    }
    if str_eq(s, "Enter") {
        return Some("CR");
    }
    if str_eq(s, "ISO_Left_Tab") {
        return Some("Tab");
    }
    if str_eq(s, "Tab") {
        return Some("Tab");
    }
    if str_eq(s, "Up") {
        return Some("Up");
    }
    if str_eq(s, "Down") {
        return Some("Down");
    }
    if str_eq(s, "Left") {
        return Some("Left");
    }
    if str_eq(s, "Right") {
        return Some("Right");
    }
    if str_eq(s, "Home") {
        return Some("Home");
    }
    if str_eq(s, "End") {
        return Some("End");
    }
    if str_eq(s, "F1") {
        return Some("F1");
    }
    if str_eq(s, "F2") {
        return Some("F2");
    }
    if str_eq(s, "F3") {
        return Some("F3");
    }
    if str_eq(s, "F4") {
        return Some("F4");
    }
    if str_eq(s, "F5") {
        return Some("F5");
    }
    if str_eq(s, "F6") {
        return Some("F6");
    }
    if str_eq(s, "F7") {
        return Some("F7");
    }
    if str_eq(s, "F8") {
        return Some("F8");
    }
    if str_eq(s, "F9") {
        return Some("F9");
    }
    if str_eq(s, "F10") {
        return Some("F10");
    }
    if str_eq(s, "F11") {
        return Some("F11");
    }
    if str_eq(s, "F12") {
        return Some("F12");
    }
    None
}

/// The modifiers of a key press as the editor writes them in front of the
/// key: shift, control, alt, in this order.
pub open spec fn modifiers(shift: bool, control: bool, alt: bool) -> Seq<char> {
    (if shift {
        "S-"@
    } else {
        Seq::empty()
    }) + (if control {
        "C-"@
    } else {
        Seq::empty()
    }) + (if alt {
        "A-"@
    } else {
        Seq::empty()
    })
}

/// The key of a key press as the editor writes it: for a key with a name of
/// more than one character the editor's name for it, if it has one; for
/// another key the character it types, if it types one.
pub open spec fn key_part(name: Seq<char>, typed: Option<char>) -> Option<Seq<char>> {
    if name.len() > 1 {
        nvim_key(name)
    } else {
        match typed {
            Some(c) => Some(seq![c]),
            None => None,
        }
    }
}

/// A key press as input for the editor: modifiers and key between angle
/// brackets.
pub open spec fn nvim_input(
    shift: bool,
    control: bool,
    alt: bool,
    name: Seq<char>,
    typed: Option<char>,
) -> Option<Seq<char>> {
    match key_part(name, typed) {
        Some(key) => Some("<"@ + modifiers(shift, control, alt) + key + ">"@),
        None => None,
    }
}

/// Typed text with every `<` written as `<lt>`, as the editor wants it in
/// its input, where `<` opens the name of a key. The first `n` characters
/// of `text`.
pub open spec fn escaped(text: Seq<char>, n: int) -> Seq<char>
    decreases n,
{
    if n <= 0 {
        Seq::empty()
    } else if text[n - 1] == '<' {
        escaped(text, n - 1) + "<lt>"@
    } else {
        escaped(text, n - 1).push(text[n - 1])
    }
}

/// `String::push`: appends the character `c` to `s`.
#[verifier::external_body]
fn push_char(s: &mut String, c: char)
    ensures
        final(s)@ == old(s)@.push(c),
{
    s.push(c);
}

/// Turns a key press into input for the editor: `keyname` is the key's name
/// in the windowing system, `typed` the character that the key types, and
/// the flags say which modifiers are held. Gives nothing for a key that the
/// editor has no way to write.
pub fn event_to_nvim_input(
    shift: bool,
    control: bool,
    alt: bool,
    keyname: &str,
    typed: Option<char>,
) -> (input: Option<String>)
    ensures
        match input {
            Some(s) => nvim_input(shift, control, alt, keyname@, typed) == Some(s@),
            None => nvim_input(shift, control, alt, keyname@, typed).is_none(),
        },
{
    let mut input = String::from_str("<");
    if shift {
        input.append("S-");
    }
    if control {
        input.append("C-");
    }
    if alt {
        input.append("A-");
    }
    assert(input@ =~= "<"@ + modifiers(shift, control, alt));
    if keyname.unicode_len() > 1 {
        match keyname_to_nvim_key(keyname) {
            Some(n) => {
                input.append(n);
            },
            None => {
                return None;
            },
        }
    } else {
        match typed {
            Some(c) => {
                push_char(&mut input, c);
                assert(input@ =~= "<"@ + modifiers(shift, control, alt) + seq![c]);
            },
            None => {
                return None;
            },
        }
    }
    input.append(">");
    Some(input)
}

/// Prepares typed text as input for the editor: writes every `<` as
/// `<lt>`.
pub fn escape_input(text: &str) -> (out: String)
    ensures
        out@ == escaped(text@, text@.len() as int),
{
    let n = text.unicode_len();
    let mut out = String::new();
    let mut i: usize = 0;
    while i < n
        invariant
            i <= n,
            n == text@.len(),
            out@ == escaped(text@, i as int),
        decreases n - i,
    {
        let c = text.get_char(i);
        if c == '<' {
            out.append("<lt>");
        } else {
            push_char(&mut out, c);
        }
        i += 1;
    }
    out
}

} // verus!
