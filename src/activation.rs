//! Delivery of activation URLs, handed over by the operating system, into the
//! interface running in the main window's webview.
use vstd::prelude::*;
use vstd::string::*;

verus! {

/// The lowercase hexadecimal digit of `d`, for `d < 16`.
pub open spec fn hex_digit(d: nat) -> char {
    if d < 10 {
        ((d + 48) as u32) as char
    } else {
        ((d + 87) as u32) as char
    }
}

/// How a JSON string literal writes one character: `"` and `\` behind a
/// backslash, the controls with a short form as `\b \t \n \f \r`, the
/// other controls below 0x20 as `\u00` and two lowercase hex digits, and
/// every other character as itself.
pub open spec fn json_escape(c: char) -> Seq<char> {
    if c == '"' {
        seq!['\\', '"']
    } else if c == '\\' {
        seq!['\\', '\\']
    } else if c == '\u{8}' {
        seq!['\\', 'b']
    } else if c == '\t' {
        seq!['\\', 't']
    } else if c == '\n' {
        seq!['\\', 'n']
    } else if c == '\u{c}' {
        seq!['\\', 'f']
    } else if c == '\r' {
        seq!['\\', 'r']
    } else if (c as u32) < 0x20 {
        seq!['\\', 'u', '0', '0', hex_digit((c as u32 / 16) as nat), hex_digit((c as u32 % 16) as nat)]
    } else {
        seq![c]
    }
}

/// The characters of `s`, each written as `json_escape` writes it.
pub open spec fn json_body(s: Seq<char>) -> Seq<char>
    decreases s.len(),
{
    if s.len() == 0 {
        Seq::empty()
    } else {
        json_escape(s[0]) + json_body(s.drop_first())
    }
}

/// The JSON string literal of `s`: its escaped characters between quotes.
pub open spec fn json_text_of(s: Seq<char>) -> Seq<char> {
    seq!['"'] + json_body(s) + seq!['"']
}

/// The value of a hexadecimal digit, in either case.
pub open spec fn hex_value(c: char) -> nat {
    let n = c as u32;
    if 48 <= n <= 57 {
        (n - 48) as nat
    } else if 97 <= n <= 102 {
        (n - 87) as nat
    } else if 65 <= n <= 70 {
        (n - 55) as nat
    } else {
        0
    }
}

/// The character that a one-letter escape `\e` stands for.
pub open spec fn unescape_letter(e: char) -> char {
    if e == 'b' {
        '\u{8}'
    } else if e == 't' {
        '\t'
    } else if e == 'n' {
        '\n'
    } else if e == 'f' {
        '\u{c}'
    } else if e == 'r' {
        '\r'
    } else {
        e
    }
}

/// The characters that the inside of a JavaScript or JSON string literal
/// stands for: `\uXXXX` by its code, `\e` by `unescape_letter(e)`, every
/// other character by itself.
pub open spec fn literal_chars(t: Seq<char>) -> Seq<char>
    decreases t.len(),
{
    if t.len() == 0 {
        Seq::empty()
    } else if t[0] == '\\' && t.len() >= 6 && t[1] == 'u' {
        seq![
            ((hex_value(t[2]) * 4096 + hex_value(t[3]) * 256 + hex_value(t[4]) * 16 + hex_value(t[5]))
                as u32) as char,
        ] + literal_chars(t.subrange(6, t.len() as int))
    } else if t[0] == '\\' && t.len() >= 2 {
        seq![unescape_letter(t[1])] + literal_chars(t.subrange(2, t.len() as int))
    } else {
        seq![t[0]] + literal_chars(t.drop_first())
    }
}

/// The string that a quoted string literal stands for.
pub open spec fn literal_value(t: Seq<char>) -> Seq<char> {
    literal_chars(t.subrange(1, t.len() - 1))
}

proof fn lemma_char_of_code(c: char, v: nat)
    requires
        v == c as u32,
    ensures
        ((v as u32) as char) == c,
{
}

proof fn lemma_body_decodes(s: Seq<char>)
    ensures
        literal_chars(json_body(s)) == s,
    decreases s.len(),
{
    if s.len() > 0 {
        let c = s[0];
        let rest = s.drop_first();
        let e = json_escape(c);
        let t = json_body(s);
        lemma_body_decodes(rest);
        assert(t == e + json_body(rest));
        if e.len() == 1 {
            assert(t[0] == c && c != '\\');
            assert(t.drop_first() =~= json_body(rest));
            assert(literal_chars(t) == seq![c] + literal_chars(json_body(rest)));
        } else if e.len() == 2 {
            assert(t[0] == '\\' && t[1] == e[1] && e[1] != 'u');
            assert(unescape_letter(e[1]) == c);
            assert(t.subrange(2, t.len() as int) =~= json_body(rest));
            assert(literal_chars(t) == seq![c] + literal_chars(json_body(rest)));
        } else {
            let n = c as u32;
            assert(t[0] == '\\' && t[1] == 'u' && t[2] == '0' && t[3] == '0');
            assert(t[4] == hex_digit((n / 16) as nat) && t[5] == hex_digit((n % 16) as nat));
            assert(hex_value(hex_digit((n / 16) as nat)) == (n / 16) as nat);
            assert(hex_value(hex_digit((n % 16) as nat)) == (n % 16) as nat);
            assert(hex_value(t[4]) * 16 + hex_value(t[5]) == n);
            assert(hex_value(t[2]) == 0 && hex_value(t[3]) == 0);
            let v = hex_value(t[2]) * 4096 + hex_value(t[3]) * 256 + hex_value(t[4]) * 16
                + hex_value(t[5]);
            assert(v == n) by (nonlinear_arith)
                requires
                    v == hex_value(t[2]) * 4096 + hex_value(t[3]) * 256 + hex_value(t[4]) * 16
                        + hex_value(t[5]),
                    hex_value(t[2]) == 0,
                    hex_value(t[3]) == 0,
                    hex_value(t[4]) * 16 + hex_value(t[5]) == n,
            ;
            lemma_char_of_code(c, v);
            assert(t.len() >= 6);
            assert(t.subrange(6, t.len() as int) =~= json_body(rest));
            assert(literal_chars(t) == seq![c] + literal_chars(json_body(rest)));
        }
        assert(s =~= seq![c] + rest);
    }
}

/// A URL handed to the interface arrives unchanged: the string literal it
/// is written as stands for exactly the URL's characters, quotes,
/// backslashes and control characters included.
pub proof fn lemma_literal_round_trip(s: Seq<char>)
    ensures
        literal_value(json_text_of(s)) == s,
{
    let t = json_text_of(s);
    assert(t.subrange(1, t.len() - 1) =~= json_body(s));
    lemma_body_decodes(s);
}

/// Relies on `serde_json::to_string` on a `String`: it writes the string
/// literal with `format_escaped_str` into a `Vec`, which cannot fail, so the
/// error arm is never taken.
#[verifier::external_body]
fn json_string_literal(s: &String) -> (r: String)
    ensures
        r@ == json_text_of(s@),
{
    match serde_json::to_string(s) {
        Ok(text) => text,
        Err(_) => String::new(),
    }
}

/// The script that hands one activation URL, written as the JavaScript string
/// literal `lit`, to the interface: it appends the URL to the global queue
/// `__plutoAuthCallbackQueue` (creating the queue if needed), then dispatches
/// a `pluto-auth-callback` event whose detail carries the URL.
pub open spec fn callback_script_of(lit: Seq<char>) -> Seq<char> {
    "window.__plutoAuthCallbackQueue = window.__plutoAuthCallbackQueue || [];window.__plutoAuthCallbackQueue.push("@
        + lit
        + ");window.dispatchEvent(new CustomEvent('pluto-auth-callback', { detail: { url: "@
        + lit
        + " } }));"@
}

/// Builds the callback script for the string literal `lit`.
pub fn callback_script(lit: &str) -> (r: String)
    ensures
        r@ == callback_script_of(lit@),
{
    let mut r = String::from_str(
        "window.__plutoAuthCallbackQueue = window.__plutoAuthCallbackQueue || [];window.__plutoAuthCallbackQueue.push(",
    );
    r.append(lit);
    r.append(");window.dispatchEvent(new CustomEvent('pluto-auth-callback', { detail: { url: ");
    r.append(lit);
    r.append(" } }));");
    r
}

/// One thing to do to the main window.
pub enum WindowAction {
    Show,
    Focus,
    /// Evaluate a script in the window's webview.
    Eval(String),
}

/// `actions` is what a batch, given as the string literals of its URLs,
/// asks of the main window: nothing when the batch is empty or there is no
/// main window; else show it, focus it, then run one script per URL, in
/// order.
pub open spec fn plan_holds(actions: Seq<WindowAction>, lits: Seq<Seq<char>>, main_window_present: bool) -> bool {
    if lits.len() == 0 || !main_window_present {
        actions.len() == 0
    } else {
        &&& actions.len() == 2 + lits.len()
        &&& actions[0] is Show
        &&& actions[1] is Focus
        &&& forall|k: int|
            0 <= k < lits.len() ==> (#[trigger] actions[2 + k]) is Eval
                && actions[2 + k]->Eval_0@ == callback_script_of(lits[k])
    }
}

/// The view of a batch of string literals.
pub open spec fn literal_views(lits: Seq<String>) -> Seq<Seq<char>> {
    lits.map_values(|l: String| l@)
}

/// The actions for a batch whose URLs have been written as string literals.
pub fn activation_actions(lits: &Vec<String>, main_window_present: bool) -> (r: Vec<WindowAction>)
    ensures
        plan_holds(r@, literal_views(lits@), main_window_present),
{
    let ghost views = literal_views(lits@);
    let mut r: Vec<WindowAction> = Vec::new();
    if lits.len() == 0 || !main_window_present {
        return r;
    }
    r.push(WindowAction::Show);
    r.push(WindowAction::Focus);
    let mut i: usize = 0;
    while i < lits.len()
        invariant
            i <= lits@.len(),
            views == literal_views(lits@),
            r@.len() == 2 + i,
            r@[0] is Show,
            r@[1] is Focus,
            forall|k: int|
                0 <= k < i ==> (#[trigger] r@[2 + k]) is Eval && r@[2 + k]->Eval_0@
                    == callback_script_of(views[k]),
        decreases lits@.len() - i,
    {
        let script = callback_script(lits[i].as_str());
        r.push(WindowAction::Eval(script));
        i = i + 1;
    }
    r
}

/// The actions for an activation batch: when the batch is not empty and the
/// main window exists, show and focus the window, then for each URL in order
/// run the script that queues it and announces it, with the URL written as a
/// JSON string literal.
pub fn dispatch_opened(urls: &Vec<String>, main_window_present: bool) -> (r: Vec<WindowAction>)
    ensures
        urls@.len() == 0 || !main_window_present ==> r@.len() == 0,
        urls@.len() > 0 && main_window_present ==> {
            &&& r@.len() == 2 + urls@.len()
            &&& r@[0] is Show
            &&& r@[1] is Focus
            &&& forall|k: int|
                0 <= k < urls@.len() ==> (#[trigger] r@[2 + k]) is Eval && r@[2 + k]->Eval_0@
                    == callback_script_of(json_text_of(urls@[k]@))
        },
{
    let mut lits: Vec<String> = Vec::new();
    let mut i: usize = 0;
    while i < urls.len()
        invariant
            i <= urls@.len(),
            lits@.len() == i,
            forall|j: int| 0 <= j < i ==> (#[trigger] lits@[j])@ == json_text_of(urls@[j]@),
        decreases urls@.len() - i,
    {
        let lit = json_string_literal(&urls[i]);
        lits.push(lit);
        i = i + 1;
    }
    let r = activation_actions(&lits, main_window_present);
    proof {
        let views = literal_views(lits@);
        assert forall|k: int| 0 <= k < urls@.len() implies views[k] == json_text_of(urls@[k]@) by {
            assert(lits@[k]@ == json_text_of(urls@[k]@));
        }
    }
    r
}

} // verus!
