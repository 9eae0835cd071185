//! Script hooks: the events scripts can react to, the actions scripts can
//! request, and the script text that invokes a hook. The script engine
//! itself runs outside this library.

use vstd::prelude::*;
use crate::text::{push_str, string_from_chars};

verus! {

/// Event hooks that scripts can define.
#[derive(Debug, Clone, PartialEq, Eq)]
pub enum ScriptEvent {
    /// Fired when the app starts.
    OnStart,
    /// Fired when the app is quitting.
    OnQuit,
    /// Fired on key press with the key name.
    OnKey(String),
}

/// Actions that scripts can trigger.
#[derive(Debug, Clone)]
pub enum ScriptAction {
    /// Search for items matching a query.
    Search(String),
    /// Copy the password for an item.
    CopyPassword(String),
    /// Copy the TOTP for an item.
    CopyTotp(String),
}

/// The name of the script function an event calls.
pub open spec fn hook_name_text(e: ScriptEvent) -> Seq<char> {
    match e {
        ScriptEvent::OnStart => "on_startup"@,
        ScriptEvent::OnQuit => "on_shutdown"@,
        ScriptEvent::OnKey(_) => "on_key"@,
    }
}

/// The script that fires an event: it calls the hook, with the key name for
/// key events (as a string literal, escaped), when the user's scripts define
/// it with that many parameters.
pub open spec fn hook_script_text(e: ScriptEvent) -> Seq<char> {
    let name = hook_name_text(e);
    match e {
        ScriptEvent::OnKey(key) => "if is_def_fn(\""@ + name + "\", 1) { "@ + name + "(\""@ + escaped(key@)
            + "\"); }"@,
        _ => "if is_def_fn(\""@ + name + "\", 0) { "@ + name + "(); }"@,
    }
}

/// How a character is written inside a double-quoted script string: a
/// quote, a backslash, a line feed and a carriage return get a backslash
/// escape; any other character stands for itself.
pub open spec fn escape_char(c: char) -> Seq<char> {
    if c == '"' {
        seq!['\\', '"']
    } else if c == '\\' {
        seq!['\\', '\\']
    } else if c == '\n' {
        seq!['\\', 'n']
    } else if c == '\r' {
        seq!['\\', 'r']
    } else {
        seq![c]
    }
}

/// A text written as the inside of a double-quoted script string.
pub open spec fn escaped(s: Seq<char>) -> Seq<char>
    decreases s.len(),
{
    if s.len() == 0 {
        Seq::empty()
    } else {
        escape_char(s[0]) + escaped(s.drop_first())
    }
}

/// The character a backslash escape stands for.
pub open spec fn unescape_char(c: char) -> char {
    if c == 'n' {
        '\n'
    } else if c == 'r' {
        '\r'
    } else {
        c
    }
}

/// How the script engine reads the inside of a double-quoted string, up to
/// its closing quote: the text it stands for, or nothing when the inside
/// ends the string early (a bare quote), breaks the line, or holds an escape
/// other than the four above.
pub open spec fn read_literal(body: Seq<char>) -> Option<Seq<char>>
    decreases body.len(),
{
    if body.len() == 0 {
        Some(Seq::empty())
    } else if body[0] == '\\' {
        if body.len() >= 2 && (body[1] == '"' || body[1] == '\\' || body[1] == 'n' || body[1] == 'r') {
            match read_literal(body.subrange(2, body.len() as int)) {
                Some(rest) => Some(seq![unescape_char(body[1])] + rest),
                None => None,
            }
        } else {
            None
        }
    } else if body[0] == '"' || body[0] == '\n' || body[0] == '\r' {
        None
    } else {
        match read_literal(body.drop_first()) {
            Some(rest) => Some(seq![body[0]] + rest),
            None => None,
        }
    }
}

/// Escaping a text one more character at a time.
pub proof fn lemma_escaped_push(s: Seq<char>, c: char)
    ensures
        escaped(s.push(c)) == escaped(s) + escape_char(c),
    decreases s.len(),
{
    if s.len() == 0 {
        assert(s.push(c).drop_first() =~= Seq::<char>::empty());
        assert(s.push(c)[0] == c);
        assert(escaped(Seq::<char>::empty()) == Seq::<char>::empty());
        assert(escaped(s.push(c)) =~= escape_char(c) + Seq::<char>::empty());
    } else {
        lemma_escaped_push(s.drop_first(), c);
        assert(s.push(c).drop_first() =~= s.drop_first().push(c));
        assert(escaped(s.push(c)) =~= escape_char(s[0]) + (escaped(s.drop_first()) + escape_char(c)));
    }
}

/// The key in a key hook's script reads back as exactly the key: the
/// engine hands `on_key` the key itself, and the string ends where the
/// script closes it, so no part of the key runs as code.
pub proof fn law_escaped_key_reads_back(key: Seq<char>)
    ensures
        read_literal(escaped(key)) == Some(key),
    decreases key.len(),
{
    if key.len() > 0 {
        law_escaped_key_reads_back(key.drop_first());
        let e = escape_char(key[0]);
        let rest = escaped(key.drop_first());
        let body = e + rest;
        assert(escaped(key) == body);
        if e.len() == 2 {
            assert(body.subrange(2, body.len() as int) =~= rest);
        } else {
            assert(body.drop_first() =~= rest);
        }
        assert(key =~= seq![key[0]] + key.drop_first());
    }
}

/// Appends `s`, escaped for a double-quoted script string, to `v`.
fn push_escaped(v: &mut Vec<char>, s: &str)
    ensures
        final(v)@ == old(v)@ + escaped(s@),
{
    let cs = crate::text::chars_of(s);
    let ghost start = v@;
    let mut i: usize = 0;
    while i < cs.len()
        invariant
            i <= cs@.len(),
            cs@ == s@,
            v@ == start + escaped(cs@.take(i as int)),
        decreases cs@.len() - i,
    {
        let c = cs[i];
        if c == '"' || c == '\\' {
            v.push('\\');
            v.push(c);
        } else if c == '\n' {
            v.push('\\');
            v.push('n');
        } else if c == '\r' {
            v.push('\\');
            v.push('r');
        } else {
            v.push(c);
        }
        proof {
            lemma_escaped_push(cs@.take(i as int), c);
            assert(cs@.take(i + 1) =~= cs@.take(i as int).push(c));
        }
        i = i + 1;
        assert(v@ =~= start + escaped(cs@.take(i as int)));
    }
    assert(cs@.take(cs@.len() as int) =~= cs@);
}

/// The name of the script function an event calls.
pub fn hook_name(e: &ScriptEvent) -> (r: &'static str)
    ensures
        r@ == hook_name_text(*e),
{
    match e {
        ScriptEvent::OnStart => "on_startup",
        ScriptEvent::OnQuit => "on_shutdown",
        ScriptEvent::OnKey(_) => "on_key",
    }
}

/// The script that fires an event.
pub fn hook_script(e: &ScriptEvent) -> (r: String)
    ensures
        r@ == hook_script_text(*e),
{
    let name = hook_name(e);
    let mut cs: Vec<char> = Vec::new();
    push_str(&mut cs, "if is_def_fn(\"");
    push_str(&mut cs, name);
    match e {
        ScriptEvent::OnKey(key) => {
            push_str(&mut cs, "\", 1) { ");
            push_str(&mut cs, name);
            push_str(&mut cs, "(\"");
            push_escaped(&mut cs, key.as_str());
            push_str(&mut cs, "\"); }");
        },
        _ => {
            push_str(&mut cs, "\", 0) { ");
            push_str(&mut cs, name);
            push_str(&mut cs, "(); }");
        },
    }
    assert(cs@ =~= hook_script_text(*e));
    string_from_chars(&cs)
}

} // verus!
