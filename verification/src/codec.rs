use vstd::prelude::*;

use crate::json::{json_member_views, json_view, json_views, Json, JsonV};
use crate::json::{lemma_json_member_views_len, lemma_json_views_len};

verus! {

broadcast use vstd::seq::axiom_seq_index_decreases, vstd::std_specs::vec::axiom_vec_decreases_to_view, vstd::seq_lib::group_seq_lib_default;

// ===== text of a serialized document =====

/// The escape a character gets inside a JSON string: quote and
/// backslash always, newline, tab and carriage return by their short
/// forms, every other control character as `\u00XX`, and everything
/// else stands as itself.
#[verifier::opaque]
pub open spec fn esc_char(c: char) -> Seq<char> {
    if c == '"' {
        seq!['\\', '"']
    } else if c == '\\' {
        seq!['\\', '\\']
    } else if c == '\n' {
        seq!['\\', 'n']
    } else if c == '\t' {
        seq!['\\', 't']
    } else if c == '\r' {
        seq!['\\', 'r']
    } else if (c as u32) < 32 {
        seq!['\\', 'u', '0', '0', ctl_hex(c).0, ctl_hex(c).1]
    } else {
        seq![c]
    }
}

/// The two hex digits a control character is written with.
#[verifier::opaque]
pub open spec fn ctl_hex(c: char) -> (char, char) {
    if c == '\u{0}' {
        ('0', '0')
    } else if c == '\u{1}' {
        ('0', '1')
    } else if c == '\u{2}' {
        ('0', '2')
    } else if c == '\u{3}' {
        ('0', '3')
    } else if c == '\u{4}' {
        ('0', '4')
    } else if c == '\u{5}' {
        ('0', '5')
    } else if c == '\u{6}' {
        ('0', '6')
    } else if c == '\u{7}' {
        ('0', '7')
    } else if c == '\u{8}' {
        ('0', '8')
    } else if c == '\u{9}' {
        ('0', '9')
    } else if c == '\u{a}' {
        ('0', 'a')
    } else if c == '\u{b}' {
        ('0', 'b')
    } else if c == '\u{c}' {
        ('0', 'c')
    } else if c == '\u{d}' {
        ('0', 'd')
    } else if c == '\u{e}' {
        ('0', 'e')
    } else if c == '\u{f}' {
        ('0', 'f')
    } else if c == '\u{10}' {
        ('1', '0')
    } else if c == '\u{11}' {
        ('1', '1')
    } else if c == '\u{12}' {
        ('1', '2')
    } else if c == '\u{13}' {
        ('1', '3')
    } else if c == '\u{14}' {
        ('1', '4')
    } else if c == '\u{15}' {
        ('1', '5')
    } else if c == '\u{16}' {
        ('1', '6')
    } else if c == '\u{17}' {
        ('1', '7')
    } else if c == '\u{18}' {
        ('1', '8')
    } else if c == '\u{19}' {
        ('1', '9')
    } else if c == '\u{1a}' {
        ('1', 'a')
    } else if c == '\u{1b}' {
        ('1', 'b')
    } else if c == '\u{1c}' {
        ('1', 'c')
    } else if c == '\u{1d}' {
        ('1', 'd')
    } else if c == '\u{1e}' {
        ('1', 'e')
    } else if c == '\u{1f}' {
        ('1', 'f')
    } else {
        ('0', '0')
    }
}

/// Exec form of `ctl_hex`.
pub fn ctl_hex_exec(c: char) -> (r: (char, char))
    ensures
        r == ctl_hex(c),
{
    proof {
        reveal(ctl_hex);
    }
    if c == '\u{0}' {
        ('0', '0')
    } else if c == '\u{1}' {
        ('0', '1')
    } else if c == '\u{2}' {
        ('0', '2')
    } else if c == '\u{3}' {
        ('0', '3')
    } else if c == '\u{4}' {
        ('0', '4')
    } else if c == '\u{5}' {
        ('0', '5')
    } else if c == '\u{6}' {
        ('0', '6')
    } else if c == '\u{7}' {
        ('0', '7')
    } else if c == '\u{8}' {
        ('0', '8')
    } else if c == '\u{9}' {
        ('0', '9')
    } else if c == '\u{a}' {
        ('0', 'a')
    } else if c == '\u{b}' {
        ('0', 'b')
    } else if c == '\u{c}' {
        ('0', 'c')
    } else if c == '\u{d}' {
        ('0', 'd')
    } else if c == '\u{e}' {
        ('0', 'e')
    } else if c == '\u{f}' {
        ('0', 'f')
    } else if c == '\u{10}' {
        ('1', '0')
    } else if c == '\u{11}' {
        ('1', '1')
    } else if c == '\u{12}' {
        ('1', '2')
    } else if c == '\u{13}' {
        ('1', '3')
    } else if c == '\u{14}' {
        ('1', '4')
    } else if c == '\u{15}' {
        ('1', '5')
    } else if c == '\u{16}' {
        ('1', '6')
    } else if c == '\u{17}' {
        ('1', '7')
    } else if c == '\u{18}' {
        ('1', '8')
    } else if c == '\u{19}' {
        ('1', '9')
    } else if c == '\u{1a}' {
        ('1', 'a')
    } else if c == '\u{1b}' {
        ('1', 'b')
    } else if c == '\u{1c}' {
        ('1', 'c')
    } else if c == '\u{1d}' {
        ('1', 'd')
    } else if c == '\u{1e}' {
        ('1', 'e')
    } else if c == '\u{1f}' {
        ('1', 'f')
    } else {
        ('0', '0')
    }
}



/// The control character a `\u00XX` escape names, for the control
/// range this writer emits; any other hex escape is not taken.
#[verifier::opaque]
pub open spec fn ctl_unesc(h1: char, h2: char, h3: char, h4: char) -> Option<char> {
    if h1 == '0' && h2 == '0' {
        if h3 == '0' {
            if h4 == '0' {
            Some('\u{0}')
        } else if h4 == '1' {
            Some('\u{1}')
        } else if h4 == '2' {
            Some('\u{2}')
        } else if h4 == '3' {
            Some('\u{3}')
        } else if h4 == '4' {
            Some('\u{4}')
        } else if h4 == '5' {
            Some('\u{5}')
        } else if h4 == '6' {
            Some('\u{6}')
        } else if h4 == '7' {
            Some('\u{7}')
        } else if h4 == '8' {
            Some('\u{8}')
        } else if h4 == '9' {
            Some('\u{9}')
        } else if h4 == 'a' {
            Some('\u{a}')
        } else if h4 == 'b' {
            Some('\u{b}')
        } else if h4 == 'c' {
            Some('\u{c}')
        } else if h4 == 'd' {
            Some('\u{d}')
        } else if h4 == 'e' {
            Some('\u{e}')
        } else if h4 == 'f' {
            Some('\u{f}')
        } else {
            None
        }
        } else if h3 == '1' {
            if h4 == '0' {
            Some('\u{10}')
        } else if h4 == '1' {
            Some('\u{11}')
        } else if h4 == '2' {
            Some('\u{12}')
        } else if h4 == '3' {
            Some('\u{13}')
        } else if h4 == '4' {
            Some('\u{14}')
        } else if h4 == '5' {
            Some('\u{15}')
        } else if h4 == '6' {
            Some('\u{16}')
        } else if h4 == '7' {
            Some('\u{17}')
        } else if h4 == '8' {
            Some('\u{18}')
        } else if h4 == '9' {
            Some('\u{19}')
        } else if h4 == 'a' {
            Some('\u{1a}')
        } else if h4 == 'b' {
            Some('\u{1b}')
        } else if h4 == 'c' {
            Some('\u{1c}')
        } else if h4 == 'd' {
            Some('\u{1d}')
        } else if h4 == 'e' {
            Some('\u{1e}')
        } else if h4 == 'f' {
            Some('\u{1f}')
        } else {
            None
        }
        } else {
            None
        }
    } else {
        None
    }
}

/// Exec form of `ctl_unesc`.
pub fn ctl_unesc_exec(h1: char, h2: char, h3: char, h4: char) -> (r: Option<char>)
    ensures
        r == ctl_unesc(h1, h2, h3, h4),
{
    proof {
        reveal(ctl_unesc);
    }
    if h1 == '0' && h2 == '0' {
        if h3 == '0' {
            if h4 == '0' {
            Some('\u{0}')
        } else if h4 == '1' {
            Some('\u{1}')
        } else if h4 == '2' {
            Some('\u{2}')
        } else if h4 == '3' {
            Some('\u{3}')
        } else if h4 == '4' {
            Some('\u{4}')
        } else if h4 == '5' {
            Some('\u{5}')
        } else if h4 == '6' {
            Some('\u{6}')
        } else if h4 == '7' {
            Some('\u{7}')
        } else if h4 == '8' {
            Some('\u{8}')
        } else if h4 == '9' {
            Some('\u{9}')
        } else if h4 == 'a' {
            Some('\u{a}')
        } else if h4 == 'b' {
            Some('\u{b}')
        } else if h4 == 'c' {
            Some('\u{c}')
        } else if h4 == 'd' {
            Some('\u{d}')
        } else if h4 == 'e' {
            Some('\u{e}')
        } else if h4 == 'f' {
            Some('\u{f}')
        } else {
            None
        }
        } else if h3 == '1' {
            if h4 == '0' {
            Some('\u{10}')
        } else if h4 == '1' {
            Some('\u{11}')
        } else if h4 == '2' {
            Some('\u{12}')
        } else if h4 == '3' {
            Some('\u{13}')
        } else if h4 == '4' {
            Some('\u{14}')
        } else if h4 == '5' {
            Some('\u{15}')
        } else if h4 == '6' {
            Some('\u{16}')
        } else if h4 == '7' {
            Some('\u{17}')
        } else if h4 == '8' {
            Some('\u{18}')
        } else if h4 == '9' {
            Some('\u{19}')
        } else if h4 == 'a' {
            Some('\u{1a}')
        } else if h4 == 'b' {
            Some('\u{1b}')
        } else if h4 == 'c' {
            Some('\u{1c}')
        } else if h4 == 'd' {
            Some('\u{1d}')
        } else if h4 == 'e' {
            Some('\u{1e}')
        } else if h4 == 'f' {
            Some('\u{1f}')
        } else {
            None
        }
        } else {
            None
        }
    } else {
        None
    }
}

/// A control character's hex digits read back as that character.
pub proof fn lemma_ctl_round(c: char)
    requires
        (c as u32) < 32,
    ensures
        ctl_unesc('0', '0', ctl_hex(c).0, ctl_hex(c).1) == Some(c),
{
    reveal(ctl_hex);
    reveal(ctl_unesc);
}

/// A whole string body, escaped.
pub open spec fn esc_str(s: Seq<char>) -> Seq<char>
    decreases s.len(),
{
    if s.len() == 0 {
        Seq::empty()
    } else {
        esc_char(s[0]) + esc_str(s.skip(1))
    }
}

/// A string token: the escaped body between quotes.
pub open spec fn ser_string(s: Seq<char>) -> Seq<char> {
    seq!['"'] + esc_str(s) + seq!['"']
}

/// The serialized text of a JSON value. The layout is compact: no
/// whitespace between tokens; the reader skips whitespace, so texts
/// written by other producers are read all the same.
pub open spec fn ser_json(j: JsonV) -> Seq<char>
    decreases j,
{
    match j {
        JsonV::Null => seq!['n', 'u', 'l', 'l'],
        JsonV::Bool(b) => if b {
            seq!['t', 'r', 'u', 'e']
        } else {
            seq!['f', 'a', 'l', 's', 'e']
        },
        JsonV::Num(t) => t,
        JsonV::Str(s) => ser_string(s),
        JsonV::Arr(elems) => seq!['['] + ser_items(elems, true) + seq![']'],
        JsonV::Obj(members) => seq!['{'] + ser_members(members, true) + seq!['}'],
    }
}

/// Array elements, comma-separated; `first` says whether no element
/// was emitted yet.
pub open spec fn ser_items(elems: Seq<JsonV>, first: bool) -> Seq<char>
    decreases elems, 0nat,
{
    if elems.len() == 0 {
        Seq::empty()
    } else {
        (if first {
            Seq::empty()
        } else {
            seq![',']
        }) + ser_json(elems[0]) + ser_items(elems.skip(1), false)
    }
}

/// Object members, comma-separated `"key":value` pairs.
pub open spec fn ser_members(members: Seq<(Seq<char>, JsonV)>, first: bool) -> Seq<char>
    decreases members, 0nat,
{
    if members.len() == 0 {
        Seq::empty()
    } else {
        (if first {
            Seq::empty()
        } else {
            seq![',']
        }) + ser_string(members[0].0) + seq![':'] + ser_json(members[0].1) + ser_members(
            members.skip(1),
            false,
        )
    }
}

// ===== exec serializer =====

/// Appends the escaped body of `s` to `out`.
fn push_escaped(out: &mut Vec<char>, s: &str)
    ensures
        final(out)@ == old(out)@ + esc_str(s@),
{
    proof {
        reveal(esc_char);
    }
    let n = s.unicode_len();
    let mut i: usize = 0;
    while i < n
        invariant
            n == s@.len(),
            0 <= i <= n,
            out@ == old(out)@ + esc_str(s@.take(i as int)),
        decreases n - i,
    {
        proof {
            reveal(esc_char);
        }
        let c = s.get_char(i);
        if c == '"' {
            out.push('\\');
            out.push('"');
        } else if c == '\\' {
            out.push('\\');
            out.push('\\');
        } else if c == '\n' {
            out.push('\\');
            out.push('n');
        } else if c == '\t' {
            out.push('\\');
            out.push('t');
        } else if c == '\r' {
            out.push('\\');
            out.push('r');
        } else if (c as u32) < 32 {
            out.push('\\');
            out.push('u');
            out.push('0');
            out.push('0');
            let pair = ctl_hex_exec(c);
            out.push(pair.0);
            out.push(pair.1);
        } else {
            out.push(c);
        }
        proof {
            lemma_esc_str_take_step(s@, i as int);
            assert(out@ =~= old(out)@ + esc_str(s@.take(i as int + 1)));
        }
        i += 1;
    }
    proof {
        assert(s@.take(n as int) =~= s@);
    }
}

/// Escaping one more character appends that character's escape.
proof fn lemma_esc_str_take_step(s: Seq<char>, i: int)
    requires
        0 <= i < s.len(),
    ensures
        esc_str(s.take(i + 1)) == esc_str(s.take(i)) + esc_char(s[i]),
    decreases i,
{
    if i == 0 {
        assert(esc_str(Seq::<char>::empty()) == Seq::<char>::empty());
        assert(s.take(1)[0] == s[0]);
        assert(s.take(1).skip(1) =~= Seq::<char>::empty());
        assert(esc_str(s.take(1)) =~= esc_char(s[0]));
        assert(s.take(0) =~= Seq::<char>::empty());
        assert(esc_str(s.take(0)) + esc_char(s[0]) =~= esc_char(s[0]));
    } else {
        lemma_esc_str_take_step(s.skip(1), i - 1);
        assert(s.take(i + 1)[0] == s[0]);
        assert(s.take(i + 1).skip(1) =~= s.skip(1).take(i));
        assert(s.take(i)[0] == s[0]);
        assert(s.take(i).skip(1) =~= s.skip(1).take(i - 1));
        assert(s.skip(1)[i - 1] == s[i]);
        assert(esc_str(s.take(i + 1)) == esc_char(s[0]) + esc_str(s.skip(1).take(i)));
        assert(esc_str(s.take(i)) == esc_char(s[0]) + esc_str(s.skip(1).take(i - 1)));
        assert(esc_char(s[0]) + (esc_str(s.skip(1).take(i - 1)) + esc_char(s[i])) =~= (esc_char(
            s[0],
        ) + esc_str(s.skip(1).take(i - 1))) + esc_char(s[i]));
    }
}

/// Appends the string token for `s` to `out`.
fn push_string_token(out: &mut Vec<char>, s: &str)
    ensures
        final(out)@ == old(out)@ + ser_string(s@),
{
    out.push('"');
    push_escaped(out, s);
    out.push('"');
    proof {
        assert(out@ =~= old(out)@ + ser_string(s@));
    }
}

/// Appends the serialized text of `j` to `out`.
#[verifier::rlimit(80)]
#[verifier::loop_isolation(false)]
pub fn push_json(out: &mut Vec<char>, j: &Json)
    ensures
        final(out)@ == old(out)@ + ser_json(json_view(*j)),
    decreases j,
{
    match j {
        Json::Null => {
            out.push('n');
            out.push('u');
            out.push('l');
            out.push('l');
            proof {
                assert(out@ =~= old(out)@ + ser_json(json_view(*j)));
            }
        },
        Json::Bool(b) => {
            if *b {
                out.push('t');
                out.push('r');
                out.push('u');
                out.push('e');
            } else {
                out.push('f');
                out.push('a');
                out.push('l');
                out.push('s');
                out.push('e');
            }
            proof {
                assert(out@ =~= old(out)@ + ser_json(json_view(*j)));
            }
        },
        Json::Num(t) => {
            let chars = str_to_chars(t.as_str());
            let mut k: usize = 0;
            let n = chars.len();
            while k < n
                invariant
                    n == chars@.len(),
                    0 <= k <= n,
                    out@ == old(out)@ + chars@.take(k as int),
                decreases n - k,
            {
                out.push(chars[k]);
                proof {
                    assert(out@ =~= old(out)@ + chars@.take(k as int + 1));
                }
                k += 1;
            }
            proof {
                assert(chars@.take(n as int) =~= chars@);
                assert(out@ =~= old(out)@ + ser_json(json_view(*j)));
            }
        },
        Json::Str(s) => {
            push_string_token(out, s.as_str());
        },
        Json::Arr(elems) => {
            out.push('[');
            proof {
                lemma_json_views_len(elems@);
            }
            let ghost views = json_views(elems@);
            proof {
                assert(views.skip(0) =~= views);
                assert(out@ =~= old(out)@ + seq!['[']);
            }
            let n = elems.len();
            let mut k: usize = 0;
            while k < n
                invariant
                    views == json_views(elems@),
                    views.len() == elems@.len(),
                    forall|t: int| 0 <= t < elems@.len() ==> views[t] == json_view(elems@[t]),
                    n == elems@.len(),
                    0 <= k <= n,
                    out@ + ser_items(views.skip(k as int), k == 0) == old(out)@ + seq!['[']
                        + ser_items(views, true),
                decreases n - k,
            {
                if k > 0 {
                    out.push(',');
                }
                push_json(out, &elems[k]);
                proof {
                    assert(views.skip(k as int)[0] == views[k as int]);
                    assert(views.skip(k as int).skip(1) =~= views.skip(k as int + 1));
                    assert(ser_items(views.skip(k as int), k == 0) == (if k == 0 {
                        Seq::<char>::empty()
                    } else {
                        seq![',']
                    }) + ser_json(views[k as int]) + ser_items(views.skip(k as int + 1), false));
                    assert(out@ + ser_items(views.skip(k as int + 1), false) =~= old(out)@ + seq![
                        '[',
                    ] + ser_items(views, true));
                }
                k += 1;
            }
            out.push(']');
            proof {
                assert(views.skip(n as int) =~= Seq::<JsonV>::empty());
                assert(ser_items(views.skip(n as int), n == 0) =~= Seq::<char>::empty());
                assert(out@ =~= old(out)@ + ser_json(json_view(*j)));
            }
        },
        Json::Obj(members) => {
            out.push('{');
            proof {
                lemma_json_member_views_len(members@);
            }
            let ghost views = json_member_views(members@);
            proof {
                assert(views.skip(0) =~= views);
                assert(out@ =~= old(out)@ + seq!['{']);
            }
            let n = members.len();
            let mut k: usize = 0;
            while k < n
                invariant
                    views == json_member_views(members@),
                    views.len() == members@.len(),
                    forall|t: int|
                        0 <= t < members@.len() ==> views[t] == (
                        members@[t].0@,
                        json_view(members@[t].1),
                        ),
                    n == members@.len(),
                    0 <= k <= n,
                    out@ + ser_members(views.skip(k as int), k == 0) == old(out)@ + seq!['{']
                        + ser_members(views, true),
                decreases n - k,
            {
                if k > 0 {
                    out.push(',');
                }
                push_string_token(out, members[k].0.as_str());
                out.push(':');
                push_json(out, &members[k].1);
                proof {
                    assert(views.skip(k as int)[0] == views[k as int]);
                    assert(views.skip(k as int).skip(1) =~= views.skip(k as int + 1));
                    assert(ser_members(views.skip(k as int), k == 0) == (if k == 0 {
                        Seq::<char>::empty()
                    } else {
                        seq![',']
                    }) + ser_string(views[k as int].0) + seq![':'] + ser_json(views[k as int].1)
                        + ser_members(views.skip(k as int + 1), false));
                    assert(out@ + ser_members(views.skip(k as int + 1), false) =~= old(out)@
                        + seq!['{'] + ser_members(views, true));
                }
                k += 1;
            }
            out.push('}');
            proof {
                assert(views.skip(n as int) =~= Seq::<(Seq<char>, JsonV)>::empty());
                assert(ser_members(views.skip(n as int), n == 0) =~= Seq::<char>::empty());
                assert(out@ =~= old(out)@ + ser_json(json_view(*j)));
            }
        },
    }
}


// ===== the pretty layout for stored files =====

/// Two spaces per indentation level.
#[verifier::opaque]
pub open spec fn padding(d: nat) -> Seq<char>
    decreases d,
{
    if d == 0 {
        Seq::empty()
    } else {
        padding((d - 1) as nat) + seq![' ', ' ']
    }
}

/// A line break followed by the indentation of level `d`.
#[verifier::opaque]
pub open spec fn nl_pad(d: nat) -> Seq<char> {
    seq!['\n'] + padding(d)
}

/// The pretty text of a JSON value at indentation level `ind`: the
/// layout the stored files use, with every member and element on its
/// own line. Atoms read as in the compact layout.
pub open spec fn ser_json_pretty(j: JsonV, ind: nat) -> Seq<char>
    decreases j, 1nat,
{
    match j {
        JsonV::Arr(elems) => if elems.len() == 0 {
            seq!['[', ']']
        } else {
            seq!['['] + ser_items_pretty(elems, true, ind + 1) + nl_pad(ind) + seq![']']
        },
        JsonV::Obj(members) => if members.len() == 0 {
            seq!['{', '}']
        } else {
            seq!['{'] + ser_members_pretty(members, true, ind + 1) + nl_pad(ind) + seq!['}']
        },
        _ => ser_json(j),
    }
}

/// Pretty array elements: each on its own line at level `ind`.
pub open spec fn ser_items_pretty(elems: Seq<JsonV>, first: bool, ind: nat) -> Seq<char>
    decreases elems, 0nat,
{
    if elems.len() == 0 {
        Seq::empty()
    } else {
        (if first {
            Seq::empty()
        } else {
            seq![',']
        }) + nl_pad(ind) + ser_json_pretty(elems[0], ind) + ser_items_pretty(
            elems.skip(1),
            false,
            ind,
        )
    }
}

/// Pretty object members: each `"key": value` on its own line.
pub open spec fn ser_members_pretty(members: Seq<(Seq<char>, JsonV)>, first: bool, ind: nat) -> Seq<
    char,
>
    decreases members, 0nat,
{
    if members.len() == 0 {
        Seq::empty()
    } else {
        (if first {
            Seq::empty()
        } else {
            seq![',']
        }) + nl_pad(ind) + ser_string(members[0].0) + seq![':', ' '] + ser_json_pretty(
            members[0].1,
            ind,
        ) + ser_members_pretty(members.skip(1), false, ind)
    }
}

/// Appends a line break and the current indentation.
fn push_nl_pad(out: &mut Vec<char>, pad: &Vec<char>, Ghost(ind): Ghost<nat>)
    requires
        pad@ == padding(ind),
    ensures
        final(out)@ == old(out)@ + nl_pad(ind),
{
    proof {
        reveal(nl_pad);
    }
    out.push('\n');
    let n = pad.len();
    let mut k: usize = 0;
    while k < n
        invariant
            n == pad@.len(),
            0 <= k <= n,
            out@ == old(out)@ + seq!['\n'] + pad@.take(k as int),
        decreases n - k,
    {
        out.push(pad[k]);
        proof {
            assert(out@ =~= old(out)@ + seq!['\n'] + pad@.take(k as int + 1));
        }
        k += 1;
    }
    proof {
        assert(pad@.take(n as int) =~= pad@);
        assert(out@ =~= old(out)@ + nl_pad(ind));
    }
}

/// Appends the pretty text of `j` at the level `pad` stands for.
#[verifier::rlimit(100)]
#[verifier::loop_isolation(false)]
fn push_json_pretty(out: &mut Vec<char>, j: &Json, pad: &mut Vec<char>, Ghost(ind): Ghost<nat>)
    requires
        old(pad)@ == padding(ind),
    ensures
        final(out)@ == old(out)@ + ser_json_pretty(json_view(*j), ind),
        final(pad)@ == old(pad)@,
    decreases j,
{
    match j {
        Json::Arr(elems) => {
            if elems.len() == 0 {
                out.push('[');
                out.push(']');
                proof {
                    assert(out@ =~= old(out)@ + ser_json_pretty(json_view(*j), ind));
                }
                return ;
            }
            out.push('[');
            pad.push(' ');
            pad.push(' ');
            proof {
                reveal(padding);
                assert(pad@ =~= padding(ind + 1));
                lemma_json_views_len(elems@);
            }
            let ghost views = json_views(elems@);
            proof {
                assert(views.skip(0) =~= views);
                assert(out@ =~= old(out)@ + seq!['[']);
            }
            let n = elems.len();
            let mut k: usize = 0;
            while k < n
                invariant
                    pad@ == padding(ind + 1),
                    views == json_views(elems@),
                    views.len() == elems@.len(),
                    forall|t: int| 0 <= t < elems@.len() ==> views[t] == json_view(elems@[t]),
                    n == elems@.len(),
                    0 <= k <= n,
                    out@ + ser_items_pretty(views.skip(k as int), k == 0, ind + 1) == old(out)@
                        + seq!['['] + ser_items_pretty(views, true, ind + 1),
                decreases n - k,
            {
                if k > 0 {
                    out.push(',');
                }
                push_nl_pad(out, pad, Ghost(ind + 1));
                push_json_pretty(out, &elems[k], pad, Ghost(ind + 1));
                proof {
                    assert(views.skip(k as int)[0] == views[k as int]);
                    assert(views.skip(k as int).skip(1) =~= views.skip(k as int + 1));
                    assert(ser_items_pretty(views.skip(k as int), k == 0, ind + 1) == (if k == 0 {
                        Seq::<char>::empty()
                    } else {
                        seq![',']
                    }) + nl_pad(ind + 1) + ser_json_pretty(views[k as int], ind + 1)
                        + ser_items_pretty(views.skip(k as int + 1), false, ind + 1));
                    assert(out@ + ser_items_pretty(views.skip(k as int + 1), false, ind + 1)
                        =~= old(out)@ + seq!['['] + ser_items_pretty(views, true, ind + 1));
                }
                k += 1;
            }
            proof {
                assert(views.skip(n as int) =~= Seq::<JsonV>::empty());
                assert(ser_items_pretty(views.skip(n as int), n == 0, ind + 1) =~= Seq::<
                    char,
                >::empty());
            }
            pad.pop();
            pad.pop();
            proof {
                assert(pad@ =~= old(pad)@);
            }
            push_nl_pad(out, pad, Ghost(ind));
            out.push(']');
            proof {
                assert(out@ =~= old(out)@ + ser_json_pretty(json_view(*j), ind));
            }
        },
        Json::Obj(members) => {
            if members.len() == 0 {
                out.push('{');
                out.push('}');
                proof {
                    assert(out@ =~= old(out)@ + ser_json_pretty(json_view(*j), ind));
                }
                return ;
            }
            out.push('{');
            pad.push(' ');
            pad.push(' ');
            proof {
                reveal(padding);
                assert(pad@ =~= padding(ind + 1));
                lemma_json_member_views_len(members@);
            }
            let ghost views = json_member_views(members@);
            proof {
                assert(views.skip(0) =~= views);
                assert(out@ =~= old(out)@ + seq!['{']);
            }
            let n = members.len();
            let mut k: usize = 0;
            while k < n
                invariant
                    pad@ == padding(ind + 1),
                    views == json_member_views(members@),
                    views.len() == members@.len(),
                    forall|t: int|
                        0 <= t < members@.len() ==> views[t] == (
                        members@[t].0@,
                        json_view(members@[t].1),
                        ),
                    n == members@.len(),
                    0 <= k <= n,
                    out@ + ser_members_pretty(views.skip(k as int), k == 0, ind + 1) == old(out)@
                        + seq!['{'] + ser_members_pretty(views, true, ind + 1),
                decreases n - k,
            {
                if k > 0 {
                    out.push(',');
                }
                push_nl_pad(out, pad, Ghost(ind + 1));
                push_string_token(out, members[k].0.as_str());
                out.push(':');
                out.push(' ');
                push_json_pretty(out, &members[k].1, pad, Ghost(ind + 1));
                proof {
                    assert(views.skip(k as int)[0] == views[k as int]);
                    assert(views.skip(k as int).skip(1) =~= views.skip(k as int + 1));
                    assert(ser_members_pretty(views.skip(k as int), k == 0, ind + 1) == (if k
                        == 0 {
                        Seq::<char>::empty()
                    } else {
                        seq![',']
                    }) + nl_pad(ind + 1) + ser_string(views[k as int].0) + seq![':', ' ']
                        + ser_json_pretty(views[k as int].1, ind + 1) + ser_members_pretty(
                        views.skip(k as int + 1),
                        false,
                        ind + 1,
                    ));
                    assert(out@ + ser_members_pretty(views.skip(k as int + 1), false, ind + 1)
                        =~= old(out)@ + seq!['{'] + ser_members_pretty(views, true, ind + 1));
                }
                k += 1;
            }
            proof {
                assert(views.skip(n as int) =~= Seq::<(Seq<char>, JsonV)>::empty());
                assert(ser_members_pretty(views.skip(n as int), n == 0, ind + 1) =~= Seq::<
                    char,
                >::empty());
            }
            pad.pop();
            pad.pop();
            proof {
                assert(pad@ =~= old(pad)@);
            }
            push_nl_pad(out, pad, Ghost(ind));
            out.push('}');
            proof {
                assert(out@ =~= old(out)@ + ser_json_pretty(json_view(*j), ind));
            }
        },
        _ => {
            push_json(out, j);
            proof {
                assert(ser_json_pretty(json_view(*j), ind) == ser_json(json_view(*j)));
            }
        },
    }
}

/// The pretty text of `j` as a `String`: how the stored files are
/// laid out.
pub fn json_to_string_pretty(j: &Json) -> (r: String)
    ensures
        r@ == ser_json_pretty(json_view(*j), 0),
{
    let mut out: Vec<char> = Vec::new();
    let mut pad: Vec<char> = Vec::new();
    proof {
        reveal(padding);
        assert(pad@ =~= padding(0));
    }
    push_json_pretty(&mut out, j, &mut pad, Ghost(0nat));
    chars_to_string(&out)
}

/// The characters of a string slice, in order.
pub fn str_to_chars(s: &str) -> (r: Vec<char>)
    ensures
        r@ == s@,
{
    let n = s.unicode_len();
    let mut out: Vec<char> = Vec::new();
    let mut i: usize = 0;
    while i < n
        invariant
            n == s@.len(),
            0 <= i <= n,
            out@ =~= s@.take(i as int),
        decreases n - i,
    {
        out.push(s.get_char(i));
        proof {
            assert(out@ =~= s@.take(i as int + 1));
        }
        i += 1;
    }
    proof {
        assert(s@.take(n as int) =~= s@);
    }
    out
}

/// Relies on `Iterator::collect` for `String`: collecting characters
/// yields the string made of exactly those characters.
#[verifier::external_body]
pub fn chars_to_string(v: &Vec<char>) -> (r: String)
    ensures
        r@ == v@,
{
    v.iter().collect()
}

/// The serialized text of `j` as a `String`.
pub fn json_to_string(j: &Json) -> (r: String)
    ensures
        r@ == ser_json(json_view(*j)),
{
    let mut out: Vec<char> = Vec::new();
    push_json(&mut out, j);
    chars_to_string(&out)
}

} // verus!
