use vstd::prelude::*;

use crate::codec::chars_to_string;
use crate::json::{json_member_views, json_view, json_views, Json, JsonV};
use crate::json::{lemma_json_member_views_len, lemma_json_views_len};
use crate::numtext::is_digit;

verus! {

pub open spec fn is_ws(c: char) -> bool {
    c == ' ' || c == '\n' || c == '\t' || c == '\r'
}

/// Position of the first non-whitespace character at or after `i`.
pub open spec fn sp_ws(s: Seq<char>, i: int) -> int
    decreases s.len() - i,
{
    if 0 <= i && i < s.len() && is_ws(s[i]) {
        sp_ws(s, i + 1)
    } else {
        i
    }
}

/// The character an escape letter stands for, if it is one this
/// reader takes.
pub open spec fn unesc_char(c: char) -> Option<char> {
    if c == '"' {
        Some('"')
    } else if c == '\\' {
        Some('\\')
    } else if c == '/' {
        Some('/')
    } else if c == 'n' {
        Some('\n')
    } else if c == 't' {
        Some('\t')
    } else if c == 'r' {
        Some('\r')
    } else if c == 'b' {
        Some('\u{0008}')
    } else if c == 'f' {
        Some('\u{000C}')
    } else {
        None
    }
}

/// Reads a string body starting right after the opening quote;
/// yields the body and the position right after the closing quote.
pub open spec fn sp_string(s: Seq<char>, i: int) -> Option<(Seq<char>, int)>
    decreases s.len() - i,
{
    if i < 0 || i >= s.len() {
        None
    } else if s[i] == '"' {
        Some((Seq::empty(), i + 1))
    } else if s[i] == '\\' {
        if i + 1 >= s.len() {
            None
        } else if s[i + 1] == 'u' {
            if i + 6 > s.len() {
                None
            } else {
                match crate::codec::ctl_unesc(s[i + 2], s[i + 3], s[i + 4], s[i + 5]) {
                    None => None,
                    Some(c) => match sp_string(s, i + 6) {
                        None => None,
                        Some((t, p)) => Some((seq![c] + t, p)),
                    },
                }
            }
        } else {
            match unesc_char(s[i + 1]) {
                None => None,
                Some(c) => match sp_string(s, i + 2) {
                    None => None,
                    Some((t, p)) => Some((seq![c] + t, p)),
                },
            }
        }
    } else {
        match sp_string(s, i + 1) {
            None => None,
            Some((t, p)) => Some((seq![s[i]] + t, p)),
        }
    }
}

pub open spec fn is_num_char(c: char) -> bool {
    is_digit(c) || c == '-' || c == '+' || c == '.' || c == 'e' || c == 'E'
}

/// End of the maximal run of number characters starting at `i`.
pub open spec fn sp_numtok(s: Seq<char>, i: int) -> int
    decreases s.len() - i,
{
    if 0 <= i && i < s.len() && is_num_char(s[i]) {
        sp_numtok(s, i + 1)
    } else {
        i
    }
}

/// Reads one JSON value starting at `i0`, whitespace allowed before
/// every token. `fuel` bounds the recursion; any text whose reading
/// would outrun it is rejected.
pub open spec fn sp_value(s: Seq<char>, i0: int, fuel: nat) -> Option<(JsonV, int)>
    decreases fuel,
{
    if fuel == 0 {
        None
    } else {
        let i = sp_ws(s, i0);
        if i >= s.len() {
            None
        } else if s[i] == 'n' {
            if i + 4 <= s.len() && s[i + 1] == 'u' && s[i + 2] == 'l' && s[i + 3] == 'l' {
                Some((JsonV::Null, i + 4))
            } else {
                None
            }
        } else if s[i] == 't' {
            if i + 4 <= s.len() && s[i + 1] == 'r' && s[i + 2] == 'u' && s[i + 3] == 'e' {
                Some((JsonV::Bool(true), i + 4))
            } else {
                None
            }
        } else if s[i] == 'f' {
            if i + 5 <= s.len() && s[i + 1] == 'a' && s[i + 2] == 'l' && s[i + 3] == 's' && s[i + 4]
                == 'e' {
                Some((JsonV::Bool(false), i + 5))
            } else {
                None
            }
        } else if s[i] == '"' {
            match sp_string(s, i + 1) {
                None => None,
                Some((t, p)) => Some((JsonV::Str(t), p)),
            }
        } else if s[i] == '[' {
            let j = sp_ws(s, i + 1);
            if j < s.len() && s[j] == ']' {
                Some((JsonV::Arr(Seq::empty()), j + 1))
            } else {
                match sp_items(s, i + 1, (fuel - 1) as nat) {
                    None => None,
                    Some((es, p)) => Some((JsonV::Arr(es), p)),
                }
            }
        } else if s[i] == '{' {
            let j = sp_ws(s, i + 1);
            if j < s.len() && s[j] == '}' {
                Some((JsonV::Obj(Seq::empty()), j + 1))
            } else {
                match sp_members(s, i + 1, (fuel - 1) as nat) {
                    None => None,
                    Some((ms, p)) => Some((JsonV::Obj(ms), p)),
                }
            }
        } else if is_digit(s[i]) || s[i] == '-' {
            let e = sp_numtok(s, i);
            if e > i {
                Some((JsonV::Num(s.subrange(i, e)), e))
            } else {
                None
            }
        } else {
            None
        }
    }
}

/// Reads the elements of a non-empty array, starting right after the
/// opening bracket or after a comma; ends right after the closing
/// bracket.
pub open spec fn sp_items(s: Seq<char>, i: int, fuel: nat) -> Option<(Seq<JsonV>, int)>
    decreases fuel,
{
    if fuel == 0 {
        None
    } else {
        match sp_value(s, i, (fuel - 1) as nat) {
            None => None,
            Some((v, p)) => {
                let m = sp_ws(s, p);
                if m < s.len() && s[m] == ',' {
                    match sp_items(s, m + 1, (fuel - 1) as nat) {
                        None => None,
                        Some((es, q)) => Some((seq![v] + es, q)),
                    }
                } else if m < s.len() && s[m] == ']' {
                    Some((seq![v], m + 1))
                } else {
                    None
                }
            },
        }
    }
}

/// Reads the members of a non-empty object, starting right after the
/// opening brace or after a comma; ends right after the closing brace.
pub open spec fn sp_members(s: Seq<char>, i: int, fuel: nat) -> Option<
    (Seq<(Seq<char>, JsonV)>, int),
>
    decreases fuel,
{
    if fuel == 0 {
        None
    } else {
        let j = sp_ws(s, i);
        if j < s.len() && s[j] == '"' {
            match sp_string(s, j + 1) {
                None => None,
                Some((k, p)) => {
                    let c = sp_ws(s, p);
                    if c < s.len() && s[c] == ':' {
                        match sp_value(s, c + 1, (fuel - 1) as nat) {
                            None => None,
                            Some((v, q)) => {
                                let m = sp_ws(s, q);
                                if m < s.len() && s[m] == ',' {
                                    match sp_members(s, m + 1, (fuel - 1) as nat) {
                                        None => None,
                                        Some((ms, r)) => Some((seq![(k, v)] + ms, r)),
                                    }
                                } else if m < s.len() && s[m] == '}' {
                                    Some((seq![(k, v)], m + 1))
                                } else {
                                    None
                                }
                            },
                        }
                    } else {
                        None
                    }
                },
            }
        } else {
            None
        }
    }
}

/// The reading a whole text gets: one value, with nothing but
/// whitespace around it. Anything else is no document.
pub open spec fn parse_text(s: Seq<char>) -> Option<JsonV> {
    match sp_value(s, 0, (4 * s.len() + 2) as nat) {
        None => None,
        Some((v, p)) => if 0 <= p <= s.len() && sp_ws(s, p) == s.len() {
            Some(v)
        } else {
            None
        },
    }
}

// ===== exec reader =====

fn ex_ws(s: &Vec<char>, i: usize) -> (r: usize)
    requires
        i <= s@.len(),
    ensures
        r as int == sp_ws(s@, i as int),
        i <= r <= s@.len(),
{
    let mut k = i;
    while k < s.len() && is_ws_char(s[k])
        invariant
            i <= k <= s@.len(),
            sp_ws(s@, i as int) == sp_ws(s@, k as int),
        decreases s@.len() - k,
    {
        k += 1;
    }
    k
}

fn is_ws_char(c: char) -> (r: bool)
    ensures
        r == is_ws(c),
{
    c == ' ' || c == '\n' || c == '\t' || c == '\r'
}

fn is_num_char_exec(c: char) -> (r: bool)
    ensures
        r == is_num_char(c),
{
    is_digit_exec(c) || c == '-' || c == '+' || c == '.' || c == 'e' || c == 'E'
}

fn is_digit_exec(c: char) -> (r: bool)
    ensures
        r == is_digit(c),
{
    c == '0' || c == '1' || c == '2' || c == '3' || c == '4' || c == '5' || c == '6' || c == '7'
        || c == '8' || c == '9'
}

/// Prepends a prefix onto the body of a string reading.
pub open spec fn prepend_body(a: Seq<char>, r: Option<(Seq<char>, int)>) -> Option<
    (Seq<char>, int),
> {
    match r {
        None => None,
        Some((t, p)) => Some((a + t, p)),
    }
}

fn ex_string(s: &Vec<char>, i: usize) -> (r: Option<(String, usize)>)
    requires
        i <= s@.len(),
    ensures
        match r {
            Some((t, p)) => sp_string(s@, i as int) == Some((t@, p as int)) && i < p <= s@.len(),
            None => sp_string(s@, i as int) is None,
        },
{
    let mut acc: Vec<char> = Vec::new();
    let mut k = i;
    loop
        invariant
            i <= k <= s@.len(),
            sp_string(s@, i as int) == prepend_body(acc@, sp_string(s@, k as int)),
        decreases s@.len() - k,
    {
        if k >= s.len() {
            return None;
        }
        let c = s[k];
        if c == '"' {
            proof {
                assert(sp_string(s@, k as int) == Some((Seq::<char>::empty(), k as int + 1)));
                assert(acc@ + Seq::<char>::empty() =~= acc@);
            }
            return Some((chars_to_string(&acc), k + 1));
        } else if c == '\\' {
            if k + 1 >= s.len() {
                return None;
            }
            if s[k + 1] == 'u' {
                if s.len() - k < 6 {
                    return None;
                }
                match crate::codec::ctl_unesc_exec(s[k + 2], s[k + 3], s[k + 4], s[k + 5]) {
                    None => {
                        return None;
                    },
                    Some(u) => {
                        acc.push(u);
                        proof {
                            lemma_prepend_assoc(s@, acc@, u, k as int + 6);
                        }
                        k += 6;
                    },
                }
                continue ;
            }
            let e = s[k + 1];
            let dec: Option<char> = if e == '"' {
                Some('"')
            } else if e == '\\' {
                Some('\\')
            } else if e == '/' {
                Some('/')
            } else if e == 'n' {
                Some('\n')
            } else if e == 't' {
                Some('\t')
            } else if e == 'r' {
                Some('\r')
            } else if e == 'b' {
                Some('\u{0008}')
            } else if e == 'f' {
                Some('\u{000C}')
            } else {
                None
            };
            proof {
                assert(dec == unesc_char(s@[k as int + 1]));
            }
            match dec {
                None => {
                    return None;
                },
                Some(u) => {
                    acc.push(u);
                    proof {
                        lemma_prepend_assoc(s@, acc@, u, k as int + 2);
                    }
                    k += 2;
                },
            }
        } else {
            acc.push(c);
            proof {
                lemma_prepend_assoc(s@, acc@, c, k as int + 1);
            }
            k += 1;
        }
    }
}

/// Growing the prefix by the character the reader just took keeps the
/// prepended reading equal.
proof fn lemma_prepend_assoc(s: Seq<char>, acc_new: Seq<char>, c: char, next: int)
    requires
        acc_new.len() > 0,
        acc_new.last() == c,
    ensures
        prepend_body(acc_new.drop_last(), (match sp_string(s, next) {
            None => None,
            Some((t, p)) => Some((seq![c] + t, p)),
        })) == prepend_body(acc_new, sp_string(s, next)),
{
    match sp_string(s, next) {
        None => {},
        Some((t, p)) => {
            assert(acc_new.drop_last() + (seq![c] + t) =~= acc_new + t);
        },
    }
}

fn ex_numtok(s: &Vec<char>, i: usize) -> (r: usize)
    requires
        i <= s@.len(),
    ensures
        r as int == sp_numtok(s@, i as int),
        i <= r <= s@.len(),
{
    let mut k = i;
    while k < s.len() && is_num_char_exec(s[k])
        invariant
            i <= k <= s@.len(),
            sp_numtok(s@, i as int) == sp_numtok(s@, k as int),
        decreases s@.len() - k,
    {
        k += 1;
    }
    k
}

/// Reads one JSON value; mirrors `sp_value` exactly.
#[verifier::rlimit(100)]
pub fn ex_value(s: &Vec<char>, i0: usize, fuel: u64) -> (r: Option<(Json, usize)>)
    requires
        i0 <= s@.len(),
    ensures
        match r {
            Some((j, p)) => sp_value(s@, i0 as int, fuel as nat) == Some((json_view(j), p as int))
                && p <= s@.len(),
            None => sp_value(s@, i0 as int, fuel as nat) is None,
        },
    decreases fuel,
{
    if fuel == 0 {
        return None;
    }
    let i = ex_ws(s, i0);
    if i >= s.len() {
        return None;
    }
    let c = s[i];
    if c == 'n' {
        if s.len() - i >= 4 && s[i + 1] == 'u' && s[i + 2] == 'l' && s[i + 3] == 'l' {
            Some((Json::Null, i + 4))
        } else {
            None
        }
    } else if c == 't' {
        if s.len() - i >= 4 && s[i + 1] == 'r' && s[i + 2] == 'u' && s[i + 3] == 'e' {
            Some((Json::Bool(true), i + 4))
        } else {
            None
        }
    } else if c == 'f' {
        if s.len() - i >= 5 && s[i + 1] == 'a' && s[i + 2] == 'l' && s[i + 3] == 's' && s[i + 4]
            == 'e' {
            Some((Json::Bool(false), i + 5))
        } else {
            None
        }
    } else if c == '"' {
        match ex_string(s, i + 1) {
            None => None,
            Some((t, p)) => Some((Json::Str(t), p)),
        }
    } else if c == '[' {
        let j = ex_ws(s, i + 1);
        if j < s.len() && s[j] == ']' {
            let empty_elems: Vec<Json> = Vec::new();
            proof {
                lemma_json_views_len(empty_elems@);
                assert(json_views(empty_elems@) =~= Seq::<JsonV>::empty());
            }
            Some((Json::Arr(empty_elems), j + 1))
        } else {
            match ex_items(s, i + 1, fuel - 1) {
                None => None,
                Some((es, p)) => Some((Json::Arr(es), p)),
            }
        }
    } else if c == '{' {
        let j = ex_ws(s, i + 1);
        if j < s.len() && s[j] == '}' {
            let empty_members: Vec<(String, Json)> = Vec::new();
            proof {
                lemma_json_member_views_len(empty_members@);
                assert(json_member_views(empty_members@) =~= Seq::<(Seq<char>, JsonV)>::empty());
            }
            Some((Json::Obj(empty_members), j + 1))
        } else {
            match ex_members(s, i + 1, fuel - 1) {
                None => None,
                Some((ms, p)) => Some((Json::Obj(ms), p)),
            }
        }
    } else if is_digit_exec(c) || c == '-' {
        let e = ex_numtok(s, i);
        if e > i {
            let mut tok: Vec<char> = Vec::new();
            let mut k = i;
            while k < e
                invariant
                    i <= k <= e <= s@.len(),
                    tok@ =~= s@.subrange(i as int, k as int),
                decreases e - k,
            {
                tok.push(s[k]);
                proof {
                    assert(tok@ =~= s@.subrange(i as int, k as int + 1));
                }
                k += 1;
            }
            Some((Json::Num(chars_to_string(&tok)), e))
        } else {
            None
        }
    } else {
        None
    }
}

/// Reads the elements of a non-empty array; mirrors `sp_items`.
pub fn ex_items(s: &Vec<char>, i: usize, fuel: u64) -> (r: Option<(Vec<Json>, usize)>)
    requires
        i <= s@.len(),
    ensures
        match r {
            Some((es, p)) => sp_items(s@, i as int, fuel as nat) == Some(
                (json_views(es@), p as int),
            ) && p <= s@.len(),
            None => sp_items(s@, i as int, fuel as nat) is None,
        },
    decreases fuel,
{
    if fuel == 0 {
        return None;
    }
    match ex_value(s, i, fuel - 1) {
        None => None,
        Some((v, p)) => {
            let m = ex_ws(s, p);
            if m < s.len() && s[m] == ',' {
                match ex_items(s, m + 1, fuel - 1) {
                    None => None,
                    Some((es, q)) => {
                        let mut es = es;
                        let ghost es0 = es@;
                        es.insert(0, v);
                        proof {
                            lemma_json_views_len(es@);
                            lemma_json_views_len(es0);
                            assert(es@.len() == es0.len() + 1);
                            assert(es@[0] == v);
                            assert(forall|t: int| 0 <= t < es0.len() ==> es@[t + 1] == es0[t]);
                            assert(json_views(es@) =~= seq![json_view(v)] + json_views(es0));
                        }
                        Some((es, q))
                    },
                }
            } else if m < s.len() && s[m] == ']' {
                let mut one: Vec<Json> = Vec::new();
                one.push(v);
                proof {
                    lemma_json_views_len(one@);
                    assert(json_views(one@) =~= seq![json_view(v)]);
                }
                Some((one, m + 1))
            } else {
                None
            }
        },
    }
}

/// Reads the members of a non-empty object; mirrors `sp_members`.
pub fn ex_members(s: &Vec<char>, i: usize, fuel: u64) -> (r: Option<(Vec<(String, Json)>, usize)>)
    requires
        i <= s@.len(),
    ensures
        match r {
            Some((ms, p)) => sp_members(s@, i as int, fuel as nat) == Some(
                (json_member_views(ms@), p as int),
            ) && p <= s@.len(),
            None => sp_members(s@, i as int, fuel as nat) is None,
        },
    decreases fuel,
{
    if fuel == 0 {
        return None;
    }
    let j = ex_ws(s, i);
    if j < s.len() && s[j] == '"' {
        match ex_string(s, j + 1) {
            None => None,
            Some((k, p)) => {
                let c = ex_ws(s, p);
                if c < s.len() && s[c] == ':' {
                    match ex_value(s, c + 1, fuel - 1) {
                        None => None,
                        Some((v, q)) => {
                            let m = ex_ws(s, q);
                            if m < s.len() && s[m] == ',' {
                                match ex_members(s, m + 1, fuel - 1) {
                                    None => None,
                                    Some((ms, r2)) => {
                                        let mut ms = ms;
                                        let ghost ms0 = ms@;
                                        let ghost kv = (k@, json_view(v));
                                        ms.insert(0, (k, v));
                                        proof {
                                            lemma_json_member_views_len(ms@);
                                            lemma_json_member_views_len(ms0);
                                            assert(ms@.len() == ms0.len() + 1);
                                            assert(ms@[0].0@ == kv.0 && json_view(ms@[0].1)
                                                == kv.1);
                                            assert(forall|t: int|
                                                0 <= t < ms0.len() ==> ms@[t + 1] == ms0[t]);
                                            assert(json_member_views(ms@) =~= seq![kv]
                                                + json_member_views(ms0));
                                        }
                                        Some((ms, r2))
                                    },
                                }
                            } else if m < s.len() && s[m] == '}' {
                                let mut one: Vec<(String, Json)> = Vec::new();
                                one.push((k, v));
                                proof {
                                    lemma_json_member_views_len(one@);
                                    assert(json_member_views(one@) =~= seq![
                                        (one@[0].0@, json_view(one@[0].1)),
                                    ]);
                                }
                                Some((one, m + 1))
                            } else {
                                None
                            }
                        },
                    }
                } else {
                    None
                }
            },
        }
    } else {
        None
    }
}

/// Reads a whole text as one JSON document; anything malformed, or
/// trailing content, yields nothing.
pub fn parse_json(s: &str) -> (r: Option<Json>)
    ensures
        s@.len() <= 0x0fff_ffff_ffff_ffff ==> match r {
            Some(j) => parse_text(s@) == Some(json_view(j)),
            None => parse_text(s@) is None,
        },
{
    let chars = crate::codec::str_to_chars(s);
    let n = chars.len();
    let fuel: u64 = if n as u64 <= 0x0fff_ffff_ffff_ffff {
        4 * (n as u64) + 2
    } else {
        u64::MAX
    };
    match ex_value(&chars, 0, fuel) {
        None => None,
        Some((j, p)) => {
            let w = ex_ws(&chars, p);
            if w == n {
                Some(j)
            } else {
                None
            }
        },
    }
}

} // verus!
