use vstd::prelude::*;

use crate::codec::{
    esc_char, esc_str, nl_pad, padding, ser_items, ser_items_pretty, ser_json, ser_json_pretty,
    ser_members, ser_members_pretty, ser_string,
};
use crate::json::JsonV;
use crate::numtext::is_digit;
use crate::parse::{
    is_num_char, is_ws, parse_text, sp_items, sp_members, sp_numtok, sp_string, sp_value, sp_ws,
};

verus! {

broadcast use vstd::seq::axiom_seq_index_decreases, vstd::seq::axiom_seq_subrange_decreases, vstd::seq_lib::lemma_seq_skip_index, vstd::seq_lib::lemma_seq_skip_len, vstd::seq_lib::lemma_seq_take_index, vstd::seq_lib::lemma_seq_take_len, vstd::seq_lib::lemma_seq_skip_index2, vstd::seq_lib::lemma_seq_append_take_skip;

/// A character that can open a serialized JSON value.
pub open spec fn is_value_start(c: char) -> bool {
    c == 'n' || c == 't' || c == 'f' || c == '"' || c == '[' || c == '{' || is_digit(c) || c == '-'
}

/// A number token this writer may emit: non-empty, number characters
/// only, opening like a value.
pub open spec fn valid_num_text(t: Seq<char>) -> bool {
    &&& t.len() > 0
    &&& forall|i: int| 0 <= i < t.len() ==> is_num_char(t[i])
    &&& (is_digit(t[0]) || t[0] == '-')
}

/// A value whose serialized text reads back as itself: every number
/// token in it is one this writer may emit.
pub open spec fn wf_json(j: JsonV) -> bool
    decreases j,
{
    match j {
        JsonV::Null => true,
        JsonV::Bool(_) => true,
        JsonV::Num(t) => valid_num_text(t),
        JsonV::Str(_) => true,
        JsonV::Arr(elems) => wf_items(elems),
        JsonV::Obj(members) => wf_members(members),
    }
}

pub open spec fn wf_items(elems: Seq<JsonV>) -> bool
    decreases elems, 0nat,
{
    elems.len() == 0 || (wf_json(elems[0]) && wf_items(elems.skip(1)))
}

pub open spec fn wf_members(members: Seq<(Seq<char>, JsonV)>) -> bool
    decreases members, 0nat,
{
    members.len() == 0 || (wf_json(members[0].1) && wf_members(members.skip(1)))
}

/// Serialized text is non-empty and opens with a value-start
/// character.
pub proof fn lemma_ser_first(j: JsonV)
    requires
        wf_json(j),
    ensures
        ser_json(j).len() >= 1,
        is_value_start(ser_json(j)[0]),
{
    match j {
        JsonV::Null => {},
        JsonV::Bool(b) => {},
        JsonV::Num(t) => {},
        JsonV::Str(s) => {
            assert(ser_json(j)[0] == '"');
        },
        JsonV::Arr(e) => {
            assert(ser_json(j)[0] == '[');
        },
        JsonV::Obj(m) => {
            assert(ser_json(j)[0] == '{');
        },
    }
}

/// The characters of a suffix, position by position.
proof fn lemma_skip_pointwise(s: Seq<char>, i: int)
    requires
        0 <= i <= s.len(),
    ensures
        s.skip(i).len() == s.len() - i,
        forall|k: int| 0 <= k < s.len() - i ==> s.skip(i)[k] == s[i + k],
{
}

/// With no whitespace at `i`, skipping goes nowhere.
proof fn lemma_ws_stop(s: Seq<char>, i: int)
    requires
        0 <= i,
        i < s.len() ==> !is_ws(s[i]),
    ensures
        sp_ws(s, i) == i,
{
}

/// Reading the escaped body of `x` followed by a closing quote yields
/// exactly `x`.
pub proof fn lemma_string_rt(x: Seq<char>, s: Seq<char>, i: int, rest: Seq<char>)
    requires
        0 <= i <= s.len(),
        s.skip(i) =~= esc_str(x) + seq!['"'] + rest,
    ensures
        sp_string(s, i) == Some((x, i + esc_str(x).len() + 1)),
    decreases x.len(),
{
    reveal(crate::codec::esc_char);
    lemma_skip_pointwise(s, i);
    if x.len() == 0 {
        assert(esc_str(x) =~= Seq::<char>::empty());
        assert(s.skip(i)[0] == s[i]);
        assert(s[i] == '"');
    } else {
        let c = x[0];
        let e = esc_char(c);
        assert(esc_str(x) == e + esc_str(x.skip(1)));
        assert(s.skip(i)[0] == s[i]);
        assert(s[i] == e[0]);
        if c == '"' || c == '\\' || c == '\n' || c == '\t' || c == '\r' {
            assert(e.len() == 2 && e[0] == '\\');
            assert(s.skip(i)[1] == s[i + 1]);
            assert(s[i + 1] == e[1]);
            assert(s.skip(i + 2) =~= esc_str(x.skip(1)) + seq!['"'] + rest);
            lemma_string_rt(x.skip(1), s, i + 2, rest);
            assert(crate::parse::unesc_char(e[1]) == Some(c));
            assert(seq![c] + x.skip(1) =~= x);
        } else if (c as u32) < 32 {
            assert(e.len() == 6 && e[0] == '\\' && e[1] == 'u' && e[2] == '0' && e[3] == '0');
            assert(s[i + 1] == e[1]);
            assert(s[i + 2] == e[2]);
            assert(s[i + 3] == e[3]);
            assert(s[i + 4] == e[4]);
            assert(s[i + 5] == e[5]);
            assert(s.skip(i + 6) =~= esc_str(x.skip(1)) + seq!['"'] + rest);
            lemma_string_rt(x.skip(1), s, i + 6, rest);
            crate::codec::lemma_ctl_round(c);
            assert(crate::codec::ctl_unesc('0', '0', e[4], e[5]) == Some(c));
            assert(seq![c] + x.skip(1) =~= x);
        } else {
            assert(e =~= seq![c]);
            assert(s[i] == c);
            assert(s[i] != '"' && s[i] != '\\');
            assert((s[i] as u32) >= 32);
            assert(s.skip(i + 1) =~= esc_str(x.skip(1)) + seq!['"'] + rest);
            lemma_string_rt(x.skip(1), s, i + 1, rest);
            assert(seq![s[i]] + x.skip(1) =~= x);
        }
    }
}

/// Reading a number token stops exactly at its end when what follows
/// is no number character.
proof fn lemma_numtok_rt(t: Seq<char>, s: Seq<char>, i: int, rest: Seq<char>)
    requires
        0 <= i <= s.len(),
        forall|k: int| 0 <= k < t.len() ==> is_num_char(t[k]),
        s.skip(i) =~= t + rest,
        rest.len() == 0 || !is_num_char(rest[0]),
    ensures
        sp_numtok(s, i) == i + t.len(),
    decreases t.len(),
{
    lemma_skip_pointwise(s, i);
    if t.len() == 0 {
        if i < s.len() {
            assert(s.skip(i)[0] == s[i]);
            assert(s[i] == rest[0]);
        }
    } else {
        assert(s.skip(i)[0] == s[i]);
        assert(s[i] == t[0]);
        assert(s.skip(i + 1) =~= t.skip(1) + rest);
        lemma_numtok_rt(t.skip(1), s, i + 1, rest);
    }
}

/// A character that may follow a serialized value without extending
/// it: a separator, a closing bracket or whitespace.
pub open spec fn is_sep(c: char) -> bool {
    c == ',' || c == ']' || c == '}' || is_ws(c)
}

/// Reading a serialized atom (null, a boolean, a number or a string)
/// yields it back.
#[verifier::rlimit(100)]
proof fn lemma_value_atom_rt(j: JsonV, s: Seq<char>, i: int, rest: Seq<char>, fuel: nat)
    requires
        wf_json(j),
        !(j is Arr),
        !(j is Obj),
        0 <= i <= s.len(),
        s.skip(i) =~= ser_json(j) + rest,
        rest.len() == 0 || is_sep(rest[0]),
        fuel >= 1,
    ensures
        sp_value(s, i, fuel) == Some((j, i + ser_json(j).len())),
{
    lemma_skip_pointwise(s, i);
    lemma_ser_first(j);
    assert(s[i] == ser_json(j)[0]);
    assert(!is_ws(s[i]));
    lemma_ws_stop(s, i);
    match j {
        JsonV::Null => {
            assert(s.len() - i >= 4);
            assert(s[i] == 'n' && s[i + 1] == 'u' && s[i + 2] == 'l' && s[i + 3] == 'l');
        },
        JsonV::Bool(b) => {
            if b {
                assert(s.len() - i >= 4);
                assert(s[i] == 't' && s[i + 1] == 'r' && s[i + 2] == 'u' && s[i + 3] == 'e');
            } else {
                assert(s.len() - i >= 5);
                assert(s[i] == 'f' && s[i + 1] == 'a' && s[i + 2] == 'l' && s[i + 3] == 's' && s[i
                    + 4] == 'e');
            }
        },
        JsonV::Num(t) => {
            assert(s.skip(i) =~= t + rest);
            lemma_numtok_rt(t, s, i, rest);
            assert(is_digit(s[i]) || s[i] == '-');
            assert(s[i] != 'n' && s[i] != 't' && s[i] != 'f' && s[i] != '"' && s[i] != '[' && s[i]
                != '{');
            assert(s.subrange(i, i + t.len()) =~= t);
        },
        JsonV::Str(x) => {
            assert(s.skip(i + 1) =~= esc_str(x) + seq!['"'] + rest);
            lemma_string_rt(x, s, i + 1, rest);
        },
        JsonV::Arr(_) => {},
        JsonV::Obj(_) => {},
    }
}

/// Reading a serialized non-empty array value.
#[verifier::rlimit(100)]
#[verifier::spinoff_prover]
proof fn lemma_value_arr_rt(elems: Seq<JsonV>, s: Seq<char>, i: int, rest: Seq<char>, fuel: nat)
    requires
        elems.len() >= 1,
        wf_items(elems),
        0 <= i <= s.len(),
        s.skip(i) =~= ser_json(JsonV::Arr(elems)) + rest,
        rest.len() == 0 || is_sep(rest[0]),
        fuel >= 4 * (s.len() - i) + 2,
    ensures
        sp_value(s, i, fuel) == Some((JsonV::Arr(elems), i + ser_json(JsonV::Arr(elems)).len())),
    decreases elems, 3nat,
{
    lemma_skip_pointwise(s, i);
    let j = JsonV::Arr(elems);
    assert(s[i] == '[');
    lemma_ws_stop(s, i);
    assert(wf_json(elems[0]));
    lemma_ser_first(elems[0]);
    assert(ser_items(elems, true) == ser_json(elems[0]) + ser_items(elems.skip(1), false));
    assert(s[i + 1] == ser_json(elems[0])[0]);
    assert(!is_ws(s[i + 1]) && s[i + 1] != ']');
    lemma_ws_stop(s, i + 1);
    assert(s.skip(i + 1) =~= ser_items(elems, true) + seq![']'] + rest);
    lemma_items_rt(elems, s, i + 1, rest, (fuel - 1) as nat);
    assert(ser_json(j).len() == 2 + ser_items(elems, true).len());
    assert(sp_value(s, i, fuel) == Some((j, i + ser_json(j).len())));
}

/// Reading a serialized non-empty object value.
#[verifier::rlimit(100)]
#[verifier::spinoff_prover]
proof fn lemma_value_obj_rt(
    members: Seq<(Seq<char>, JsonV)>,
    s: Seq<char>,
    i: int,
    rest: Seq<char>,
    fuel: nat,
)
    requires
        members.len() >= 1,
        wf_members(members),
        0 <= i <= s.len(),
        s.skip(i) =~= ser_json(JsonV::Obj(members)) + rest,
        rest.len() == 0 || is_sep(rest[0]),
        fuel >= 4 * (s.len() - i) + 2,
    ensures
        sp_value(s, i, fuel) == Some(
            (JsonV::Obj(members), i + ser_json(JsonV::Obj(members)).len()),
        ),
    decreases members, 3nat,
{
    lemma_skip_pointwise(s, i);
    let j = JsonV::Obj(members);
    assert(s[i] == '{');
    lemma_ws_stop(s, i);
    assert(ser_members(members, true) == ser_string(members[0].0) + seq![':'] + ser_json(
        members[0].1,
    ) + ser_members(members.skip(1), false));
    assert(s[i + 1] == '"');
    lemma_ws_stop(s, i + 1);
    assert(s.skip(i + 1) =~= ser_members(members, true) + seq!['}'] + rest);
    lemma_members_rt(members, s, i + 1, rest, (fuel - 1) as nat);
    assert(ser_json(j).len() == 2 + ser_members(members, true).len());
    assert(sp_value(s, i, fuel) == Some((j, i + ser_json(j).len())));
}

/// Reading the serialized text of a well-formed value yields that
/// value and stops right after it.
#[verifier::rlimit(100)]
#[verifier::spinoff_prover]
pub proof fn lemma_value_rt(j: JsonV, s: Seq<char>, i: int, rest: Seq<char>, fuel: nat)
    requires
        wf_json(j),
        0 <= i <= s.len(),
        s.skip(i) =~= ser_json(j) + rest,
        rest.len() == 0 || is_sep(rest[0]),
        fuel >= 4 * (s.len() - i) + 2,
    ensures
        sp_value(s, i, fuel) == Some((j, i + ser_json(j).len())),
    decreases j, 0nat,
{
    lemma_skip_pointwise(s, i);
    lemma_ser_first(j);
    assert(s[i] == ser_json(j)[0]);
    assert(!is_ws(s[i]));
    lemma_ws_stop(s, i);
    match j {
        JsonV::Arr(elems) => {
            if elems.len() == 0 {
                assert(elems =~= Seq::<JsonV>::empty());
                assert(ser_items(elems, true) =~= Seq::<char>::empty());
                assert(s[i + 1] == ']');
                lemma_ws_stop(s, i + 1);
                assert(ser_json(j).len() == 2);
                assert(sp_value(s, i, fuel) == Some((j, i + 2)));
            } else {
                lemma_value_arr_rt(elems, s, i, rest, fuel);
            }
        },
        JsonV::Obj(members) => {
            if members.len() == 0 {
                assert(members =~= Seq::<(Seq<char>, JsonV)>::empty());
                assert(ser_members(members, true) =~= Seq::<char>::empty());
                assert(s[i + 1] == '}');
                lemma_ws_stop(s, i + 1);
                assert(ser_json(j).len() == 2);
                assert(sp_value(s, i, fuel) == Some((j, i + 2)));
            } else {
                lemma_value_obj_rt(members, s, i, rest, fuel);
            }
        },
        _ => {
            lemma_value_atom_rt(j, s, i, rest, fuel);
        },
    }
}

/// Reading serialized array elements, from right after the opening
/// bracket, yields those elements and stops right after the closing
/// bracket.
#[verifier::rlimit(100)]
#[verifier::spinoff_prover]
pub proof fn lemma_items_rt(
    elems: Seq<JsonV>,
    s: Seq<char>,
    i: int,
    rest: Seq<char>,
    fuel: nat,
)
    requires
        elems.len() >= 1,
        wf_items(elems),
        0 <= i <= s.len(),
        s.skip(i) =~= ser_items(elems, true) + seq![']'] + rest,
        rest.len() == 0 || is_sep(rest[0]),
        fuel >= 4 * (s.len() - i) + 5,
    ensures
        sp_items(s, i, fuel) == Some(
            (elems, i + ser_items(elems, true).len() + 1),
        ),
    decreases elems, 2nat,
{
    lemma_skip_pointwise(s, i);
    let e0 = elems[0];
    assert(wf_json(e0));
    lemma_ser_first(e0);
    let tail = elems.skip(1);
    assert(ser_items(elems, true) == ser_json(e0) + ser_items(tail, false));
    if tail.len() == 0 {
        assert(ser_items(tail, false) =~= Seq::<char>::empty());
        let rest1 = seq![']'] + rest;
        assert(s.skip(i) =~= ser_json(e0) + rest1);
        lemma_value_rt(e0, s, i, rest1, (fuel - 1) as nat);
        let p = i + ser_json(e0).len();
        assert(s[p] == ']');
        lemma_ws_stop(s, p);
        assert(seq![e0] =~= elems);
    } else {
        assert(ser_items(tail, false) == seq![','] + ser_json(tail[0]) + ser_items(
            tail.skip(1),
            false,
        ));
        let rest1 = ser_items(tail, false) + seq![']'] + rest;
        assert(s.skip(i) =~= ser_json(e0) + rest1);
        assert(rest1[0] == ',');
        lemma_value_rt(e0, s, i, rest1, (fuel - 1) as nat);
        let p = i + ser_json(e0).len();
        assert(s[p] == ',');
        lemma_ws_stop(s, p);
        assert(ser_items(tail, true) == ser_json(tail[0]) + ser_items(tail.skip(1), false));
        assert(s.skip(p + 1) =~= ser_items(tail, true) + seq![']'] + rest);
        lemma_items_rt(tail, s, p + 1, rest, (fuel - 1) as nat);
        assert(seq![e0] + tail =~= elems);
    }
}

/// Reading one serialized `"key":value` head: the key string, the
/// colon and the value, from `i`, end where the value ends.
#[verifier::rlimit(100)]
proof fn lemma_member_head_rt(
    key: Seq<char>,
    v0: JsonV,
    s: Seq<char>,
    i: int,
    rest1: Seq<char>,
    fuel: nat,
)
    requires
        wf_json(v0),
        0 <= i <= s.len(),
        s.skip(i) =~= ser_string(key) + seq![':'] + ser_json(v0) + rest1,
        rest1.len() >= 1 && is_sep(rest1[0]),
        fuel >= 4 * (s.len() - i) + 1,
    ensures
        sp_ws(s, i) == i,
        s[i] == '"',
        sp_string(s, i + 1) == Some((key, i + ser_string(key).len())),
        sp_ws(s, i + ser_string(key).len()) == i + ser_string(key).len(),
        s[i + ser_string(key).len()] == ':',
        sp_value(s, i + ser_string(key).len() + 1, (fuel - 1) as nat) == Some(
            (v0, i + ser_string(key).len() + 1 + ser_json(v0).len()),
        ),
    decreases v0, 1nat,
{
    lemma_skip_pointwise(s, i);
    assert(s[i] == '"');
    lemma_ws_stop(s, i);
    let kend = i + 1 + esc_str(key).len() + 1;
    assert(s.skip(i + 1) =~= esc_str(key) + seq!['"'] + (seq![':'] + ser_json(v0) + rest1));
    lemma_string_rt(key, s, i + 1, seq![':'] + ser_json(v0) + rest1);
    assert(s[kend] == ':');
    lemma_ws_stop(s, kend);
    lemma_ser_first(v0);
    assert(s.skip(kend + 1) =~= ser_json(v0) + rest1);
    lemma_value_rt(v0, s, kend + 1, rest1, (fuel - 1) as nat);
}

/// Reading serialized object members, from right after the opening
/// brace, yields those members and stops right after the closing
/// brace.
#[verifier::rlimit(100)]
#[verifier::spinoff_prover]
pub proof fn lemma_members_rt(
    members: Seq<(Seq<char>, JsonV)>,
    s: Seq<char>,
    i: int,
    rest: Seq<char>,
    fuel: nat,
)
    requires
        members.len() >= 1,
        wf_members(members),
        0 <= i <= s.len(),
        s.skip(i) =~= ser_members(members, true) + seq!['}'] + rest,
        rest.len() == 0 || is_sep(rest[0]),
        fuel >= 4 * (s.len() - i) + 5,
    ensures
        sp_members(s, i, fuel) == Some(
            (members, i + ser_members(members, true).len() + 1),
        ),
    decreases members, 2nat,
{
    lemma_skip_pointwise(s, i);
    let key = members[0].0;
    let v0 = members[0].1;
    assert(wf_json(v0));
    let tail = members.skip(1);
    assert(ser_members(members, true) == ser_string(key) + seq![':'] + ser_json(v0) + ser_members(
        tail,
        false,
    ));
    if tail.len() == 0 {
        assert(ser_members(tail, false) =~= Seq::<char>::empty());
        let rest1 = seq!['}'] + rest;
        assert(s.skip(i) =~= ser_string(key) + seq![':'] + ser_json(v0) + rest1);
        lemma_member_head_rt(key, v0, s, i, rest1, fuel);
        let q = i + ser_string(key).len() + 1 + ser_json(v0).len();
        assert(s[q] == '}');
        lemma_ws_stop(s, q);
        assert(seq![(key, v0)] =~= members);
    } else {
        lemma_members_rt_cons(members, s, i, rest, fuel);
    }
}

/// A later member group is a comma followed by the same group written
/// as if first.
proof fn lemma_members_comma(tail: Seq<(Seq<char>, JsonV)>)
    requires
        tail.len() >= 1,
    ensures
        ser_members(tail, false) == seq![','] + ser_members(tail, true),
{
    assert(ser_members(tail, false) =~= seq![','] + ser_members(tail, true));
}

/// The head of an object with more members after its first: the key,
/// the colon and the first value read as written, and the comma and
/// remaining members stand right after.
#[verifier::rlimit(100)]
#[verifier::spinoff_prover]
proof fn lemma_members_cons_head(
    members: Seq<(Seq<char>, JsonV)>,
    s: Seq<char>,
    i: int,
    rest: Seq<char>,
    fuel: nat,
)
    requires
        members.len() >= 2,
        wf_members(members),
        0 <= i <= s.len(),
        s.skip(i) =~= ser_members(members, true) + seq!['}'] + rest,
        rest.len() == 0 || is_sep(rest[0]),
        fuel >= 4 * (s.len() - i) + 5,
    ensures
        ({
            let key = members[0].0;
            let v0 = members[0].1;
            let q = i + ser_string(key).len() + 1 + ser_json(v0).len();
            &&& sp_ws(s, i) == i
            &&& i < s.len() && s[i] == '"'
            &&& sp_string(s, i + 1) == Some((key, i + ser_string(key).len()))
            &&& sp_ws(s, i + ser_string(key).len()) == i + ser_string(key).len()
            &&& i + ser_string(key).len() < s.len() && s[i + ser_string(key).len()] == ':'
            &&& sp_value(s, i + ser_string(key).len() + 1, (fuel - 1) as nat) == Some((v0, q))
            &&& sp_ws(s, q) == q
            &&& 0 <= q < s.len() && s[q] == ','
            &&& s.skip(q + 1) =~= ser_members(members.skip(1), true) + seq!['}'] + rest
            &&& ser_members(members, true).len() == ser_string(key).len() + 1 + ser_json(
                v0,
            ).len() + 1 + ser_members(members.skip(1), true).len()
        }),
    decreases members, 0nat,
{
    lemma_skip_pointwise(s, i);
    let key = members[0].0;
    let v0 = members[0].1;
    assert(wf_json(v0));
    let tail = members.skip(1);
    assert(ser_members(members, true) == ser_string(key) + seq![':'] + ser_json(v0) + ser_members(
        tail,
        false,
    ));
    lemma_members_comma(tail);
    let rest1 = ser_members(tail, false) + seq!['}'] + rest;
    assert(s.skip(i) =~= ser_string(key) + seq![':'] + ser_json(v0) + rest1);
    assert(rest1[0] == ',');
    lemma_member_head_rt(key, v0, s, i, rest1, fuel);
    let q = i + ser_string(key).len() + 1 + ser_json(v0).len();
    assert(s[q] == ',');
    lemma_ws_stop(s, q);
    assert(s.skip(q + 1) =~= ser_members(tail, true) + seq!['}'] + rest);
}

/// The step for an object with more members after its first.
#[verifier::rlimit(100)]
#[verifier::spinoff_prover]
proof fn lemma_members_rt_cons(
    members: Seq<(Seq<char>, JsonV)>,
    s: Seq<char>,
    i: int,
    rest: Seq<char>,
    fuel: nat,
)
    requires
        members.len() >= 2,
        wf_members(members),
        0 <= i <= s.len(),
        s.skip(i) =~= ser_members(members, true) + seq!['}'] + rest,
        rest.len() == 0 || is_sep(rest[0]),
        fuel >= 4 * (s.len() - i) + 5,
    ensures
        sp_members(s, i, fuel) == Some(
            (members, i + ser_members(members, true).len() + 1),
        ),
    decreases members, 1nat,
{
    lemma_skip_pointwise(s, i);
    let key = members[0].0;
    let v0 = members[0].1;
    let tail = members.skip(1);
    lemma_members_cons_head(members, s, i, rest, fuel);
    let q = i + ser_string(key).len() + 1 + ser_json(v0).len();
    lemma_members_rt(tail, s, q + 1, rest, (fuel - 1) as nat);
    assert(seq![(key, v0)] + tail =~= members);
}

/// The round trip: the serialized text of any well-formed value reads
/// back as exactly that value.
pub proof fn lemma_parse_ser(j: JsonV)
    requires
        wf_json(j),
    ensures
        parse_text(ser_json(j)) == Some(j),
{
    let s = ser_json(j);
    assert(s.skip(0) =~= ser_json(j) + Seq::<char>::empty());
    lemma_value_rt(j, s, 0, Seq::empty(), (4 * s.len() + 2) as nat);
    assert(sp_ws(s, s.len() as int) == s.len());
}

// ===== the same reading for the pretty layout =====

/// Skipping whitespace stays put once it has stopped.
proof fn lemma_sp_ws_idem(s: Seq<char>, i: int)
    requires
        0 <= i,
    ensures
        sp_ws(s, sp_ws(s, i)) == sp_ws(s, i),
    decreases s.len() - i,
{
    if i < s.len() && is_ws(s[i]) {
        lemma_sp_ws_idem(s, i + 1);
    }
}

/// Skipping whitespace never moves backwards or out of the text.
proof fn lemma_sp_ws_bounds(s: Seq<char>, i: int)
    requires
        0 <= i <= s.len(),
    ensures
        i <= sp_ws(s, i) <= s.len(),
    decreases s.len() - i,
{
    if i < s.len() && is_ws(s[i]) {
        lemma_sp_ws_bounds(s, i + 1);
    }
}

/// A value reads the same from anywhere in the whitespace before it.
proof fn lemma_sp_value_shift(s: Seq<char>, i: int, fuel: nat)
    requires
        0 <= i <= s.len(),
        fuel > 0,
    ensures
        sp_value(s, i, fuel) == sp_value(s, sp_ws(s, i), fuel),
{
    lemma_sp_ws_bounds(s, i);
    lemma_sp_ws_idem(s, i);
}

/// Over a run of whitespace ending at a non-whitespace position,
/// skipping stops exactly there.
proof fn lemma_ws_run(s: Seq<char>, i: int, j: int)
    requires
        0 <= i <= j <= s.len(),
        forall|k: int| i <= k < j ==> is_ws(s[k]),
        j == s.len() || !is_ws(s[j]),
    ensures
        sp_ws(s, i) == j,
    decreases j - i,
{
    if i < j {
        lemma_ws_run(s, i + 1, j);
    }
}

/// A line break with its indentation is whitespace of a known length.
proof fn lemma_nl_pad_ws(d: nat)
    ensures
        nl_pad(d).len() == 1 + 2 * d,
        forall|k: int| 0 <= k < nl_pad(d).len() ==> is_ws(#[trigger] nl_pad(d)[k]),
    decreases d,
{
    reveal(crate::codec::padding);
    reveal(crate::codec::nl_pad);
    if d == 0 {
        assert(padding(0) =~= Seq::<char>::empty());
    } else {
        lemma_nl_pad_ws((d - 1) as nat);
        assert(nl_pad(d) =~= nl_pad((d - 1) as nat) + seq![' ', ' ']);
    }
}

/// Pretty text is non-empty and opens with a value-start character.
proof fn lemma_ser_first_p(j: JsonV, ind: nat)
    requires
        wf_json(j),
    ensures
        ser_json_pretty(j, ind).len() >= 1,
        is_value_start(ser_json_pretty(j, ind)[0]),
{
    match j {
        JsonV::Arr(e) => {
            assert(ser_json_pretty(j, ind)[0] == '[');
        },
        JsonV::Obj(m) => {
            assert(ser_json_pretty(j, ind)[0] == '{');
        },
        _ => {
            lemma_ser_first(j);
            assert(ser_json_pretty(j, ind) == ser_json(j));
        },
    }
}

/// A later pretty element group is a comma followed by the group
/// written as if first.
proof fn lemma_items_comma_p(tail: Seq<JsonV>, ind: nat)
    requires
        tail.len() >= 1,
    ensures
        ser_items_pretty(tail, false, ind) == seq![','] + ser_items_pretty(tail, true, ind),
{
    assert(ser_items_pretty(tail, false, ind) =~= seq![','] + ser_items_pretty(tail, true, ind));
}

/// A later pretty member group is a comma followed by the group
/// written as if first.
proof fn lemma_members_comma_p(tail: Seq<(Seq<char>, JsonV)>, ind: nat)
    requires
        tail.len() >= 1,
    ensures
        ser_members_pretty(tail, false, ind) == seq![','] + ser_members_pretty(tail, true, ind),
{
    assert(ser_members_pretty(tail, false, ind) =~= seq![','] + ser_members_pretty(
        tail,
        true,
        ind,
    ));
}

/// Reading the pretty text of a well-formed value yields that value
/// and stops right after it.
#[verifier::rlimit(100)]
#[verifier::spinoff_prover]
pub proof fn lemma_value_rt_p(j: JsonV, s: Seq<char>, i: int, ind: nat, rest: Seq<char>, fuel: nat)
    requires
        wf_json(j),
        0 <= i <= s.len(),
        s.skip(i) =~= ser_json_pretty(j, ind) + rest,
        rest.len() == 0 || is_sep(rest[0]),
        fuel >= 4 * (s.len() - i) + 2,
    ensures
        sp_value(s, i, fuel) == Some((j, i + ser_json_pretty(j, ind).len())),
    decreases j, 5nat,
{
    lemma_skip_pointwise(s, i);
    lemma_ser_first_p(j, ind);
    assert(s[i] == ser_json_pretty(j, ind)[0]);
    assert(!is_ws(s[i]));
    lemma_ws_stop(s, i);
    match j {
        JsonV::Arr(elems) => {
            if elems.len() == 0 {
                assert(ser_json_pretty(j, ind) =~= seq!['[', ']']);
                assert(s[i + 1] == ']');
                lemma_ws_stop(s, i + 1);
                assert(elems =~= Seq::<JsonV>::empty());
                assert(sp_value(s, i, fuel) == Some((j, i + 2)));
            } else {
                lemma_value_arr_rt_p(elems, s, i, ind, rest, fuel);
            }
        },
        JsonV::Obj(members) => {
            if members.len() == 0 {
                assert(ser_json_pretty(j, ind) =~= seq!['{', '}']);
                assert(s[i + 1] == '}');
                lemma_ws_stop(s, i + 1);
                assert(members =~= Seq::<(Seq<char>, JsonV)>::empty());
                assert(sp_value(s, i, fuel) == Some((j, i + 2)));
            } else {
                lemma_value_obj_rt_p(members, s, i, ind, rest, fuel);
            }
        },
        _ => {
            assert(ser_json_pretty(j, ind) == ser_json(j));
            assert(s.skip(i) =~= ser_json(j) + rest);
            lemma_value_atom_rt(j, s, i, rest, fuel);
        },
    }
}

/// Reading a pretty non-empty array value.
#[verifier::rlimit(100)]
#[verifier::spinoff_prover]
proof fn lemma_value_arr_rt_p(
    elems: Seq<JsonV>,
    s: Seq<char>,
    i: int,
    ind: nat,
    rest: Seq<char>,
    fuel: nat,
)
    requires
        elems.len() >= 1,
        wf_items(elems),
        0 <= i <= s.len(),
        s.skip(i) =~= ser_json_pretty(JsonV::Arr(elems), ind) + rest,
        rest.len() == 0 || is_sep(rest[0]),
        fuel >= 4 * (s.len() - i) + 2,
    ensures
        sp_value(s, i, fuel) == Some(
            (JsonV::Arr(elems), i + ser_json_pretty(JsonV::Arr(elems), ind).len()),
        ),
    decreases elems, 8nat,
{
    lemma_skip_pointwise(s, i);
    let j = JsonV::Arr(elems);
    assert(ser_json_pretty(j, ind) == seq!['['] + ser_items_pretty(elems, true, ind + 1) + nl_pad(
        ind,
    ) + seq![']']);
    assert(s[i] == '[');
    lemma_ws_stop(s, i);
    assert(wf_json(elems[0]));
    lemma_ser_first_p(elems[0], ind + 1);
    lemma_nl_pad_ws(ind + 1);
    assert(ser_items_pretty(elems, true, ind + 1) == nl_pad(ind + 1) + ser_json_pretty(
        elems[0],
        ind + 1,
    ) + ser_items_pretty(elems.skip(1), false, ind + 1));
    let w = nl_pad(ind + 1).len();
    assert(forall|k: int| i + 1 <= k < i + 1 + w ==> is_ws(#[trigger] s[k])) by {
        assert(forall|k: int|
            i + 1 <= k < i + 1 + w ==> s[k] == nl_pad(ind + 1)[k - (i + 1)] && is_ws(
                #[trigger] s[k],
            ));
    }
    assert(s[i + 1 + w] == ser_json_pretty(elems[0], ind + 1)[0]);
    assert(!is_ws(s[i + 1 + w]));
    lemma_ws_run(s, i + 1, i + 1 + w);
    assert(s[i + 1 + w] != ']');
    assert(s.skip(i + 1) =~= ser_items_pretty(elems, true, ind + 1) + nl_pad(ind) + seq![']']
        + rest);
    lemma_items_rt_p(elems, s, i + 1, ind + 1, ind, rest, (fuel - 1) as nat);
    assert(ser_json_pretty(j, ind).len() == 1 + ser_items_pretty(elems, true, ind + 1).len()
        + nl_pad(ind).len() + 1);
    assert(sp_value(s, i, fuel) == Some((j, i + ser_json_pretty(j, ind).len())));
}

/// Reading a pretty non-empty object value.
#[verifier::rlimit(100)]
#[verifier::spinoff_prover]
proof fn lemma_value_obj_rt_p(
    members: Seq<(Seq<char>, JsonV)>,
    s: Seq<char>,
    i: int,
    ind: nat,
    rest: Seq<char>,
    fuel: nat,
)
    requires
        members.len() >= 1,
        wf_members(members),
        0 <= i <= s.len(),
        s.skip(i) =~= ser_json_pretty(JsonV::Obj(members), ind) + rest,
        rest.len() == 0 || is_sep(rest[0]),
        fuel >= 4 * (s.len() - i) + 2,
    ensures
        sp_value(s, i, fuel) == Some(
            (JsonV::Obj(members), i + ser_json_pretty(JsonV::Obj(members), ind).len()),
        ),
    decreases members, 8nat,
{
    lemma_skip_pointwise(s, i);
    let j = JsonV::Obj(members);
    assert(ser_json_pretty(j, ind) == seq!['{'] + ser_members_pretty(members, true, ind + 1)
        + nl_pad(ind) + seq!['}']);
    assert(s[i] == '{');
    lemma_ws_stop(s, i);
    lemma_nl_pad_ws(ind + 1);
    assert(ser_members_pretty(members, true, ind + 1) == nl_pad(ind + 1) + ser_string(
        members[0].0,
    ) + seq![':', ' '] + ser_json_pretty(members[0].1, ind + 1) + ser_members_pretty(
        members.skip(1),
        false,
        ind + 1,
    ));
    let w = nl_pad(ind + 1).len();
    assert(forall|k: int| i + 1 <= k < i + 1 + w ==> is_ws(#[trigger] s[k])) by {
        assert(forall|k: int|
            i + 1 <= k < i + 1 + w ==> s[k] == nl_pad(ind + 1)[k - (i + 1)] && is_ws(
                #[trigger] s[k],
            ));
    }
    assert(s[i + 1 + w] == '"');
    lemma_ws_run(s, i + 1, i + 1 + w);
    assert(s.skip(i + 1) =~= ser_members_pretty(members, true, ind + 1) + nl_pad(ind) + seq!['}']
        + rest);
    lemma_members_rt_p(members, s, i + 1, ind + 1, ind, rest, (fuel - 1) as nat);
    assert(ser_json_pretty(j, ind).len() == 1 + ser_members_pretty(members, true, ind + 1).len()
        + nl_pad(ind).len() + 1);
    assert(sp_value(s, i, fuel) == Some((j, i + ser_json_pretty(j, ind).len())));
}

/// Reading one pretty element head: the line break, the indentation
/// and the value, from `i`, end where the value ends.
#[verifier::rlimit(100)]
#[verifier::spinoff_prover]
proof fn lemma_item_head_rt_p(
    e0: JsonV,
    s: Seq<char>,
    i: int,
    ind: nat,
    rest1: Seq<char>,
    fuel: nat,
)
    requires
        wf_json(e0),
        0 <= i <= s.len(),
        s.skip(i) =~= nl_pad(ind) + ser_json_pretty(e0, ind) + rest1,
        rest1.len() >= 1 && is_sep(rest1[0]),
        fuel >= 4 * (s.len() - i) + 1,
    ensures
        sp_value(s, i, (fuel - 1) as nat) == Some(
            (e0, i + nl_pad(ind).len() + ser_json_pretty(e0, ind).len()),
        ),
        0 <= i + nl_pad(ind).len() + ser_json_pretty(e0, ind).len() <= s.len(),
    decreases e0, 6nat,
{
    lemma_skip_pointwise(s, i);
    lemma_ser_first_p(e0, ind);
    lemma_nl_pad_ws(ind);
    let w = nl_pad(ind).len();
    assert(forall|k: int| i <= k < i + w ==> is_ws(#[trigger] s[k])) by {
        assert(forall|k: int|
            i <= k < i + w ==> s[k] == nl_pad(ind)[k - i] && is_ws(#[trigger] s[k]));
    }
    let i1 = i + w;
    assert(s[i1] == ser_json_pretty(e0, ind)[0]);
    assert(!is_ws(s[i1]));
    lemma_ws_run(s, i, i1);
    lemma_sp_value_shift(s, i, (fuel - 1) as nat);
    assert(s.skip(i1) =~= ser_json_pretty(e0, ind) + rest1);
    lemma_value_rt_p(e0, s, i1, ind, rest1, (fuel - 1) as nat);
}

/// Reading pretty array elements, from right after the opening
/// bracket, yields them and stops right after the closing bracket.
#[verifier::rlimit(100)]
#[verifier::spinoff_prover]
proof fn lemma_items_rt_p(
    elems: Seq<JsonV>,
    s: Seq<char>,
    i: int,
    ind: nat,
    cind: nat,
    rest: Seq<char>,
    fuel: nat,
)
    requires
        elems.len() >= 1,
        wf_items(elems),
        0 <= i <= s.len(),
        s.skip(i) =~= ser_items_pretty(elems, true, ind) + nl_pad(cind) + seq![']'] + rest,
        rest.len() == 0 || is_sep(rest[0]),
        fuel >= 4 * (s.len() - i) + 5,
    ensures
        sp_items(s, i, fuel) == Some(
            (elems, i + ser_items_pretty(elems, true, ind).len() + nl_pad(cind).len() + 1),
        ),
    decreases elems, 7nat,
{
    lemma_skip_pointwise(s, i);
    let e0 = elems[0];
    assert(wf_json(e0));
    lemma_nl_pad_ws(cind);
    let tail = elems.skip(1);
    assert(ser_items_pretty(elems, true, ind) == nl_pad(ind) + ser_json_pretty(e0, ind)
        + ser_items_pretty(tail, false, ind));
    if tail.len() == 0 {
        assert(ser_items_pretty(tail, false, ind) =~= Seq::<char>::empty());
        let rest1 = nl_pad(cind) + seq![']'] + rest;
        assert(s.skip(i) =~= nl_pad(ind) + ser_json_pretty(e0, ind) + rest1);
        assert(rest1[0] == nl_pad(cind)[0]);
        assert(is_ws(rest1[0]));
        lemma_item_head_rt_p(e0, s, i, ind, rest1, fuel);
        let p = i + nl_pad(ind).len() + ser_json_pretty(e0, ind).len();
        let wc = nl_pad(cind).len();
        assert(forall|k: int| p <= k < p + wc ==> is_ws(#[trigger] s[k])) by {
            assert(forall|k: int|
                p <= k < p + wc ==> s[k] == nl_pad(cind)[k - p] && is_ws(#[trigger] s[k]));
        }
        assert(s[p + wc] == ']');
        lemma_ws_run(s, p, p + wc);
        assert(seq![e0] =~= elems);
        assert(sp_items(s, i, fuel) == Some(
            (elems, i + ser_items_pretty(elems, true, ind).len() + nl_pad(cind).len() + 1),
        ));
    } else {
        lemma_items_rt_p_cons(elems, s, i, ind, cind, rest, fuel);
    }
}

/// The step for a pretty array with more elements after its first.
#[verifier::rlimit(100)]
#[verifier::spinoff_prover]
proof fn lemma_items_rt_p_cons(
    elems: Seq<JsonV>,
    s: Seq<char>,
    i: int,
    ind: nat,
    cind: nat,
    rest: Seq<char>,
    fuel: nat,
)
    requires
        elems.len() >= 2,
        wf_items(elems),
        0 <= i <= s.len(),
        s.skip(i) =~= ser_items_pretty(elems, true, ind) + nl_pad(cind) + seq![']'] + rest,
        rest.len() == 0 || is_sep(rest[0]),
        fuel >= 4 * (s.len() - i) + 5,
    ensures
        sp_items(s, i, fuel) == Some(
            (elems, i + ser_items_pretty(elems, true, ind).len() + nl_pad(cind).len() + 1),
        ),
    decreases elems, 6nat,
{
    lemma_skip_pointwise(s, i);
    let e0 = elems[0];
    assert(wf_json(e0));
    let tail = elems.skip(1);
    assert(ser_items_pretty(elems, true, ind) == nl_pad(ind) + ser_json_pretty(e0, ind)
        + ser_items_pretty(tail, false, ind));
    lemma_items_comma_p(tail, ind);
    let rest1 = ser_items_pretty(tail, false, ind) + nl_pad(cind) + seq![']'] + rest;
    assert(s.skip(i) =~= nl_pad(ind) + ser_json_pretty(e0, ind) + rest1);
    assert(rest1[0] == ',');
    lemma_item_head_rt_p(e0, s, i, ind, rest1, fuel);
    let p = i + nl_pad(ind).len() + ser_json_pretty(e0, ind).len();
    assert(s[p] == ',');
    lemma_ws_stop(s, p);
    assert(s.skip(p + 1) =~= ser_items_pretty(tail, true, ind) + nl_pad(cind) + seq![']'] + rest);
    lemma_items_rt_p(tail, s, p + 1, ind, cind, rest, (fuel - 1) as nat);
    assert(seq![e0] + tail =~= elems);
    assert(sp_items(s, i, fuel) == Some(
        (elems, i + ser_items_pretty(elems, true, ind).len() + nl_pad(cind).len() + 1),
    ));
}

/// Reading one pretty `"key": value` head, from the line break that
/// precedes it.
#[verifier::rlimit(100)]
#[verifier::spinoff_prover]
proof fn lemma_member_head_rt_p(
    key: Seq<char>,
    v0: JsonV,
    s: Seq<char>,
    i: int,
    ind: nat,
    rest1: Seq<char>,
    fuel: nat,
)
    requires
        wf_json(v0),
        0 <= i <= s.len(),
        s.skip(i) =~= nl_pad(ind) + ser_string(key) + seq![':', ' '] + ser_json_pretty(v0, ind)
            + rest1,
        rest1.len() >= 1 && is_sep(rest1[0]),
        fuel >= 4 * (s.len() - i) + 1,
    ensures
        ({
            let kq = i + nl_pad(ind).len();
            let q = kq + ser_string(key).len() + 2 + ser_json_pretty(v0, ind).len();
            &&& sp_ws(s, i) == kq
            &&& kq < s.len() && s[kq] == '"'
            &&& sp_string(s, kq + 1) == Some((key, kq + ser_string(key).len()))
            &&& sp_ws(s, kq + ser_string(key).len()) == kq + ser_string(key).len()
            &&& kq + ser_string(key).len() < s.len() && s[kq + ser_string(key).len()] == ':'
            &&& sp_value(s, kq + ser_string(key).len() + 1, (fuel - 1) as nat) == Some((v0, q))
            &&& 0 <= q <= s.len()
        }),
    decreases v0, 6nat,
{
    lemma_skip_pointwise(s, i);
    lemma_nl_pad_ws(ind);
    let w = nl_pad(ind).len();
    assert(forall|k: int| i <= k < i + w ==> is_ws(#[trigger] s[k])) by {
        assert(forall|k: int|
            i <= k < i + w ==> s[k] == nl_pad(ind)[k - i] && is_ws(#[trigger] s[k]));
    }
    let kq = i + w;
    assert(s[kq] == '"');
    lemma_ws_run(s, i, kq);
    assert(s.skip(kq + 1) =~= esc_str(key) + seq!['"'] + (seq![':', ' '] + ser_json_pretty(
        v0,
        ind,
    ) + rest1));
    lemma_string_rt(key, s, kq + 1, seq![':', ' '] + ser_json_pretty(v0, ind) + rest1);
    let kend = kq + ser_string(key).len();
    assert(s[kend] == ':');
    lemma_ws_stop(s, kend);
    lemma_ser_first_p(v0, ind);
    assert(s[kend + 1] == ' ');
    assert(s[kend + 2] == ser_json_pretty(v0, ind)[0]);
    assert(!is_ws(s[kend + 2]));
    lemma_ws_run(s, kend + 1, kend + 2);
    lemma_sp_value_shift(s, kend + 1, (fuel - 1) as nat);
    assert(s.skip(kend + 2) =~= ser_json_pretty(v0, ind) + rest1);
    lemma_value_rt_p(v0, s, kend + 2, ind, rest1, (fuel - 1) as nat);
}

/// Reading pretty object members, from right after the opening brace,
/// yields them and stops right after the closing brace.
#[verifier::rlimit(100)]
#[verifier::spinoff_prover]
proof fn lemma_members_rt_p(
    members: Seq<(Seq<char>, JsonV)>,
    s: Seq<char>,
    i: int,
    ind: nat,
    cind: nat,
    rest: Seq<char>,
    fuel: nat,
)
    requires
        members.len() >= 1,
        wf_members(members),
        0 <= i <= s.len(),
        s.skip(i) =~= ser_members_pretty(members, true, ind) + nl_pad(cind) + seq!['}'] + rest,
        rest.len() == 0 || is_sep(rest[0]),
        fuel >= 4 * (s.len() - i) + 5,
    ensures
        sp_members(s, i, fuel) == Some(
            (members, i + ser_members_pretty(members, true, ind).len() + nl_pad(cind).len() + 1),
        ),
    decreases members, 7nat,
{
    lemma_skip_pointwise(s, i);
    let key = members[0].0;
    let v0 = members[0].1;
    assert(wf_json(v0));
    lemma_nl_pad_ws(cind);
    let tail = members.skip(1);
    assert(ser_members_pretty(members, true, ind) == nl_pad(ind) + ser_string(key) + seq![
        ':',
        ' ',
    ] + ser_json_pretty(v0, ind) + ser_members_pretty(tail, false, ind));
    if tail.len() == 0 {
        assert(ser_members_pretty(tail, false, ind) =~= Seq::<char>::empty());
        let rest1 = nl_pad(cind) + seq!['}'] + rest;
        assert(s.skip(i) =~= nl_pad(ind) + ser_string(key) + seq![':', ' '] + ser_json_pretty(
            v0,
            ind,
        ) + rest1);
        assert(rest1[0] == nl_pad(cind)[0]);
        assert(is_ws(rest1[0]));
        lemma_member_head_rt_p(key, v0, s, i, ind, rest1, fuel);
        let kq = i + nl_pad(ind).len();
        let q = kq + ser_string(key).len() + 2 + ser_json_pretty(v0, ind).len();
        let wc = nl_pad(cind).len();
        assert(forall|k: int| q <= k < q + wc ==> is_ws(#[trigger] s[k])) by {
            assert(forall|k: int|
                q <= k < q + wc ==> s[k] == nl_pad(cind)[k - q] && is_ws(#[trigger] s[k]));
        }
        assert(s[q + wc] == '}');
        lemma_ws_run(s, q, q + wc);
        assert(seq![(key, v0)] =~= members);
        assert(sp_members(s, i, fuel) == Some(
            (members, i + ser_members_pretty(members, true, ind).len() + nl_pad(cind).len() + 1),
        ));
    } else {
        lemma_members_rt_p_cons(members, s, i, ind, cind, rest, fuel);
    }
}

/// The head of a pretty object with more members after its first.
#[verifier::rlimit(100)]
#[verifier::spinoff_prover]
proof fn lemma_members_p_cons_head(
    members: Seq<(Seq<char>, JsonV)>,
    s: Seq<char>,
    i: int,
    ind: nat,
    cind: nat,
    rest: Seq<char>,
    fuel: nat,
)
    requires
        members.len() >= 2,
        wf_members(members),
        0 <= i <= s.len(),
        s.skip(i) =~= ser_members_pretty(members, true, ind) + nl_pad(cind) + seq!['}'] + rest,
        rest.len() == 0 || is_sep(rest[0]),
        fuel >= 4 * (s.len() - i) + 5,
    ensures
        ({
            let key = members[0].0;
            let v0 = members[0].1;
            let kq = i + nl_pad(ind).len();
            let q = kq + ser_string(key).len() + 2 + ser_json_pretty(v0, ind).len();
            &&& sp_ws(s, i) == kq
            &&& kq < s.len() && s[kq] == '"'
            &&& sp_string(s, kq + 1) == Some((key, kq + ser_string(key).len()))
            &&& sp_ws(s, kq + ser_string(key).len()) == kq + ser_string(key).len()
            &&& kq + ser_string(key).len() < s.len() && s[kq + ser_string(key).len()] == ':'
            &&& sp_value(s, kq + ser_string(key).len() + 1, (fuel - 1) as nat) == Some((v0, q))
            &&& sp_ws(s, q) == q
            &&& 0 <= q < s.len() && s[q] == ','
            &&& s.skip(q + 1) =~= ser_members_pretty(members.skip(1), true, ind) + nl_pad(cind)
                + seq!['}'] + rest
            &&& ser_members_pretty(members, true, ind).len() == nl_pad(ind).len() + ser_string(
                key,
            ).len() + 2 + ser_json_pretty(v0, ind).len() + 1 + ser_members_pretty(
                members.skip(1),
                true,
                ind,
            ).len()
        }),
    decreases members, 5nat,
{
    lemma_skip_pointwise(s, i);
    let key = members[0].0;
    let v0 = members[0].1;
    assert(wf_json(v0));
    let tail = members.skip(1);
    assert(ser_members_pretty(members, true, ind) == nl_pad(ind) + ser_string(key) + seq![
        ':',
        ' ',
    ] + ser_json_pretty(v0, ind) + ser_members_pretty(tail, false, ind));
    lemma_members_comma_p(tail, ind);
    let rest1 = ser_members_pretty(tail, false, ind) + nl_pad(cind) + seq!['}'] + rest;
    assert(s.skip(i) =~= nl_pad(ind) + ser_string(key) + seq![':', ' '] + ser_json_pretty(v0, ind)
        + rest1);
    assert(rest1[0] == ',');
    lemma_member_head_rt_p(key, v0, s, i, ind, rest1, fuel);
    let kq = i + nl_pad(ind).len();
    let q = kq + ser_string(key).len() + 2 + ser_json_pretty(v0, ind).len();
    assert(s[q] == ',');
    lemma_ws_stop(s, q);
    assert(s.skip(q + 1) =~= ser_members_pretty(tail, true, ind) + nl_pad(cind) + seq!['}']
        + rest);
}

/// The step for a pretty object with more members after its first.
#[verifier::rlimit(100)]
#[verifier::spinoff_prover]
proof fn lemma_members_rt_p_cons(
    members: Seq<(Seq<char>, JsonV)>,
    s: Seq<char>,
    i: int,
    ind: nat,
    cind: nat,
    rest: Seq<char>,
    fuel: nat,
)
    requires
        members.len() >= 2,
        wf_members(members),
        0 <= i <= s.len(),
        s.skip(i) =~= ser_members_pretty(members, true, ind) + nl_pad(cind) + seq!['}'] + rest,
        rest.len() == 0 || is_sep(rest[0]),
        fuel >= 4 * (s.len() - i) + 5,
    ensures
        sp_members(s, i, fuel) == Some(
            (members, i + ser_members_pretty(members, true, ind).len() + nl_pad(cind).len() + 1),
        ),
    decreases members, 6nat,
{
    lemma_skip_pointwise(s, i);
    let key = members[0].0;
    let v0 = members[0].1;
    let tail = members.skip(1);
    lemma_members_p_cons_head(members, s, i, ind, cind, rest, fuel);
    let kq = i + nl_pad(ind).len();
    let q = kq + ser_string(key).len() + 2 + ser_json_pretty(v0, ind).len();
    lemma_members_rt_p(tail, s, q + 1, ind, cind, rest, (fuel - 1) as nat);
    assert(seq![(key, v0)] + tail =~= members);
    assert(sp_members(s, i, fuel) == Some(
        (members, i + ser_members_pretty(members, true, ind).len() + nl_pad(cind).len() + 1),
    ));
}

/// The pretty round trip: the pretty text of any well-formed value
/// reads back as exactly that value.
pub proof fn lemma_parse_ser_pretty(j: JsonV)
    requires
        wf_json(j),
    ensures
        parse_text(ser_json_pretty(j, 0)) == Some(j),
{
    let s = ser_json_pretty(j, 0);
    assert(s.skip(0) =~= ser_json_pretty(j, 0) + Seq::<char>::empty());
    lemma_value_rt_p(j, s, 0, 0, Seq::empty(), (4 * s.len() + 2) as nat);
    assert(sp_ws(s, s.len() as int) == s.len());
}

} // verus!
