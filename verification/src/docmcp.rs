use vstd::prelude::*;

use crate::config::{McpServerConfig, McpServerConfigV, McpServersConfig, McpServersConfigV};
use crate::docjson::{
    field_bool, field_opt_str, field_str, field_i64, jv_bool, jv_i64, jv_lookup, jv_opt_str,
    jv_str, opt_str_json, opt_str_to_json,
};
use crate::json::{json_member_views, json_view, json_views, Json, JsonV};
use crate::json::{lemma_json_member_views_len, lemma_json_views_len, members_lookup};
use crate::numtext::{dec_int, i64_to_string};
use crate::codec::{json_to_string, ser_json};
use crate::parse::{parse_json, parse_text};

verus! {

// ===== JSON shapes for list and map fields =====

/// A list of strings as a JSON array.
pub open spec fn str_list_json(l: Seq<Seq<char>>) -> Seq<JsonV>
    decreases l.len(),
{
    if l.len() == 0 {
        Seq::empty()
    } else {
        seq![JsonV::Str(l[0])] + str_list_json(l.skip(1))
    }
}

pub open spec fn opt_str_list_json(o: Option<Seq<Seq<char>>>) -> JsonV {
    match o {
        Some(l) => JsonV::Arr(str_list_json(l)),
        None => JsonV::Null,
    }
}

/// A string-to-string mapping as a JSON object, entries in order.
pub open spec fn str_map_json(m: Seq<(Seq<char>, Seq<char>)>) -> Seq<(Seq<char>, JsonV)>
    decreases m.len(),
{
    if m.len() == 0 {
        Seq::empty()
    } else {
        seq![(m[0].0, JsonV::Str(m[0].1))] + str_map_json(m.skip(1))
    }
}

pub open spec fn opt_str_map_json(o: Option<Seq<(Seq<char>, Seq<char>)>>) -> JsonV {
    match o {
        Some(m) => JsonV::Obj(str_map_json(m)),
        None => JsonV::Null,
    }
}

/// Reads a JSON array of strings.
pub open spec fn str_list_of_json(l: Seq<JsonV>) -> Option<Seq<Seq<char>>>
    decreases l.len(),
{
    if l.len() == 0 {
        Some(Seq::empty())
    } else {
        match l[0] {
            JsonV::Str(s) => match str_list_of_json(l.skip(1)) {
                Some(rest) => Some(seq![s] + rest),
                None => None,
            },
            _ => None,
        }
    }
}

/// An optional list-of-strings member: absent or null reads as
/// nothing; a non-array, or an element that is no string, is a type
/// error.
pub open spec fn jv_opt_str_list(o: Option<JsonV>) -> Option<Option<Seq<Seq<char>>>> {
    match o {
        None => Some(None),
        Some(JsonV::Null) => Some(None),
        Some(JsonV::Arr(l)) => match str_list_of_json(l) {
            Some(v) => Some(Some(v)),
            None => None,
        },
        Some(_) => None,
    }
}

/// Reads a JSON object whose members are all strings.
pub open spec fn str_map_of_json(m: Seq<(Seq<char>, JsonV)>) -> Option<
    Seq<(Seq<char>, Seq<char>)>,
>
    decreases m.len(),
{
    if m.len() == 0 {
        Some(Seq::empty())
    } else {
        match m[0].1 {
            JsonV::Str(s) => match str_map_of_json(m.skip(1)) {
                Some(rest) => Some(seq![(m[0].0, s)] + rest),
                None => None,
            },
            _ => None,
        }
    }
}

/// An optional string-map member.
pub open spec fn jv_opt_str_map(o: Option<JsonV>) -> Option<
    Option<Seq<(Seq<char>, Seq<char>)>>,
> {
    match o {
        None => Some(None),
        Some(JsonV::Null) => Some(None),
        Some(JsonV::Obj(m)) => match str_map_of_json(m) {
            Some(v) => Some(Some(v)),
            None => None,
        },
        Some(_) => None,
    }
}

/// Builds the array node for an optional list of strings.
pub fn opt_str_list_to_json(o: &Option<Vec<String>>) -> (r: Json)
    ensures
        json_view(r) == opt_str_list_json(o.deep_view()),
{
    match o {
        None => Json::Null,
        Some(l) => {
            let mut out: Vec<Json> = Vec::new();
            let n = l.len();
            let mut i: usize = 0;
            while i < n
                invariant
                    n == l@.len(),
                    0 <= i <= n,
                    json_views(out@) =~= str_list_json(l.deep_view().take(i as int)),
                    out@.len() == i,
                decreases n - i,
            {
                proof {
                    lemma_json_views_len(out@);
                }
                out.push(Json::Str(l[i].clone()));
                proof {
                    lemma_json_views_len(out@);
                    lemma_str_list_take_step(l.deep_view(), i as int);
                    assert(json_views(out@) =~= str_list_json(l.deep_view().take(i as int + 1)));
                }
                i += 1;
            }
            proof {
                assert(l.deep_view().take(n as int) =~= l.deep_view());
            }
            Json::Arr(out)
        },
    }
}

/// Building one more entry appends one string node.
proof fn lemma_str_list_take_step(l: Seq<Seq<char>>, i: int)
    requires
        0 <= i < l.len(),
    ensures
        str_list_json(l.take(i + 1)) == str_list_json(l.take(i)).push(JsonV::Str(l[i])),
    decreases i,
{
    if i == 0 {
        assert(str_list_json(Seq::<Seq<char>>::empty()) == Seq::<JsonV>::empty());
        assert(l.take(1)[0] == l[0]);
        assert(l.take(1).skip(1) =~= Seq::<Seq<char>>::empty());
        assert(str_list_json(l.take(1)) =~= seq![JsonV::Str(l[0])]);
        assert(l.take(0) =~= Seq::<Seq<char>>::empty());
        assert(str_list_json(l.take(0)).push(JsonV::Str(l[0])) =~= seq![JsonV::Str(l[0])]);
    } else {
        lemma_str_list_take_step(l.skip(1), i - 1);
        assert(l.take(i + 1)[0] == l[0]);
        assert(l.take(i + 1).skip(1) =~= l.skip(1).take(i));
        assert(l.take(i)[0] == l[0]);
        assert(l.take(i).skip(1) =~= l.skip(1).take(i - 1));
        assert(l.skip(1)[i - 1] == l[i]);
        assert(str_list_json(l.take(i + 1)) == seq![JsonV::Str(l[0])] + str_list_json(
            l.skip(1).take(i),
        ));
        assert(str_list_json(l.take(i)) == seq![JsonV::Str(l[0])] + str_list_json(
            l.skip(1).take(i - 1),
        ));
        assert(seq![JsonV::Str(l[0])] + str_list_json(l.skip(1).take(i - 1)).push(
            JsonV::Str(l[i]),
        ) =~= (seq![JsonV::Str(l[0])] + str_list_json(l.skip(1).take(i - 1))).push(
            JsonV::Str(l[i]),
        ));
    }
}

/// Builds the object node for an optional string mapping.
pub fn opt_str_map_to_json(o: &Option<Vec<(String, String)>>) -> (r: Json)
    ensures
        json_view(r) == opt_str_map_json(o.deep_view()),
{
    match o {
        None => Json::Null,
        Some(m) => {
            let mut out: Vec<(String, Json)> = Vec::new();
            let n = m.len();
            let mut i: usize = 0;
            while i < n
                invariant
                    n == m@.len(),
                    0 <= i <= n,
                    json_member_views(out@) =~= str_map_json(m.deep_view().take(i as int)),
                    out@.len() == i,
                decreases n - i,
            {
                proof {
                    lemma_json_member_views_len(out@);
                }
                out.push((m[i].0.clone(), Json::Str(m[i].1.clone())));
                proof {
                    lemma_json_member_views_len(out@);
                    lemma_str_map_take_step(m.deep_view(), i as int);
                    assert(json_member_views(out@) =~= str_map_json(
                        m.deep_view().take(i as int + 1),
                    ));
                }
                i += 1;
            }
            proof {
                assert(m.deep_view().take(n as int) =~= m.deep_view());
            }
            Json::Obj(out)
        },
    }
}

/// Building one more entry appends one string member.
proof fn lemma_str_map_take_step(m: Seq<(Seq<char>, Seq<char>)>, i: int)
    requires
        0 <= i < m.len(),
    ensures
        str_map_json(m.take(i + 1)) == str_map_json(m.take(i)).push((m[i].0, JsonV::Str(m[i].1))),
    decreases i,
{
    if i == 0 {
        assert(str_map_json(Seq::<(Seq<char>, Seq<char>)>::empty()) == Seq::<(
            Seq<char>,
            JsonV,
        )>::empty());
        assert(m.take(1)[0] == m[0]);
        assert(m.take(1).skip(1) =~= Seq::<(Seq<char>, Seq<char>)>::empty());
        assert(str_map_json(m.take(1)) =~= seq![(m[0].0, JsonV::Str(m[0].1))]);
        assert(m.take(0) =~= Seq::<(Seq<char>, Seq<char>)>::empty());
        assert(str_map_json(m.take(0)).push((m[0].0, JsonV::Str(m[0].1))) =~= seq![
            (m[0].0, JsonV::Str(m[0].1)),
        ]);
    } else {
        lemma_str_map_take_step(m.skip(1), i - 1);
        assert(m.take(i + 1)[0] == m[0]);
        assert(m.take(i + 1).skip(1) =~= m.skip(1).take(i));
        assert(m.take(i)[0] == m[0]);
        assert(m.take(i).skip(1) =~= m.skip(1).take(i - 1));
        assert(m.skip(1)[i - 1] == m[i]);
        assert(str_map_json(m.take(i + 1)) == seq![(m[0].0, JsonV::Str(m[0].1))] + str_map_json(
            m.skip(1).take(i),
        ));
        assert(str_map_json(m.take(i)) == seq![(m[0].0, JsonV::Str(m[0].1))] + str_map_json(
            m.skip(1).take(i - 1),
        ));
        assert(seq![(m[0].0, JsonV::Str(m[0].1))] + str_map_json(m.skip(1).take(i - 1)).push(
            (m[i].0, JsonV::Str(m[i].1)),
        ) =~= (seq![(m[0].0, JsonV::Str(m[0].1))] + str_map_json(m.skip(1).take(i - 1))).push(
            (m[i].0, JsonV::Str(m[i].1)),
        ));
    }
}

/// Fetches an optional list-of-strings member.
pub fn field_opt_str_list(j: &Json, key: &str) -> (r: Option<Option<Vec<String>>>)
    ensures
        match r {
            Some(o) => jv_opt_str_list(jv_lookup(json_view(*j), key@)) == Some(o.deep_view()),
            None => jv_opt_str_list(jv_lookup(json_view(*j), key@)) is None,
        },
{
    match j.get(key) {
        None => Some(None),
        Some(Json::Null) => Some(None),
        Some(Json::Arr(l)) => {
            proof {
                lemma_json_views_len(l@);
            }
            let mut out: Vec<String> = Vec::new();
            proof {
                assert(json_views(l@).skip(0) =~= json_views(l@));
                assert(out.deep_view() =~= Seq::<Seq<char>>::empty());
                match str_list_of_json(json_views(l@)) {
                    Some(r0) => {
                        assert(out.deep_view() + r0 =~= r0);
                    },
                    None => {},
                }
            }
            let n = l.len();
            let mut i: usize = 0;
            while i < n
                invariant
                    n == l@.len(),
                    0 <= i <= n,
                    json_views(l@).len() == n,
                    forall|t: int| 0 <= t < n ==> json_views(l@)[t] == json_view(l@[t]),
                    str_list_of_json(json_views(l@)) == (match str_list_of_json(
                        json_views(l@).skip(i as int),
                    ) {
                        Some(rest) => Some(out.deep_view() + rest),
                        None => None::<Seq<Seq<char>>>,
                    }),
                    out@.len() == i,
                    jv_lookup(json_view(*j), key@) == Some(JsonV::Arr(json_views(l@))),
                decreases n - i,
            {
                proof {
                    assert(json_views(l@).skip(i as int)[0] == json_views(l@)[i as int]);
                    assert(json_views(l@).skip(i as int).skip(1) =~= json_views(l@).skip(
                        i as int + 1,
                    ));
                }
                match &l[i] {
                    Json::Str(s) => {
                        out.push(s.clone());
                        proof {
                            lemma_str_list_prepend(
                                out.deep_view(),
                                str_list_of_json(json_views(l@).skip(i as int + 1)),
                            );
                        }
                    },
                    _ => {
                        proof {
                            assert(str_list_of_json(json_views(l@).skip(i as int)) is None);
                        }
                        return None;
                    },
                }
                i += 1;
            }
            proof {
                assert(json_views(l@).skip(n as int) =~= Seq::<JsonV>::empty());
                assert(str_list_of_json(Seq::<JsonV>::empty()) == Some(Seq::<Seq<char>>::empty()));
                assert(out.deep_view() + Seq::<Seq<char>>::empty() =~= out.deep_view());
            }
            Some(Some(out))
        },
        Some(_) => None,
    }
}

/// Extending the taken prefix by the element just read keeps the
/// prepended reading equal.
proof fn lemma_str_list_prepend(acc_new: Seq<Seq<char>>, rest: Option<Seq<Seq<char>>>)
    requires
        acc_new.len() > 0,
    ensures
        match rest {
            Some(r) => acc_new.drop_last() + (seq![acc_new.last()] + r) =~= acc_new + r,
            None => true,
        },
{
}

/// Fetches an optional string-map member.
pub fn field_opt_str_map(j: &Json, key: &str) -> (r: Option<Option<Vec<(String, String)>>>)
    ensures
        match r {
            Some(o) => jv_opt_str_map(jv_lookup(json_view(*j), key@)) == Some(o.deep_view()),
            None => jv_opt_str_map(jv_lookup(json_view(*j), key@)) is None,
        },
{
    match j.get(key) {
        None => Some(None),
        Some(Json::Null) => Some(None),
        Some(Json::Obj(m)) => {
            proof {
                lemma_json_member_views_len(m@);
            }
            let mut out: Vec<(String, String)> = Vec::new();
            proof {
                assert(json_member_views(m@).skip(0) =~= json_member_views(m@));
                assert(out.deep_view() =~= Seq::<(Seq<char>, Seq<char>)>::empty());
                match str_map_of_json(json_member_views(m@)) {
                    Some(r0) => {
                        assert(out.deep_view() + r0 =~= r0);
                    },
                    None => {},
                }
            }
            let n = m.len();
            let mut i: usize = 0;
            while i < n
                invariant
                    n == m@.len(),
                    0 <= i <= n,
                    json_member_views(m@).len() == n,
                    forall|t: int|
                        0 <= t < n ==> json_member_views(m@)[t] == (m@[t].0@, json_view(m@[t].1)),
                    str_map_of_json(json_member_views(m@)) == (match str_map_of_json(
                        json_member_views(m@).skip(i as int),
                    ) {
                        Some(rest) => Some(out.deep_view() + rest),
                        None => None::<Seq<(Seq<char>, Seq<char>)>>,
                    }),
                    out@.len() == i,
                    jv_lookup(json_view(*j), key@) == Some(JsonV::Obj(json_member_views(m@))),
                decreases n - i,
            {
                proof {
                    assert(json_member_views(m@).skip(i as int)[0] == json_member_views(m@)[
                        i as int]);
                    assert(json_member_views(m@).skip(i as int).skip(1) =~= json_member_views(
                        m@,
                    ).skip(i as int + 1));
                }
                match &m[i].1 {
                    Json::Str(s) => {
                        out.push((m[i].0.clone(), s.clone()));
                        proof {
                            lemma_str_map_prepend(
                                out.deep_view(),
                                str_map_of_json(json_member_views(m@).skip(i as int + 1)),
                            );
                        }
                    },
                    _ => {
                        proof {
                            assert(str_map_of_json(json_member_views(m@).skip(i as int)) is None);
                        }
                        return None;
                    },
                }
                i += 1;
            }
            proof {
                assert(json_member_views(m@).skip(n as int) =~= Seq::<(Seq<char>, JsonV)>::empty());
                assert(out.deep_view() + Seq::<(Seq<char>, Seq<char>)>::empty() =~= out.deep_view());
            }
            Some(Some(out))
        },
        Some(_) => None,
    }
}

proof fn lemma_str_map_prepend(acc_new: Seq<(Seq<char>, Seq<char>)>, rest: Option<
    Seq<(Seq<char>, Seq<char>)>,
>)
    requires
        acc_new.len() > 0,
    ensures
        match rest {
            Some(r) => acc_new.drop_last() + (seq![acc_new.last()] + r) =~= acc_new + r,
            None => true,
        },
{
}

// ===== one MCP server entry =====

/// The JSON object that stores one MCP server definition.
pub open spec fn mcp_server_json(v: McpServerConfigV) -> JsonV {
    JsonV::Obj(seq![
        ("id"@, JsonV::Str(v.id)),
        ("name"@, JsonV::Str(v.name)),
        ("command"@, JsonV::Str(v.command)),
        ("args"@, opt_str_list_json(v.args)),
        ("cwd"@, opt_str_json(v.cwd)),
        ("env"@, opt_str_map_json(v.env)),
        ("enabled"@, JsonV::Bool(v.enabled)),
        ("autoStart"@, JsonV::Bool(v.auto_start))
    ])
}

/// Reads one MCP server definition from a JSON value.
pub open spec fn mcp_server_of_json(j: JsonV) -> Option<McpServerConfigV> {
    let id = jv_str(jv_lookup(j, "id"@));
    let name = jv_str(jv_lookup(j, "name"@));
    let command = jv_str(jv_lookup(j, "command"@));
    let args = jv_opt_str_list(jv_lookup(j, "args"@));
    let cwd = jv_opt_str(jv_lookup(j, "cwd"@));
    let env = jv_opt_str_map(jv_lookup(j, "env"@));
    let enabled = jv_bool(jv_lookup(j, "enabled"@));
    let auto_start = jv_bool(jv_lookup(j, "autoStart"@));
    if j is Obj && id is Some && name is Some && command is Some && args is Some && cwd is Some
        && env is Some && enabled is Some && auto_start is Some {
        Some(
            McpServerConfigV {
                id: id->0,
                name: name->0,
                command: command->0,
                args: args->0,
                cwd: cwd->0,
                env: env->0,
                enabled: enabled->0,
                auto_start: auto_start->0,
            },
        )
    } else {
        None
    }
}

/// Builds the JSON object for one server definition.
pub fn mcp_server_to_json(v: &McpServerConfig) -> (r: Json)
    ensures
        json_view(r) == mcp_server_json(v.deep_view()),
{
    let mut ms: Vec<(String, Json)> = Vec::new();
    ms.push(("id".to_owned(), Json::Str(v.id.clone())));
    ms.push(("name".to_owned(), Json::Str(v.name.clone())));
    ms.push(("command".to_owned(), Json::Str(v.command.clone())));
    ms.push(("args".to_owned(), opt_str_list_to_json(&v.args)));
    ms.push(("cwd".to_owned(), opt_str_to_json(&v.cwd)));
    ms.push(("env".to_owned(), opt_str_map_to_json(&v.env)));
    ms.push(("enabled".to_owned(), Json::Bool(v.enabled)));
    ms.push(("autoStart".to_owned(), Json::Bool(v.auto_start)));
    let r = Json::Obj(ms);
    proof {
        let target = mcp_server_json(v.deep_view());
        lemma_json_member_views_len(r->Obj_0@);
        assert(json_member_views(r->Obj_0@) =~= target->Obj_0);
        assert(json_view(r) == target);
    }
    r
}

/// Reads one server definition from a parsed JSON value.
pub fn mcp_server_of(j: &Json) -> (r: Option<McpServerConfig>)
    ensures
        match r {
            Some(v) => mcp_server_of_json(json_view(*j)) == Some(v.deep_view()),
            None => mcp_server_of_json(json_view(*j)) is None,
        },
{
    match j {
        Json::Obj(_) => {},
        _ => {
            return None;
        },
    }
    let id = match field_str(j, "id") {
        Some(v) => v,
        None => {
            return None;
        },
    };
    let name = match field_str(j, "name") {
        Some(v) => v,
        None => {
            return None;
        },
    };
    let command = match field_str(j, "command") {
        Some(v) => v,
        None => {
            return None;
        },
    };
    let args = match field_opt_str_list(j, "args") {
        Some(v) => v,
        None => {
            return None;
        },
    };
    let cwd = match field_opt_str(j, "cwd") {
        Some(v) => v,
        None => {
            return None;
        },
    };
    let env = match field_opt_str_map(j, "env") {
        Some(v) => v,
        None => {
            return None;
        },
    };
    let enabled = match field_bool(j, "enabled") {
        Some(v) => v,
        None => {
            return None;
        },
    };
    let auto_start = match field_bool(j, "autoStart") {
        Some(v) => v,
        None => {
            return None;
        },
    };
    Some(McpServerConfig { id, name, command, args, cwd, env, enabled, auto_start })
}

// ===== the whole document =====

/// The JSON nodes for a list of server definitions.
pub open spec fn mcp_servers_list_json(l: Seq<McpServerConfigV>) -> Seq<JsonV>
    decreases l.len(),
{
    if l.len() == 0 {
        Seq::empty()
    } else {
        seq![mcp_server_json(l[0])] + mcp_servers_list_json(l.skip(1))
    }
}

/// Reads a list of server definitions; one bad entry fails the whole
/// list.
pub open spec fn mcp_servers_list_of_json(l: Seq<JsonV>) -> Option<Seq<McpServerConfigV>>
    decreases l.len(),
{
    if l.len() == 0 {
        Some(Seq::empty())
    } else {
        match mcp_server_of_json(l[0]) {
            Some(v) => match mcp_servers_list_of_json(l.skip(1)) {
                Some(rest) => Some(seq![v] + rest),
                None => None,
            },
            None => None,
        }
    }
}

/// The JSON document that stores the MCP server collection.
pub open spec fn mcp_servers_json(c: McpServersConfigV) -> JsonV {
    JsonV::Obj(seq![
        ("version"@, JsonV::Num(dec_int(c.version as int))),
        ("servers"@, JsonV::Arr(mcp_servers_list_json(c.servers))),
    ])
}

/// Reads the whole server collection document.
pub open spec fn mcp_servers_of_json(j: JsonV) -> Option<McpServersConfigV> {
    let version = jv_i64(jv_lookup(j, "version"@));
    let servers = match jv_lookup(j, "servers"@) {
        Some(JsonV::Arr(l)) => mcp_servers_list_of_json(l),
        _ => None,
    };
    if j is Obj && version is Some && i32::MIN <= version->0 <= i32::MAX && servers is Some {
        Some(McpServersConfigV { version: version->0 as i32, servers: servers->0 })
    } else {
        None
    }
}

/// What reading a server collection file with this text yields.
pub open spec fn mcp_servers_of_text(s: Seq<char>) -> McpServersConfigV {
    match parse_text(s) {
        Some(j) => match mcp_servers_of_json(j) {
            Some(c) => c,
            None => McpServersConfigV { version: 1, servers: Seq::empty() },
        },
        None => McpServersConfigV { version: 1, servers: Seq::empty() },
    }
}

/// Builds the JSON document for the collection.
pub fn mcp_servers_to_json(c: &McpServersConfig) -> (r: Json)
    ensures
        json_view(r) == mcp_servers_json(c.deep_view()),
{
    let mut list: Vec<Json> = Vec::new();
    let n = c.servers.len();
    let mut i: usize = 0;
    while i < n
        invariant
            n == c.servers@.len(),
            0 <= i <= n,
            json_views(list@) =~= mcp_servers_list_json(c.servers.deep_view().take(i as int)),
            list@.len() == i,
        decreases n - i,
    {
        proof {
            lemma_json_views_len(list@);
        }
        let node = mcp_server_to_json(&c.servers[i]);
        list.push(node);
        proof {
            lemma_json_views_len(list@);
            lemma_servers_list_take_step(c.servers.deep_view(), i as int);
            assert(json_views(list@) =~= mcp_servers_list_json(
                c.servers.deep_view().take(i as int + 1),
            ));
        }
        i += 1;
    }
    proof {
        assert(c.servers.deep_view().take(n as int) =~= c.servers.deep_view());
    }
    let mut ms: Vec<(String, Json)> = Vec::new();
    ms.push(("version".to_owned(), Json::Num(i64_to_string(c.version as i64))));
    ms.push(("servers".to_owned(), Json::Arr(list)));
    let r = Json::Obj(ms);
    proof {
        let target = mcp_servers_json(c.deep_view());
        lemma_json_member_views_len(r->Obj_0@);
        assert(json_member_views(r->Obj_0@) =~= target->Obj_0);
        assert(json_view(r) == target);
    }
    r
}

proof fn lemma_servers_list_take_step(l: Seq<McpServerConfigV>, i: int)
    requires
        0 <= i < l.len(),
    ensures
        mcp_servers_list_json(l.take(i + 1)) == mcp_servers_list_json(l.take(i)).push(
            mcp_server_json(l[i]),
        ),
    decreases i,
{
    if i == 0 {
        assert(mcp_servers_list_json(Seq::<McpServerConfigV>::empty()) == Seq::<JsonV>::empty());
        assert(l.take(1)[0] == l[0]);
        assert(l.take(1).skip(1) =~= Seq::<McpServerConfigV>::empty());
        assert(mcp_servers_list_json(l.take(1)) =~= seq![mcp_server_json(l[0])]);
        assert(l.take(0) =~= Seq::<McpServerConfigV>::empty());
        assert(mcp_servers_list_json(l.take(0)).push(mcp_server_json(l[0])) =~= seq![
            mcp_server_json(l[0]),
        ]);
    } else {
        lemma_servers_list_take_step(l.skip(1), i - 1);
        assert(l.take(i + 1)[0] == l[0]);
        assert(l.take(i + 1).skip(1) =~= l.skip(1).take(i));
        assert(l.take(i)[0] == l[0]);
        assert(l.take(i).skip(1) =~= l.skip(1).take(i - 1));
        assert(l.skip(1)[i - 1] == l[i]);
        assert(mcp_servers_list_json(l.take(i + 1)) == seq![mcp_server_json(l[0])]
            + mcp_servers_list_json(l.skip(1).take(i)));
        assert(mcp_servers_list_json(l.take(i)) == seq![mcp_server_json(l[0])]
            + mcp_servers_list_json(l.skip(1).take(i - 1)));
        assert(seq![mcp_server_json(l[0])] + mcp_servers_list_json(l.skip(1).take(i - 1)).push(
            mcp_server_json(l[i]),
        ) =~= (seq![mcp_server_json(l[0])] + mcp_servers_list_json(l.skip(1).take(i - 1))).push(
            mcp_server_json(l[i]),
        ));
    }
}

/// The exact text written for the collection: the pretty layout of
/// its document.
pub fn write_mcp_servers(c: &McpServersConfig) -> (r: String)
    ensures
        r@ == crate::codec::ser_json_pretty(mcp_servers_json(c.deep_view()), 0),
{
    let j = mcp_servers_to_json(c);
    crate::codec::json_to_string_pretty(&j)
}

/// Reads the server collection from file content; a missing file, or
/// any malformed or ill-typed text, yields the empty collection at
/// schema version 1, never a failure.
pub fn read_mcp_servers(content: Option<&str>) -> (r: McpServersConfig)
    ensures
        match content {
            None => r.version == 1 && r.servers@.len() == 0,
            Some(s) => s@.len() <= 0x0fff_ffff_ffff_ffff ==> r.deep_view() == mcp_servers_of_text(
                s@,
            ),
        },
{
    let text = match content {
        None => {
            return McpServersConfig::default();
        },
        Some(t) => t,
    };
    let j = match parse_json(text) {
        None => {
            let d = McpServersConfig::default();
            proof {
                if text@.len() <= 0x0fff_ffff_ffff_ffff {
                    assert(mcp_servers_of_text(text@) =~= d.deep_view());
                }
            }
            return d;
        },
        Some(j) => j,
    };
    match mcp_servers_of(&j) {
        Some(c) => c,
        None => {
            let d = McpServersConfig::default();
            proof {
                if text@.len() <= 0x0fff_ffff_ffff_ffff {
                    assert(mcp_servers_of_text(text@) =~= d.deep_view());
                }
            }
            d
        },
    }
}

/// Reads the collection from a parsed JSON value.
pub fn mcp_servers_of(j: &Json) -> (r: Option<McpServersConfig>)
    ensures
        match r {
            Some(c) => mcp_servers_of_json(json_view(*j)) == Some(c.deep_view()),
            None => mcp_servers_of_json(json_view(*j)) is None,
        },
{
    match j {
        Json::Obj(_) => {},
        _ => {
            return None;
        },
    }
    let version = match field_i64(j, "version") {
        Some(v) => v,
        None => {
            return None;
        },
    };
    if version < i32::MIN as i64 || version > i32::MAX as i64 {
        return None;
    }
    let arr = match j.get("servers") {
        Some(Json::Arr(l)) => l,
        _ => {
            return None;
        },
    };
    proof {
        lemma_json_views_len(arr@);
    }
    let mut servers: Vec<McpServerConfig> = Vec::new();
    proof {
        assert(json_views(arr@).skip(0) =~= json_views(arr@));
        assert(servers.deep_view() =~= Seq::<McpServerConfigV>::empty());
        match mcp_servers_list_of_json(json_views(arr@)) {
            Some(r0) => {
                assert(servers.deep_view() + r0 =~= r0);
            },
            None => {},
        }
    }
    let n = arr.len();
    let mut i: usize = 0;
    while i < n
        invariant
            n == arr@.len(),
            0 <= i <= n,
            json_views(arr@).len() == n,
            forall|t: int| 0 <= t < n ==> json_views(arr@)[t] == json_view(arr@[t]),
            mcp_servers_list_of_json(json_views(arr@)) == (match mcp_servers_list_of_json(
                json_views(arr@).skip(i as int),
            ) {
                Some(rest) => Some(servers.deep_view() + rest),
                None => None::<Seq<McpServerConfigV>>,
            }),
            servers@.len() == i,
            jv_lookup(json_view(*j), "servers"@) == Some(JsonV::Arr(json_views(arr@))),
        decreases n - i,
    {
        proof {
            assert(json_views(arr@).skip(i as int)[0] == json_views(arr@)[i as int]);
            assert(json_views(arr@).skip(i as int).skip(1) =~= json_views(arr@).skip(i as int + 1));
        }
        match mcp_server_of(&arr[i]) {
            Some(v) => {
                servers.push(v);
                proof {
                    lemma_servers_prepend(
                        servers.deep_view(),
                        mcp_servers_list_of_json(json_views(arr@).skip(i as int + 1)),
                    );
                }
            },
            None => {
                proof {
                    assert(mcp_servers_list_of_json(json_views(arr@).skip(i as int)) is None);
                }
                return None;
            },
        }
        i += 1;
    }
    proof {
        assert(json_views(arr@).skip(n as int) =~= Seq::<JsonV>::empty());
        assert(servers.deep_view() + Seq::<McpServerConfigV>::empty() =~= servers.deep_view());
    }
    Some(McpServersConfig { version: version as i32, servers })
}

proof fn lemma_servers_prepend(acc_new: Seq<McpServerConfigV>, rest: Option<Seq<McpServerConfigV>>)
    requires
        acc_new.len() > 0,
    ensures
        match rest {
            Some(r) => acc_new.drop_last() + (seq![acc_new.last()] + r) =~= acc_new + r,
            None => true,
        },
{
}

/// Each member of the stored object, looked up by its key.
#[verifier::rlimit(100)]
#[verifier::spinoff_prover]
proof fn lemma_mcp_server_lookups(v: McpServerConfigV)
    ensures
        jv_lookup(mcp_server_json(v), "id"@) == Some(JsonV::Str(v.id)),
        jv_lookup(mcp_server_json(v), "name"@) == Some(JsonV::Str(v.name)),
        jv_lookup(mcp_server_json(v), "command"@) == Some(JsonV::Str(v.command)),
        jv_lookup(mcp_server_json(v), "args"@) == Some(opt_str_list_json(v.args)),
        jv_lookup(mcp_server_json(v), "cwd"@) == Some(opt_str_json(v.cwd)),
        jv_lookup(mcp_server_json(v), "env"@) == Some(opt_str_map_json(v.env)),
        jv_lookup(mcp_server_json(v), "enabled"@) == Some(JsonV::Bool(v.enabled)),
        jv_lookup(mcp_server_json(v), "autoStart"@) == Some(JsonV::Bool(v.auto_start)),
{
    
    reveal_strlit("id");
    reveal_strlit("name");
    reveal_strlit("command");
    reveal_strlit("args");
    reveal_strlit("cwd");
    reveal_strlit("env");
    reveal_strlit("enabled");
    reveal_strlit("autoStart");
    assert("id"@.len() == 2);
    assert("name"@.len() == 4);
    assert("command"@.len() == 7);
    assert("args"@.len() == 4);
    assert("cwd"@.len() == 3);
    assert("env"@.len() == 3);
    assert("enabled"@.len() == 7);
    assert("autoStart"@.len() == 9);
    assert("id"@[0] == 'i');
    assert("name"@[0] == 'n');
    assert("command"@[0] == 'c');
    assert("args"@[0] == 'a');
    assert("cwd"@[0] == 'c');
    assert("env"@[0] == 'e');
    assert("enabled"@[0] == 'e');
    assert("autoStart"@[0] == 'a');
    let ms0 = mcp_server_json(v)->Obj_0;
    let ms1 = ms0.skip(1);
    let ms2 = ms1.skip(1);
    let ms3 = ms2.skip(1);
    let ms4 = ms3.skip(1);
    let ms5 = ms4.skip(1);
    let ms6 = ms5.skip(1);
    let ms7 = ms6.skip(1);
    assert(ms1 =~= seq![("name"@, JsonV::Str(v.name)), ("command"@, JsonV::Str(v.command)), ("args"@, opt_str_list_json(v.args)), ("cwd"@, opt_str_json(v.cwd)), ("env"@, opt_str_map_json(v.env)), ("enabled"@, JsonV::Bool(v.enabled)), ("autoStart"@, JsonV::Bool(v.auto_start))]);
    assert(ms2 =~= seq![("command"@, JsonV::Str(v.command)), ("args"@, opt_str_list_json(v.args)), ("cwd"@, opt_str_json(v.cwd)), ("env"@, opt_str_map_json(v.env)), ("enabled"@, JsonV::Bool(v.enabled)), ("autoStart"@, JsonV::Bool(v.auto_start))]);
    assert(ms3 =~= seq![("args"@, opt_str_list_json(v.args)), ("cwd"@, opt_str_json(v.cwd)), ("env"@, opt_str_map_json(v.env)), ("enabled"@, JsonV::Bool(v.enabled)), ("autoStart"@, JsonV::Bool(v.auto_start))]);
    assert(ms4 =~= seq![("cwd"@, opt_str_json(v.cwd)), ("env"@, opt_str_map_json(v.env)), ("enabled"@, JsonV::Bool(v.enabled)), ("autoStart"@, JsonV::Bool(v.auto_start))]);
    assert(ms5 =~= seq![("env"@, opt_str_map_json(v.env)), ("enabled"@, JsonV::Bool(v.enabled)), ("autoStart"@, JsonV::Bool(v.auto_start))]);
    assert(ms6 =~= seq![("enabled"@, JsonV::Bool(v.enabled)), ("autoStart"@, JsonV::Bool(v.auto_start))]);
    assert(ms7 =~= seq![("autoStart"@, JsonV::Bool(v.auto_start))]);
    assert(ms0[0].0 == "id"@);
    crate::docjson::lemma_lookup_hit(ms0, "id"@);
    assert(members_lookup(ms0, "id"@) == Some(JsonV::Str(v.id)));
    assert(ms0[0].0 != "name"@);
    crate::docjson::lemma_lookup_skip(ms0, "name"@);
    assert(ms1[0].0 == "name"@);
    crate::docjson::lemma_lookup_hit(ms1, "name"@);
    assert(members_lookup(ms0, "name"@) == Some(JsonV::Str(v.name)));
    assert(ms0[0].0 != "command"@);
    crate::docjson::lemma_lookup_skip(ms0, "command"@);
    assert(ms1[0].0 != "command"@);
    crate::docjson::lemma_lookup_skip(ms1, "command"@);
    assert(ms2[0].0 == "command"@);
    crate::docjson::lemma_lookup_hit(ms2, "command"@);
    assert(members_lookup(ms0, "command"@) == Some(JsonV::Str(v.command)));
    assert(ms0[0].0 != "args"@);
    crate::docjson::lemma_lookup_skip(ms0, "args"@);
    assert(ms1[0].0 != "args"@);
    crate::docjson::lemma_lookup_skip(ms1, "args"@);
    assert(ms2[0].0 != "args"@);
    crate::docjson::lemma_lookup_skip(ms2, "args"@);
    assert(ms3[0].0 == "args"@);
    crate::docjson::lemma_lookup_hit(ms3, "args"@);
    assert(members_lookup(ms0, "args"@) == Some(opt_str_list_json(v.args)));
    assert(ms0[0].0 != "cwd"@);
    crate::docjson::lemma_lookup_skip(ms0, "cwd"@);
    assert(ms1[0].0 != "cwd"@);
    crate::docjson::lemma_lookup_skip(ms1, "cwd"@);
    assert(ms2[0].0 != "cwd"@);
    crate::docjson::lemma_lookup_skip(ms2, "cwd"@);
    assert(ms3[0].0 != "cwd"@);
    crate::docjson::lemma_lookup_skip(ms3, "cwd"@);
    assert(ms4[0].0 == "cwd"@);
    crate::docjson::lemma_lookup_hit(ms4, "cwd"@);
    assert(members_lookup(ms0, "cwd"@) == Some(opt_str_json(v.cwd)));
    assert(ms0[0].0 != "env"@);
    crate::docjson::lemma_lookup_skip(ms0, "env"@);
    assert(ms1[0].0 != "env"@);
    crate::docjson::lemma_lookup_skip(ms1, "env"@);
    assert(ms2[0].0 != "env"@);
    crate::docjson::lemma_lookup_skip(ms2, "env"@);
    assert(ms3[0].0 != "env"@);
    crate::docjson::lemma_lookup_skip(ms3, "env"@);
    assert(ms4[0].0 != "env"@);
    crate::docjson::lemma_lookup_skip(ms4, "env"@);
    assert(ms5[0].0 == "env"@);
    crate::docjson::lemma_lookup_hit(ms5, "env"@);
    assert(members_lookup(ms0, "env"@) == Some(opt_str_map_json(v.env)));
    assert(ms0[0].0 != "enabled"@);
    crate::docjson::lemma_lookup_skip(ms0, "enabled"@);
    assert(ms1[0].0 != "enabled"@);
    crate::docjson::lemma_lookup_skip(ms1, "enabled"@);
    assert(ms2[0].0 != "enabled"@);
    crate::docjson::lemma_lookup_skip(ms2, "enabled"@);
    assert(ms3[0].0 != "enabled"@);
    crate::docjson::lemma_lookup_skip(ms3, "enabled"@);
    assert(ms4[0].0 != "enabled"@);
    crate::docjson::lemma_lookup_skip(ms4, "enabled"@);
    assert(ms5[0].0 != "enabled"@);
    crate::docjson::lemma_lookup_skip(ms5, "enabled"@);
    assert(ms6[0].0 == "enabled"@);
    crate::docjson::lemma_lookup_hit(ms6, "enabled"@);
    assert(members_lookup(ms0, "enabled"@) == Some(JsonV::Bool(v.enabled)));
    assert(ms0[0].0 != "autoStart"@);
    crate::docjson::lemma_lookup_skip(ms0, "autoStart"@);
    assert(ms1[0].0 != "autoStart"@);
    crate::docjson::lemma_lookup_skip(ms1, "autoStart"@);
    assert(ms2[0].0 != "autoStart"@);
    crate::docjson::lemma_lookup_skip(ms2, "autoStart"@);
    assert(ms3[0].0 != "autoStart"@);
    crate::docjson::lemma_lookup_skip(ms3, "autoStart"@);
    assert(ms4[0].0 != "autoStart"@);
    crate::docjson::lemma_lookup_skip(ms4, "autoStart"@);
    assert(ms5[0].0 != "autoStart"@);
    crate::docjson::lemma_lookup_skip(ms5, "autoStart"@);
    assert(ms6[0].0 != "autoStart"@);
    crate::docjson::lemma_lookup_skip(ms6, "autoStart"@);
    assert(ms7[0].0 == "autoStart"@);
    crate::docjson::lemma_lookup_hit(ms7, "autoStart"@);
    assert(members_lookup(ms0, "autoStart"@) == Some(JsonV::Bool(v.auto_start)));
}


/// A written string list is well-formed and reads back as itself.
pub proof fn lemma_str_list_rt(l: Seq<Seq<char>>)
    ensures
        crate::roundtrip::wf_items(str_list_json(l)),
        str_list_of_json(str_list_json(l)) == Some(l),
    decreases l.len(),
{
    if l.len() == 0 {
        assert(str_list_json(l) =~= Seq::<JsonV>::empty());
    } else {
        lemma_str_list_rt(l.skip(1));
        let s = str_list_json(l);
        assert(s[0] == JsonV::Str(l[0]));
        assert(s.skip(1) =~= str_list_json(l.skip(1)));
        assert(seq![l[0]] + l.skip(1) =~= l);
        assert(crate::roundtrip::wf_json(s[0]));
        assert(crate::roundtrip::wf_items(s.skip(1)));
        assert(crate::roundtrip::wf_items(s));
    }
}

/// A written string map is well-formed and reads back as itself.
pub proof fn lemma_str_map_rt(m: Seq<(Seq<char>, Seq<char>)>)
    ensures
        crate::roundtrip::wf_members(str_map_json(m)),
        str_map_of_json(str_map_json(m)) == Some(m),
    decreases m.len(),
{
    if m.len() == 0 {
        assert(str_map_json(m) =~= Seq::<(Seq<char>, JsonV)>::empty());
    } else {
        lemma_str_map_rt(m.skip(1));
        let s = str_map_json(m);
        assert(s[0] == (m[0].0, JsonV::Str(m[0].1)));
        assert(s.skip(1) =~= str_map_json(m.skip(1)));
        assert(seq![(m[0].0, m[0].1)] + m.skip(1) =~= m);
        assert((m[0].0, m[0].1) == m[0]);
        assert(crate::roundtrip::wf_json(s[0].1));
        assert(crate::roundtrip::wf_members(s.skip(1)));
        assert(crate::roundtrip::wf_members(s));
    }
}

/// A written server entry is well-formed.
#[verifier::rlimit(100)]
#[verifier::spinoff_prover]
proof fn lemma_mcp_server_wf(v: McpServerConfigV)
    ensures
        crate::roundtrip::wf_json(mcp_server_json(v)),
{
    let ms0 = mcp_server_json(v)->Obj_0;
    let ms1 = ms0.skip(1);
    let ms2 = ms1.skip(1);
    let ms3 = ms2.skip(1);
    let ms4 = ms3.skip(1);
    let ms5 = ms4.skip(1);
    let ms6 = ms5.skip(1);
    let ms7 = ms6.skip(1);
    assert(ms1 =~= seq![
        ("name"@, JsonV::Str(v.name)),
        ("command"@, JsonV::Str(v.command)),
        ("args"@, opt_str_list_json(v.args)),
        ("cwd"@, opt_str_json(v.cwd)),
        ("env"@, opt_str_map_json(v.env)),
        ("enabled"@, JsonV::Bool(v.enabled)),
        ("autoStart"@, JsonV::Bool(v.auto_start)),
    ]);
    assert(ms2 =~= ms1.skip(1));
    assert(ms3 =~= ms2.skip(1));
    assert(ms4 =~= ms3.skip(1));
    assert(ms5 =~= ms4.skip(1));
    assert(ms6 =~= ms5.skip(1));
    assert(ms7 =~= ms6.skip(1));
    assert(ms7.skip(1) =~= Seq::<(Seq<char>, JsonV)>::empty());
    assert(crate::roundtrip::wf_members(ms7.skip(1)));
    assert(crate::roundtrip::wf_json(ms7[0].1)) by {
        assert(ms7[0].1 == JsonV::Bool(v.auto_start));
    }
    crate::docjson::lemma_wf_members_cons(ms7);
    assert(crate::roundtrip::wf_json(ms6[0].1)) by {
        assert(ms6[0].1 == JsonV::Bool(v.enabled));
    }
    crate::docjson::lemma_wf_members_cons(ms6);
    assert(crate::roundtrip::wf_json(ms5[0].1)) by {
        assert(ms5[0].1 == opt_str_map_json(v.env));
        match v.env {
            Some(m) => {
                lemma_str_map_rt(m);
            },
            None => {},
        }
    }
    crate::docjson::lemma_wf_members_cons(ms5);
    assert(crate::roundtrip::wf_json(ms4[0].1)) by {
        assert(ms4[0].1 == opt_str_json(v.cwd));
        match v.cwd {
            Some(_) => {},
            None => {},
        }
    }
    crate::docjson::lemma_wf_members_cons(ms4);
    assert(crate::roundtrip::wf_json(ms3[0].1)) by {
        assert(ms3[0].1 == opt_str_list_json(v.args));
        match v.args {
            Some(l) => {
                lemma_str_list_rt(l);
            },
            None => {},
        }
    }
    crate::docjson::lemma_wf_members_cons(ms3);
    crate::docjson::lemma_wf_members_cons(ms2);
    crate::docjson::lemma_wf_members_cons(ms1);
    crate::docjson::lemma_wf_members_cons(ms0);
}

/// A written server entry reads back as itself.
#[verifier::rlimit(100)]
#[verifier::spinoff_prover]
proof fn lemma_mcp_server_of_to(v: McpServerConfigV)
    ensures
        mcp_server_of_json(mcp_server_json(v)) == Some(v),
{
    lemma_mcp_server_lookups(v);
    assert(jv_opt_str_list(Some(opt_str_list_json(v.args))) == Some(v.args)) by {
        match v.args {
            Some(l) => {
                lemma_str_list_rt(l);
            },
            None => {},
        }
    }
    assert(crate::docjson::jv_opt_str(Some(opt_str_json(v.cwd))) == Some(v.cwd)) by {
        match v.cwd {
            Some(_) => {},
            None => {},
        }
    }
    assert(jv_opt_str_map(Some(opt_str_map_json(v.env))) == Some(v.env)) by {
        match v.env {
            Some(m) => {
                lemma_str_map_rt(m);
            },
            None => {},
        }
    }
    assert(mcp_server_of_json(mcp_server_json(v)) == Some(v)) by {
        assert(mcp_server_json(v) is Obj);
    }
}

/// A written server list is well-formed and reads back as itself.
proof fn lemma_servers_list_rt(l: Seq<McpServerConfigV>)
    ensures
        crate::roundtrip::wf_items(mcp_servers_list_json(l)),
        mcp_servers_list_of_json(mcp_servers_list_json(l)) == Some(l),
    decreases l.len(),
{
    if l.len() == 0 {
        assert(mcp_servers_list_json(l) =~= Seq::<JsonV>::empty());
    } else {
        lemma_servers_list_rt(l.skip(1));
        lemma_mcp_server_wf(l[0]);
        lemma_mcp_server_of_to(l[0]);
        let s = mcp_servers_list_json(l);
        assert(s[0] == mcp_server_json(l[0]));
        assert(s.skip(1) =~= mcp_servers_list_json(l.skip(1)));
        assert(seq![l[0]] + l.skip(1) =~= l);
    }
}

/// Writing the server collection and reading the text back yields the
/// collection unchanged.
#[verifier::rlimit(100)]
#[verifier::spinoff_prover]
pub proof fn lemma_mcp_servers_round_trip(c: McpServersConfigV)
    ensures
        mcp_servers_of_text(crate::codec::ser_json_pretty(mcp_servers_json(c), 0)) == c,
{
    reveal_strlit("version");
    reveal_strlit("servers");
    assert("version"@.len() == 7);
    assert("servers"@.len() == 7);
    assert("version"@[0] == 'v');
    assert("servers"@[0] == 's');
    crate::numtext::lemma_dec_int_round_trip(c.version as int);
    lemma_servers_list_rt(c.servers);
    let ms0 = mcp_servers_json(c)->Obj_0;
    let ms1 = ms0.skip(1);
    assert(ms1 =~= seq![("servers"@, JsonV::Arr(mcp_servers_list_json(c.servers)))]);
    assert(ms1.skip(1) =~= Seq::<(Seq<char>, JsonV)>::empty());
    // the document is well-formed
    assert(crate::roundtrip::wf_members(ms1.skip(1)));
    assert(crate::roundtrip::wf_json(ms1[0].1)) by {
        assert(ms1[0].1 == JsonV::Arr(mcp_servers_list_json(c.servers)));
    }
    crate::docjson::lemma_wf_members_cons(ms1);
    assert(crate::roundtrip::wf_json(ms0[0].1)) by {
        assert(ms0[0].1 == JsonV::Num(crate::numtext::dec_int(c.version as int)));
        assert(crate::roundtrip::valid_num_text(crate::numtext::dec_int(c.version as int))) by {
            assert(forall|i: int|
                0 <= i < crate::numtext::dec_int(c.version as int).len()
                    ==> crate::numtext::is_dec_int_char(
                    crate::numtext::dec_int(c.version as int)[i],
                ) ==> crate::parse::is_num_char(crate::numtext::dec_int(c.version as int)[i]));
        }
    }
    crate::docjson::lemma_wf_members_cons(ms0);
    assert(crate::roundtrip::wf_json(mcp_servers_json(c)));
    crate::roundtrip::lemma_parse_ser_pretty(mcp_servers_json(c));
    crate::roundtrip::lemma_parse_ser_pretty(mcp_servers_json(c));
    // the members read back
    assert(ms0[0].0 == "version"@);
    crate::docjson::lemma_lookup_hit(ms0, "version"@);
    assert(ms0[0].0 != "servers"@);
    crate::docjson::lemma_lookup_skip(ms0, "servers"@);
    assert(ms1[0].0 == "servers"@);
    crate::docjson::lemma_lookup_hit(ms1, "servers"@);
    assert(members_lookup(ms0, "servers"@) == Some(
        JsonV::Arr(mcp_servers_list_json(c.servers)),
    ));
    assert(mcp_servers_of_json(mcp_servers_json(c)) =~= Some(c));
}

} // verus!
