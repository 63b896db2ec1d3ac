use vstd::prelude::*;

verus! {

broadcast use vstd::seq::axiom_seq_index_decreases, vstd::std_specs::vec::axiom_vec_decreases_to_view;

/// A JSON document value. Numbers keep their literal decimal text so
/// that a stored document is reproduced digit for digit.
#[derive(Debug, PartialEq)]
pub enum Json {
    Null,
    Bool(bool),
    Num(String),
    Str(String),
    Arr(Vec<Json>),
    Obj(Vec<(String, Json)>),
}

/// Mathematical value of a `Json` document.
#[verifier::ext_equal]
pub ghost enum JsonV {
    Null,
    Bool(bool),
    Num(Seq<char>),
    Str(Seq<char>),
    Arr(Seq<JsonV>),
    Obj(Seq<(Seq<char>, JsonV)>),
}

/// The mathematical value of one JSON node.
pub open spec fn json_view(j: Json) -> JsonV
    decreases j,
{
    match j {
        Json::Null => JsonV::Null,
        Json::Bool(b) => JsonV::Bool(b),
        Json::Num(s) => JsonV::Num(s@),
        Json::Str(s) => JsonV::Str(s@),
        Json::Arr(v) => JsonV::Arr(json_views(v@)),
        Json::Obj(v) => JsonV::Obj(json_member_views(v@)),
    }
}

/// The mathematical values of a sequence of JSON nodes.
pub open spec fn json_views(s: Seq<Json>) -> Seq<JsonV>
    decreases s,
{
    if s.len() == 0 {
        Seq::empty()
    } else {
        json_views(s.drop_last()).push(json_view(s.last()))
    }
}

/// The mathematical values of a sequence of JSON object members.
pub open spec fn json_member_views(s: Seq<(String, Json)>) -> Seq<(Seq<char>, JsonV)>
    decreases s,
{
    if s.len() == 0 {
        Seq::empty()
    } else {
        json_member_views(s.drop_last()).push((s.last().0@, json_view(s.last().1)))
    }
}

impl DeepView for Json {
    type V = JsonV;

    open spec fn deep_view(&self) -> JsonV {
        json_view(*self)
    }
}

/// A sequence of node views has one entry per node.
pub proof fn lemma_json_views_len(s: Seq<Json>)
    ensures
        json_views(s).len() == s.len(),
        forall|i: int| 0 <= i < s.len() ==> json_views(s)[i] == json_view(s[i]),
    decreases s,
{
    if s.len() > 0 {
        lemma_json_views_len(s.drop_last());
    }
}

/// Compares two string slices character by character.
pub fn str_eq(a: &str, b: &str) -> (r: bool)
    ensures
        r == (a@ == b@),
{
    let la = a.unicode_len();
    let lb = b.unicode_len();
    if la != lb {
        proof {
            assert(a@ != b@);
        }
        return false;
    }
    let mut i: usize = 0;
    while i < la
        invariant
            la == a@.len(),
            lb == b@.len(),
            la == lb,
            0 <= i <= la,
            forall|j: int| 0 <= j < i ==> a@[j] == b@[j],
        decreases la - i,
    {
        if a.get_char(i) != b.get_char(i) {
            proof {
                assert(a@[i as int] != b@[i as int]);
            }
            return false;
        }
        i += 1;
    }
    proof {
        assert(a@ =~= b@);
    }
    true
}

/// Looks a key up among object members: the first member with that key
/// wins.
pub open spec fn members_lookup(members: Seq<(Seq<char>, JsonV)>, k: Seq<char>) -> Option<JsonV>
    decreases members.len(),
{
    if members.len() == 0 {
        None
    } else if members[0].0 == k {
        Some(members[0].1)
    } else {
        members_lookup(members.skip(1), k)
    }
}

impl Json {
    /// The value under `k` when this node is an object holding that
    /// key, and nothing otherwise.
    pub open spec fn lookup(self, k: Seq<char>) -> Option<JsonV> {
        match self {
            Json::Obj(v) => members_lookup(json_member_views(v@), k),
            _ => None,
        }
    }

    /// Fetches the member stored under `key`, as `lookup` describes.
    pub fn get<'a>(&'a self, key: &str) -> (r: Option<&'a Json>)
        ensures
            match r {
                Some(j) => self.lookup(key@) == Some(json_view(*j)),
                None => self.lookup(key@) is None,
            },
    {
        match self {
            Json::Obj(v) => {
                proof {
                    lemma_json_member_views_len(v@);
                    assert(json_member_views(v@).skip(0) =~= json_member_views(v@));
                }
                let ghost m = json_member_views(v@);
                let mut i: usize = 0;
                while i < v.len()
                    invariant
                        m == json_member_views(v@),
                        m.len() == v@.len(),
                        forall|j: int|
                            0 <= j < v@.len() ==> m[j] == (v@[j].0@, json_view(v@[j].1)),
                        0 <= i <= v@.len(),
                        members_lookup(m, key@) == members_lookup(m.skip(i as int), key@),
                        self.lookup(key@) == members_lookup(m.skip(i as int), key@),
                    decreases v@.len() - i,
                {
                    proof {
                        assert(m.skip(i as int).len() > 0);
                        assert(m.skip(i as int)[0] == m[i as int]);
                        assert(m.skip(i as int).skip(1) =~= m.skip(i as int + 1));
                    }
                    if str_eq(v[i].0.as_str(), key) {
                        return Some(&v[i].1);
                    }
                    i += 1;
                }
                proof {
                    assert(m.skip(v@.len() as int) =~= Seq::<(Seq<char>, JsonV)>::empty());
                }
                None
            },
            _ => None,
        }
    }
}

impl Json {
    /// A deep copy with the same mathematical value.
    #[verifier::loop_isolation(false)]
    pub fn duplicate(&self) -> (r: Json)
        ensures
            json_view(r) == json_view(*self),
        decreases self,
    {
        match self {
            Json::Null => Json::Null,
            Json::Bool(b) => Json::Bool(*b),
            Json::Num(t) => Json::Num(t.clone()),
            Json::Str(t) => Json::Str(t.clone()),
            Json::Arr(v) => {
                let mut out: Vec<Json> = Vec::new();
                let n = v.len();
                let mut i: usize = 0;
                while i < n
                    invariant
                        n == v@.len(),
                        0 <= i <= n,
                        out@.len() == i,
                        forall|t: int| 0 <= t < i ==> json_view(out@[t]) == json_view(v@[t]),
                    decreases n - i,
                {
                    let c = v[i].duplicate();
                    out.push(c);
                    i += 1;
                }
                proof {
                    lemma_json_views_len(out@);
                    lemma_json_views_len(v@);
                    assert(json_views(out@) =~= json_views(v@));
                }
                Json::Arr(out)
            },
            Json::Obj(v) => {
                let mut out: Vec<(String, Json)> = Vec::new();
                let n = v.len();
                let mut i: usize = 0;
                while i < n
                    invariant
                        n == v@.len(),
                        0 <= i <= n,
                        out@.len() == i,
                        forall|t: int|
                            0 <= t < i ==> out@[t].0@ == v@[t].0@ && json_view(out@[t].1)
                                == json_view(v@[t].1),
                    decreases n - i,
                {
                    let c = v[i].1.duplicate();
                    out.push((v[i].0.clone(), c));
                    i += 1;
                }
                proof {
                    lemma_json_member_views_len(out@);
                    lemma_json_member_views_len(v@);
                    assert(json_member_views(out@) =~= json_member_views(v@));
                }
                Json::Obj(out)
            },
        }
    }
}

/// A sequence of member views has one entry per member.
pub proof fn lemma_json_member_views_len(s: Seq<(String, Json)>)
    ensures
        json_member_views(s).len() == s.len(),
        forall|i: int|
            0 <= i < s.len() ==> json_member_views(s)[i] == (s[i].0@, json_view(s[i].1)),
    decreases s,
{
    if s.len() > 0 {
        lemma_json_member_views_len(s.drop_last());
    }
}

} // verus!
