//! JSON request bodies: a JSON value as the library holds it, reading and
//! writing one through `serde_json`, and setting a field at a dot-separated
//! path, as credential injection does.
//!
//! Setting a field follows `serde_json`'s indexing: a missing field is
//! created, a `null` becomes an object first, and any other value cannot
//! hold a field.

use vstd::prelude::*;

verus! {

#[verifier::external_type_specification]
#[verifier::external_body]
pub struct ExJsonNumber(serde_json::Number);

/// A JSON value.
#[derive(Debug)]
pub enum JsonValue {
    /// `null`.
    Null,
    /// `true` or `false`.
    Bool(bool),
    /// A number, as `serde_json` holds it.
    Number(serde_json::Number),
    /// A string.
    Text(String),
    /// An array.
    Array(Vec<JsonValue>),
    /// An object: its members, each key once.
    Object(Vec<(String, JsonValue)>),
}

/// The mathematical form of a JSON value.
pub enum Json {
    /// `null`.
    Null,
    /// `true` or `false`.
    Bool(bool),
    /// A number.
    Number(serde_json::Number),
    /// A string.
    Text(Seq<char>),
    /// An array.
    Array(Seq<Json>),
    /// An object's members, in order.
    Object(Seq<(Seq<char>, Json)>),
}

/// The mathematical form of a JSON value.
pub open spec fn json_view(v: JsonValue) -> Json
    decreases v,
{
    match v {
        JsonValue::Null => Json::Null,
        JsonValue::Bool(b) => Json::Bool(b),
        JsonValue::Number(n) => Json::Number(n),
        JsonValue::Text(s) => Json::Text(s@),
        JsonValue::Array(a) => {
            proof {
                assert(decreases_to!(v => a));
                assert(decreases_to!(a => a@));
            }
            Json::Array(items_view(a@))
        },
        JsonValue::Object(fs) => {
            proof {
                assert(decreases_to!(v => fs));
                assert(decreases_to!(fs => fs@));
            }
            Json::Object(fields_view(fs@))
        },
    }
}

/// The forms of an array's items.
pub open spec fn items_view(s: Seq<JsonValue>) -> Seq<Json>
    decreases s,
{
    if s.len() == 0 {
        Seq::empty()
    } else {
        proof {
            assert(decreases_to!(s => s[s.len() - 1]));
            assert(decreases_to!(s => s.subrange(0, s.len() - 1)));
        }
        items_view(s.subrange(0, s.len() - 1)).push(json_view(s[s.len() - 1]))
    }
}

/// The forms of an object's members.
pub open spec fn fields_view(s: Seq<(String, JsonValue)>) -> Seq<(Seq<char>, Json)>
    decreases s,
{
    if s.len() == 0 {
        Seq::empty()
    } else {
        proof {
            assert(decreases_to!(s => s[s.len() - 1]));
            assert(decreases_to!(s[s.len() - 1] => s[s.len() - 1].1));
            assert(decreases_to!(s => s.subrange(0, s.len() - 1)));
        }
        fields_view(s.subrange(0, s.len() - 1)).push((s[s.len() - 1].0@, json_view(s[s.len() - 1].1)))
    }
}

impl View for JsonValue {
    type V = Json;

    open spec fn view(&self) -> Json {
        json_view(*self)
    }
}

proof fn lemma_fields_view(s: Seq<(String, JsonValue)>)
    ensures
        fields_view(s).len() == s.len(),
        forall|j: int| 0 <= j < s.len() ==> #[trigger] fields_view(s)[j] == (s[j].0@, json_view(s[j].1)),
    decreases s.len(),
{
    if s.len() > 0 {
        let t = s.subrange(0, s.len() - 1);
        lemma_fields_view(t);
        assert forall|j: int| 0 <= j < s.len() implies #[trigger] fields_view(s)[j] == (s[j].0@, json_view(
            s[j].1,
        )) by {
            if j < s.len() - 1 {
                assert(t[j] == s[j]);
            }
        }
    }
}

/// The position of the first member with key `k`.
pub open spec fn first_key(fs: Seq<(Seq<char>, Json)>, k: Seq<char>) -> Option<int>
    decreases fs.len(),
{
    if fs.len() == 0 {
        None
    } else {
        match first_key(fs.drop_last(), k) {
            Some(i) => Some(i),
            None => if fs.last().0 == k {
                Some(fs.len() - 1)
            } else {
                None
            },
        }
    }
}

proof fn lemma_first_key(fs: Seq<(Seq<char>, Json)>, k: Seq<char>)
    ensures
        match first_key(fs, k) {
            Some(i) => 0 <= i < fs.len() && fs[i].0 == k && forall|j: int| 0 <= j < i ==> #[trigger] fs[j].0 != k,
            None => forall|j: int| 0 <= j < fs.len() ==> #[trigger] fs[j].0 != k,
        },
    decreases fs.len(),
{
    if fs.len() > 0 {
        lemma_first_key(fs.drop_last(), k);
        assert forall|j: int| 0 <= j < fs.len() - 1 implies #[trigger] fs[j].0 == fs.drop_last()[j].0 by {}
    }
}

proof fn lemma_first_key_same_keys(a: Seq<(Seq<char>, Json)>, b: Seq<(Seq<char>, Json)>, k: Seq<char>)
    requires
        a.len() == b.len(),
        forall|j: int| 0 <= j < a.len() ==> #[trigger] a[j].0 == b[j].0,
    ensures
        first_key(a, k) == first_key(b, k),
    decreases a.len(),
{
    if a.len() > 0 {
        lemma_first_key_same_keys(a.drop_last(), b.drop_last(), k);
    }
}

/// The member of `v` with key `k`, where `v` is an object that has one.
pub open spec fn get_field(v: Json, k: Seq<char>) -> Option<Json> {
    match v {
        Json::Object(fs) => match first_key(fs, k) {
            Some(i) => Some(fs[i].1),
            None => None,
        },
        _ => None,
    }
}

/// `v` with member `k` set to `x`: an object's member is replaced or
/// added, `null` becomes an object holding only that member, and any other
/// value cannot hold a member (`None`).
pub open spec fn set_field(v: Json, k: Seq<char>, x: Json) -> Option<Json> {
    match v {
        Json::Null => Some(Json::Object(seq![(k, x)])),
        Json::Object(fs) => Some(
            Json::Object(
                match first_key(fs, k) {
                    Some(i) => fs.update(i, (k, x)),
                    None => fs.push((k, x)),
                },
            ),
        ),
        _ => None,
    }
}

/// `v` with the text `value` set at the path `parts[i..]`: every part but
/// the last names a member to descend into, created as an empty object when
/// missing; the last part is set to the text. `None` where a value on the
/// way cannot hold a member.
pub open spec fn set_path(v: Json, parts: Seq<Seq<char>>, i: int, value: Seq<char>) -> Option<Json>
    decreases parts.len() - i,
{
    if i < 0 || i >= parts.len() {
        None
    } else if i == parts.len() - 1 {
        set_field(v, parts[i], Json::Text(value))
    } else {
        let k = parts[i];
        let start = match get_field(v, k) {
            Some(c) => Some((v, c)),
            None => match set_field(v, k, Json::Object(Seq::empty())) {
                Some(w) => Some((w, Json::Object(Seq::empty()))),
                None => None,
            },
        };
        match start {
            None => None,
            Some((base, child)) => match set_path(child, parts, i + 1, value) {
                None => None,
                Some(c2) => set_field(base, k, c2),
            },
        }
    }
}

/// The parts of a text split at every `.` (a text without `.` is one part).
pub open spec fn dot_parts(s: Seq<char>) -> Seq<Seq<char>>
    decreases s.len(),
{
    if s.len() == 0 {
        seq![Seq::empty()]
    } else {
        let p = dot_parts(s.drop_last());
        if s.last() == '.' {
            p.push(Seq::empty())
        } else {
            p.update(p.len() - 1, p.last().push(s.last()))
        }
    }
}

proof fn lemma_dot_parts_len(s: Seq<char>)
    ensures
        dot_parts(s).len() >= 1,
    decreases s.len(),
{
    if s.len() > 0 {
        lemma_dot_parts_len(s.drop_last());
    }
}

/// The characters of each text.
pub open spec fn texts(v: Seq<String>) -> Seq<Seq<char>> {
    v.map_values(|s: String| s@)
}

/// Split a path at every `.`.
pub fn split_dots(path: &str) -> (parts: Vec<String>)
    ensures
        texts(parts@) == dot_parts(path@),
{
    let cs = crate::text::chars_vec(path);
    let mut parts: Vec<String> = Vec::new();
    let mut cur = String::new();
    let mut i: usize = 0;
    while i < cs.len()
        invariant
            cs@ == path@,
            0 <= i <= cs@.len(),
            texts(parts@).push(cur@) == dot_parts(path@.subrange(0, i as int)),
        decreases cs@.len() - i,
    {
        let ghost before = texts(parts@).push(cur@);
        proof {
            lemma_dot_parts_len(path@.subrange(0, i as int));
            assert(path@.subrange(0, i + 1).drop_last() =~= path@.subrange(0, i as int));
            assert(path@.subrange(0, i + 1).last() == cs@[i as int]);
        }
        if cs[i] == '.' {
            let done = cur;
            parts.push(done);
            cur = String::new();
            assert(texts(parts@).push(cur@) =~= before.push(Seq::empty()));
        } else {
            crate::text::push_char(&mut cur, cs[i]);
            assert(texts(parts@).push(cur@) =~= before.update(before.len() - 1, before.last().push(cs@[i as int])));
        }
        i = i + 1;
    }
    assert(path@.subrange(0, cs@.len() as int) =~= path@);
    parts.push(cur);
    assert(texts(parts@) =~= dot_parts(path@));
    parts
}

/// The position of the first member with key `k`.
fn find_key(fs: &Vec<(String, JsonValue)>, k: &str) -> (r: Option<usize>)
    ensures
        r matches Some(j) ==> j < fs@.len(),
        match r {
            Some(j) => first_key(fields_view(fs@), k@) == Some(j as int),
            None => first_key(fields_view(fs@), k@) is None,
        },
{
    proof {
        lemma_fields_view(fs@);
        lemma_first_key(fields_view(fs@), k@);
    }
    let mut i: usize = 0;
    while i < fs.len()
        invariant
            0 <= i <= fs@.len(),
            fields_view(fs@).len() == fs@.len(),
            forall|j: int| 0 <= j < fs@.len() ==> #[trigger] fields_view(fs@)[j] == (fs@[j].0@, json_view(fs@[j].1)),
            forall|j: int| 0 <= j < i ==> #[trigger] fs@[j].0@ != k@,
            match first_key(fields_view(fs@), k@) {
                Some(m) => 0 <= m < fs@.len() && fields_view(fs@)[m].0 == k@ && forall|j: int| 0 <= j < m
                    ==> #[trigger] fields_view(fs@)[j].0 != k@,
                None => forall|j: int| 0 <= j < fs@.len() ==> #[trigger] fields_view(fs@)[j].0 != k@,
            },
        decreases fs@.len() - i,
    {
        if crate::text::str_eq(fs[i].0.as_str(), k) {
            proof {
                assert(fields_view(fs@)[i as int].0 == k@);
                match first_key(fields_view(fs@), k@) {
                    Some(m) => {
                        if m < i {
                            assert(fs@[m].0@ != k@);
                        } else if m > i {
                            assert(fields_view(fs@)[i as int].0 != k@);
                        }
                    },
                    None => {},
                }
            }
            return Some(i);
        }
        i = i + 1;
    }
    proof {
        match first_key(fields_view(fs@), k@) {
            Some(m) => {
                assert(fs@[m].0@ != k@);
            },
            None => {},
        }
    }
    None
}

/// The member `k` of `v`, where `v` is an object that has one.
pub fn get_member<'a>(v: &'a JsonValue, k: &str) -> (r: Option<&'a JsonValue>)
    ensures
        match r {
            Some(x) => get_field(v@, k@) == Some(x@),
            None => get_field(v@, k@) is None,
        },
{
    match v {
        JsonValue::Object(fs) => {
            proof {
                lemma_fields_view(fs@);
            }
            match find_key(fs, k) {
                Some(i) => Some(&fs[i].1),
                None => None,
            }
        },
        _ => None,
    }
}

/// The form of an optional value.
pub open spec fn opt_view(o: Option<JsonValue>) -> Option<Json> {
    match o {
        Some(v) => Some(v@),
        None => None,
    }
}

/// Set member `k` of `v` to `x`.
fn set_field_exec(v: JsonValue, k: &str, x: JsonValue) -> (r: Option<JsonValue>)
    ensures
        opt_view(r) == set_field(v@, k@, x@),
{
    match v {
        JsonValue::Null => {
            let mut fs: Vec<(String, JsonValue)> = Vec::new();
            fs.push((String::from_str(k), x));
            let r = JsonValue::Object(fs);
            proof {
                lemma_fields_view(fs@);
                assert(fields_view(fs@) =~= seq![(k@, x@)]);
            }
            Some(r)
        },
        JsonValue::Object(fs) => {
            let mut fs = fs;
            let ghost old_fs = fs@;
            proof {
                lemma_fields_view(old_fs);
            }
            match find_key(&fs, k) {
                Some(i) => {
                    fs.set(i, (String::from_str(k), x));
                    proof {
                        lemma_fields_view(fs@);
                        assert(fields_view(fs@) =~= fields_view(old_fs).update(i as int, (k@, x@)));
                    }
                },
                None => {
                    fs.push((String::from_str(k), x));
                    proof {
                        lemma_fields_view(fs@);
                        assert(fields_view(fs@) =~= fields_view(old_fs).push((k@, x@)));
                    }
                },
            }
            let r = JsonValue::Object(fs);
            Some(r)
        },
        _ => None,
    }
}

/// Set the text `value` at the path `parts[i..]` of `v`.
fn set_path_exec(v: JsonValue, parts: &Vec<String>, i: usize, value: &str) -> (r: Option<JsonValue>)
    requires
        i < parts@.len(),
    ensures
        opt_view(r) == set_path(v@, texts(parts@), i as int, value@),
    decreases parts@.len() - i,
{
    let ghost ps = texts(parts@);
    let ghost k = parts@[i as int]@;
    assert(ps[i as int] == k);
    if i == parts.len() - 1 {
        return set_field_exec(v, parts[i].as_str(), JsonValue::Text(String::from_str(value)));
    }
    let ghost empty = Json::Object(Seq::empty());
    match v {
        JsonValue::Null => {
            let child = JsonValue::Object(Vec::new());
            proof {
                lemma_fields_view(Seq::<(String, JsonValue)>::empty());
                assert(child@ == empty);
            }
            match set_path_exec(child, parts, i + 1, value) {
                None => None,
                Some(c2) => {
                    let mut fs: Vec<(String, JsonValue)> = Vec::new();
                    fs.push((parts[i].clone(), c2));
                    proof {
                        lemma_fields_view(fs@);
                        assert(fields_view(fs@) =~= seq![(k, c2@)]);
                        let base = Json::Object(seq![(k, empty)]);
                        assert(seq![(k, empty)].drop_last() =~= Seq::<(Seq<char>, Json)>::empty());
                        assert(first_key(Seq::<(Seq<char>, Json)>::empty(), k) is None);
                        assert(first_key(seq![(k, empty)], k) == Some(0int));
                        assert(seq![(k, empty)].update(0, (k, c2@)) =~= seq![(k, c2@)]);
                    }
                    Some(JsonValue::Object(fs))
                },
            }
        },
        JsonValue::Object(fs) => {
            let mut fs = fs;
            let ghost old_fs = fs@;
            proof {
                lemma_fields_view(old_fs);
            }
            match find_key(&fs, parts[i].as_str()) {
                Some(j) => {
                    let (kk, c) = fs.remove(j);
                    fs.insert(j, (kk, JsonValue::Null));
                    proof {
                        lemma_fields_view(fs@);
                        assert(c@ == fields_view(old_fs)[j as int].1);
                        assert forall|m: int| 0 <= m < fs@.len() implies #[trigger] fields_view(fs@)[m].0
                            == fields_view(old_fs)[m].0 by {
                            if m != j {
                                assert(fs@[m] == old_fs[m]);
                            }
                        }
                        lemma_first_key_same_keys(fields_view(fs@), fields_view(old_fs), k);
                    }
                    match set_path_exec(c, parts, i + 1, value) {
                        None => None,
                        Some(c2) => {
                            let r = set_field_exec(JsonValue::Object(fs), parts[i].as_str(), c2);
                            proof {
                                assert(fields_view(fs@).update(j as int, (k, c2@)) =~= fields_view(old_fs).update(
                                    j as int,
                                    (k, c2@),
                                ));
                            }
                            r
                        },
                    }
                },
                None => {
                    let child = JsonValue::Object(Vec::new());
                    proof {
                        lemma_fields_view(Seq::<(String, JsonValue)>::empty());
                        assert(child@ == empty);
                    }
                    match set_path_exec(child, parts, i + 1, value) {
                        None => None,
                        Some(c2) => {
                            fs.push((parts[i].clone(), c2));
                            proof {
                                lemma_fields_view(fs@);
                                let ov = fields_view(old_fs);
                                assert(fields_view(fs@) =~= ov.push((k, c2@)));
                                assert(ov.push((k, empty)).drop_last() =~= ov);
                                assert(first_key(ov.push((k, empty)), k) == Some(ov.len() as int));
                                assert(ov.push((k, empty)).update(ov.len() as int, (k, c2@)) =~= ov.push((k, c2@)));
                            }
                            Some(JsonValue::Object(fs))
                        },
                    }
                },
            }
        },
        _ => None,
    }
}

/// The value `v` with the text `value` set at the dot-separated `path`.
pub fn set_at_path(v: JsonValue, path: &str, value: &str) -> (r: Option<JsonValue>)
    ensures
        opt_view(r) == set_path(v@, dot_parts(path@), 0, value@),
{
    let parts = split_dots(path);
    proof {
        lemma_dot_parts_len(path@);
    }
    set_path_exec(v, &parts, 0, value)
}

/// What `serde_json` reads from bytes as a JSON value, or the message of
/// the error it reports.
pub uninterp spec fn json_tree(bytes: Seq<u8>) -> Result<Json, Seq<char>>;

/// The bytes `serde_json` writes for a JSON value (compact).
pub uninterp spec fn json_text(v: Json) -> Seq<u8>;

/// A `serde_json` value as the library's, one for one (numbers are kept as
/// `serde_json` holds them).
#[verifier::external_body]
fn from_serde(v: serde_json::Value) -> JsonValue {
    match v {
        serde_json::Value::Null => JsonValue::Null,
        serde_json::Value::Bool(b) => JsonValue::Bool(b),
        serde_json::Value::Number(n) => JsonValue::Number(n),
        serde_json::Value::String(s) => JsonValue::Text(s),
        serde_json::Value::Array(a) => JsonValue::Array(a.into_iter().map(from_serde).collect()),
        serde_json::Value::Object(m) => JsonValue::Object(m.into_iter().map(|(k, x)| (k, from_serde(x))).collect()),
    }
}

/// The library's JSON value as a `serde_json` one, one for one.
#[verifier::external_body]
fn to_serde(v: &JsonValue) -> serde_json::Value {
    match v {
        JsonValue::Null => serde_json::Value::Null,
        JsonValue::Bool(b) => serde_json::Value::Bool(*b),
        JsonValue::Number(n) => serde_json::Value::Number(n.clone()),
        JsonValue::Text(s) => serde_json::Value::String(s.clone()),
        JsonValue::Array(a) => serde_json::Value::Array(a.iter().map(to_serde).collect()),
        JsonValue::Object(fs) => serde_json::Value::Object(fs.iter().map(|(k, x)| (k.clone(), to_serde(x))).collect()),
    }
}

/// `serde_json::from_slice` into a `serde_json::Value`, converted one for
/// one. The value read, or the error's message, is named, not stated: a
/// function of the bytes alone.
#[verifier::external_body]
pub(crate) fn parse_json(bytes: &[u8]) -> (r: Result<JsonValue, String>)
    ensures
        match json_tree(bytes@) {
            Ok(t) => r matches Ok(v) && v@ == t,
            Err(m) => r matches Err(e) && e@ == m,
        },
{
    match serde_json::from_slice::<serde_json::Value>(bytes) {
        Ok(v) => Ok(from_serde(v)),
        Err(e) => Err(e.to_string()),
    }
}

/// `serde_json::to_vec` of the value, converted one for one (writing a
/// value with string keys cannot fail). The bytes are named, not stated.
#[verifier::external_body]
pub(crate) fn json_to_vec(v: &JsonValue) -> (b: Vec<u8>)
    ensures
        b@ == json_text(v@),
{
    serde_json::to_vec(&to_serde(v)).unwrap_or_default()
}

} // verus!
