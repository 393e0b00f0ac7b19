use vstd::prelude::*;

verus! {

/// A mapping from string keys to values, in the order the entries were given.
pub type Mapping = Vec<(String, Value)>;

/// A dynamically-typed value tree, as carried by the wire format.
#[derive(Debug, PartialEq)]
pub enum Value {
    Null,
    Bool(bool),
    /// A non-negative integer.
    PosInt(u64),
    /// A negative integer.
    NegInt(i64),
    /// A floating-point number, held as its IEEE 754 bit pattern.
    Float(u64),
    Str(String),
    Array(Vec<Value>),
    Object(Mapping),
}

/// The value under key `k` in `m`: the first entry with that key.
pub open spec fn lookup(m: Seq<(String, Value)>, k: Seq<char>) -> Option<Value>
    decreases m.len(),
{
    if m.len() == 0 {
        None
    } else if m[0].0@ == k {
        Some(m[0].1)
    } else {
        lookup(m.drop_first(), k)
    }
}

/// The mapping under key `k`, or the empty mapping when the key is absent or
/// its value is not a mapping.
pub open spec fn mapping_field(m: Seq<(String, Value)>, k: Seq<char>) -> Seq<(String, Value)> {
    match lookup(m, k) {
        Some(Value::Object(o)) => o@,
        _ => Seq::empty(),
    }
}

/// `v` is the string `s`.
pub open spec fn is_str(v: Value, s: Seq<char>) -> bool {
    match v {
        Value::Str(t) => t@ == s,
        _ => false,
    }
}

/// The key under `k` holds the string `s`.
pub open spec fn field_is_str(m: Seq<(String, Value)>, k: Seq<char>, s: Seq<char>) -> bool {
    match lookup(m, k) {
        Some(v) => is_str(v, s),
        None => false,
    }
}

proof fn lemma_lookup_at_first(m: Seq<(String, Value)>, i: int, k: Seq<char>)
    requires
        0 <= i < m.len(),
        m[i].0@ == k,
        forall|j: int| 0 <= j < i ==> m[j].0@ != k,
    ensures
        lookup(m, k) == Some(m[i].1),
    decreases i,
{
    if i > 0 {
        lemma_lookup_at_first(m.drop_first(), i - 1, k);
    }
}

proof fn lemma_lookup_absent(m: Seq<(String, Value)>, k: Seq<char>)
    requires
        forall|j: int| 0 <= j < m.len() ==> m[j].0@ != k,
    ensures
        lookup(m, k) is None,
    decreases m.len(),
{
    if m.len() > 0 {
        lemma_lookup_absent(m.drop_first(), k);
    }
}

/// Removing an entry whose key differs from `k` leaves the lookup of `k` as it was.
proof fn lemma_lookup_remove_other(m: Seq<(String, Value)>, i: int, k: Seq<char>)
    requires
        0 <= i < m.len(),
        m[i].0@ != k,
    ensures
        lookup(m.remove(i), k) == lookup(m, k),
    decreases i,
{
    if i == 0 {
        assert(m.remove(0) =~= m.drop_first());
    } else if m[0].0@ != k {
        lemma_lookup_remove_other(m.drop_first(), i - 1, k);
        assert(m.remove(i).drop_first() =~= m.drop_first().remove(i - 1));
    }
}

/// Position of the first entry of `m` whose key is `k`.
pub fn find_key(m: &Mapping, k: &str) -> (r: Option<usize>)
    ensures
        match r {
            Some(i) => i < m@.len() && m@[i as int].0@ == k@ && lookup(m@, k@) == Some(
                m@[i as int].1,
            ),
            None => lookup(m@, k@) is None,
        },
{
    let key = k.to_owned();
    let mut i: usize = 0;
    while i < m.len()
        invariant
            i <= m@.len(),
            key@ == k@,
            forall|j: int| 0 <= j < i ==> m@[j].0@ != k@,
        decreases m@.len() - i,
    {
        if m[i].0 == key {
            proof {
                lemma_lookup_at_first(m@, i as int, k@);
            }
            return Some(i);
        }
        i = i + 1;
    }
    proof {
        lemma_lookup_absent(m@, k@);
    }
    None
}

/// Takes the value under key `k` out of `m`, leaving the other keys' lookups as they were.
pub fn take_field(m: &mut Mapping, k: &str) -> (r: Option<Value>)
    ensures
        r == lookup(old(m)@, k@),
        forall|k2: Seq<char>| k2 != k@ ==> #[trigger] lookup(final(m)@, k2) == lookup(old(m)@, k2),
{
    match find_key(m, k) {
        Some(i) => {
            let ghost before = m@;
            let (_, v) = m.remove(i);
            assert forall|k2: Seq<char>| k2 != k@ implies #[trigger] lookup(m@, k2) == lookup(
                before,
                k2,
            ) by {
                lemma_lookup_remove_other(before, i as int, k2);
            }
            Some(v)
        },
        None => None,
    }
}

/// The mapping under key `k`, or an empty mapping when the key is absent or its
/// value is not a mapping.
pub fn take_mapping(m: &mut Mapping, k: &str) -> (r: Mapping)
    ensures
        r@ == mapping_field(old(m)@, k@),
        forall|k2: Seq<char>| k2 != k@ ==> #[trigger] lookup(final(m)@, k2) == lookup(old(m)@, k2),
{
    match take_field(m, k) {
        Some(Value::Object(o)) => o,
        _ => Vec::new(),
    }
}

/// Whether `v` is the string `s`.
pub fn value_is_str(v: &Value, s: &str) -> (r: bool)
    ensures
        r == is_str(*v, s@),
{
    match v {
        Value::Str(t) => *t == s.to_owned(),
        _ => false,
    }
}

/// Whether the key `k` of `m` holds the string `s`.
pub fn has_str_field(m: &Mapping, k: &str, s: &str) -> (r: bool)
    ensures
        r == field_is_str(m@, k@, s@),
{
    match find_key(m, k) {
        Some(i) => value_is_str(&m[i].1, s),
        None => false,
    }
}

} // verus!
