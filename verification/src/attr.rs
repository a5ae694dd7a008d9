//! The attribute arguments of `#[java_bindgen(...)]`: `key = value` pairs
//! separated by commas.
use vstd::prelude::*;
use crate::text::{
    chars_eq, chars_of, lemma_split_nonempty, remove_char, remove_char_chars, split, split_chars,
    string_of, trim, trim_chars,
};

verus! {

/// The key of one `key = value` entry: the text before the first `=`, trimmed.
pub open spec fn entry_key(entry: Seq<char>) -> Seq<char> {
    trim(split(entry, '=')[0])
}

/// The value of one `key = value` entry: the text between the first and the
/// second `=` (nothing where there is no `=`), trimmed, without `"`.
pub open spec fn entry_value(entry: Seq<char>) -> Seq<char> {
    let kv = split(entry, '=');
    remove_char(trim(if kv.len() > 1 { kv[1] } else { Seq::<char>::empty() }), '"')
}

/// The map that inserting `pairs` in order into an empty map gives: a later
/// pair replaces an earlier one with the same key.
pub open spec fn map_of(pairs: Seq<(Seq<char>, Seq<char>)>) -> Map<Seq<char>, Seq<char>>
    decreases pairs.len(),
{
    if pairs.len() == 0 {
        Map::empty()
    } else {
        map_of(pairs.drop_last()).insert(pairs.last().0, pairs.last().1)
    }
}

/// The entries of an attribute text, each as its key and value.
pub open spec fn attr_pairs(attr: Seq<char>) -> Seq<(Seq<char>, Seq<char>)> {
    split(attr, ',').map_values(|e: Seq<char>| (entry_key(e), entry_value(e)))
}

/// The map of an attribute text: each comma-separated entry inserted in turn.
pub open spec fn attr_map(attr: Seq<char>) -> Map<Seq<char>, Seq<char>> {
    map_of(attr_pairs(attr))
}

/// Looking up `k` in `map_of(pairs)` finds the last pair with key `k`.
pub proof fn lemma_map_of_lookup(pairs: Seq<(Seq<char>, Seq<char>)>, k: Seq<char>, j: int)
    requires
        -1 <= j < pairs.len(),
        j >= 0 ==> pairs[j].0 == k,
        forall|t: int| j < t < pairs.len() ==> pairs[t].0 != k,
    ensures
        j >= 0 ==> map_of(pairs).contains_key(k) && map_of(pairs)[k] == pairs[j].1,
        j < 0 ==> !map_of(pairs).contains_key(k),
    decreases pairs.len(),
{
    if pairs.len() > 0 && j != pairs.len() - 1 {
        let front = pairs.drop_last();
        assert forall|t: int| j < t < front.len() implies front[t].0 != k by {
            assert(front[t] == pairs[t]);
        }
        lemma_map_of_lookup(front, k, j);
        assert(pairs.last().0 != k);
    }
}

/// A string-to-string map, as the pairs inserted into it in order.
pub struct AttrMap {
    pairs: Vec<(String, String)>,
}

impl AttrMap {
    pub closed spec fn pairs_view(&self) -> Seq<(Seq<char>, Seq<char>)> {
        self.pairs@.map_values(|p: (String, String)| (p.0@, p.1@))
    }
}

impl View for AttrMap {
    type V = Map<Seq<char>, Seq<char>>;

    closed spec fn view(&self) -> Map<Seq<char>, Seq<char>> {
        map_of(self.pairs_view())
    }
}

impl AttrMap {
    /// The empty map.
    pub fn new() -> (r: AttrMap)
        ensures
            r@ == Map::<Seq<char>, Seq<char>>::empty(),
    {
        let r = AttrMap { pairs: Vec::new() };
        assert(r.pairs_view() =~= Seq::empty());
        r
    }

    /// Maps `key` to `value`, replacing what `key` mapped to.
    pub fn insert(&mut self, key: String, value: String)
        ensures
            final(self)@ == old(self)@.insert(key@, value@),
    {
        let ghost kv = key@;
        let ghost vv = value@;
        self.pairs.push((key, value));
        assert(self.pairs_view().drop_last() =~= old(self).pairs_view());
        assert(self.pairs_view().last() == (kv, vv));
    }

    /// What `key` maps to.
    pub fn get(&self, key: &str) -> (r: Option<&String>)
        ensures
            r is Some <==> self@.contains_key(key@),
            r matches Some(v) ==> v@ == self@[key@],
    {
        let mut i: usize = self.pairs.len();
        while i > 0
            invariant
                i <= self.pairs@.len(),
                forall|t: int| i <= t < self.pairs@.len() ==> self.pairs_view()[t].0 != key@,
            decreases i,
        {
            i = i - 1;
            if str_eq(self.pairs[i].0.as_str(), key) {
                proof {
                    lemma_map_of_lookup(self.pairs_view(), key@, i as int);
                }
                return Some(&self.pairs[i].1);
            }
            assert(self.pairs_view()[i as int].0 == self.pairs@[i as int].0@);
        }
        proof {
            lemma_map_of_lookup(self.pairs_view(), key@, -1);
        }
        None
    }
}

/// Whether `a` and `b` hold the same characters.
fn str_eq(a: &str, b: &str) -> (r: bool)
    ensures
        r == (a@ == b@),
{
    let x = chars_of(a);
    let y = chars_of(b);
    chars_eq(x.as_slice(), y.as_slice())
}

/// The map of `key = value` entries in an attribute text such as
/// `package = "com.example", return = "String"`. Each entry is split at `=`;
/// the key is its first part, trimmed; the value its second part (or
/// nothing), trimmed and without `"`. A later entry with the same key wins.
pub fn parse_attr_to_map(attr: &str) -> (r: AttrMap)
    ensures
        r@ == attr_map(attr@),
{
    let mut map = AttrMap::new();
    let text = chars_of(attr);
    let entries = split_chars(text.as_slice(), ',');
    let ghost pieces = entries@.map_values(|p: Vec<char>| p@);
    let mut i: usize = 0;
    while i < entries.len()
        invariant
            i <= entries@.len(),
            pieces == split(attr@, ','),
            pieces == entries@.map_values(|p: Vec<char>| p@),
            pieces.len() == entries@.len(),
            map@ == map_of(attr_pairs(attr@).take(i as int)),
        decreases entries@.len() - i,
    {
        let entry = &entries[i];
        let key_value = split_chars(entry.as_slice(), '=');
        proof {
            lemma_split_nonempty(entry@, '=');
            assert(entries@.map_values(|p: Vec<char>| p@)[i as int] == entries@[i as int]@);
            assert(pieces[i as int] == entry@);
        }
        let key = trim_chars(key_value[0].as_slice());
        let empty: Vec<char> = Vec::new();
        let raw = if key_value.len() > 1 {
            &key_value[1]
        } else {
            &empty
        };
        let value = remove_char_chars(trim_chars(raw.as_slice()).as_slice(), '"');
        proof {
            let kv = split(entry@, '=');
            assert(key_value@.map_values(|p: Vec<char>| p@)[0] == key_value@[0]@);
            if key_value@.len() > 1 {
                assert(key_value@.map_values(|p: Vec<char>| p@)[1] == key_value@[1]@);
            }
            assert(raw@ == (if kv.len() > 1 { kv[1] } else { Seq::<char>::empty() }));
        }
        map.insert(string_of(key.as_slice()), string_of(value.as_slice()));
        i = i + 1;
        assert(attr_pairs(attr@).take(i as int).drop_last() == attr_pairs(attr@).take(i - 1));
    }
    assert(attr_pairs(attr@).take(entries@.len() as int) == attr_pairs(attr@));
    map
}

/// The arguments of `#[java_bindgen(...)]`.
pub struct JavaBindgenAttr {
    /// The Java package; empty where the attribute names none.
    pub package: String,
    /// The Java return type that the attribute sets, if any.
    pub return_type: Option<String>,
}

/// The `package` that an attribute map gives: its value, or nothing.
pub open spec fn attr_package(m: Map<Seq<char>, Seq<char>>) -> Seq<char> {
    if m.contains_key("package"@) {
        m["package"@]
    } else {
        Seq::<char>::empty()
    }
}

/// The return type that an attribute map gives: `return`, else `returns`.
pub open spec fn attr_returns(m: Map<Seq<char>, Seq<char>>) -> Option<Seq<char>> {
    if m.contains_key("return"@) {
        Some(m["return"@])
    } else if m.contains_key("returns"@) {
        Some(m["returns"@])
    } else {
        None
    }
}

impl JavaBindgenAttr {
    /// Reads `package` and `return` (or its plural) from the attribute text.
    pub fn parse_attr(attr: &str) -> (r: JavaBindgenAttr)
        ensures
            r.package@ == attr_package(attr_map(attr@)),
            r.return_type matches Some(s) ==> attr_returns(attr_map(attr@)) == Some(s@),
            r.return_type is None ==> attr_returns(attr_map(attr@)) is None,
    {
        let map = parse_attr_to_map(attr);
        let package = match map.get("package") {
            Some(p) => p.clone(),
            None => String::new(),
        };
        let return_type = match map.get("return") {
            Some(r) => Some(r.clone()),
            None => match map.get("returns") {
                Some(r) => Some(r.clone()),
                None => None,
            },
        };
        JavaBindgenAttr { package, return_type }
    }
}

} // verus!
