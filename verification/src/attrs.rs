//! The attribute accumulator: an append-only ordered list of named values,
//! built incrementally and serialized once into a single JSON object whose
//! fields stand in insertion order. Values are encoded when appended, so the
//! list holds pre-serialized pairs and serialization is pure assembly.
use vstd::prelude::*;
use vstd::string::{StrSliceExecFns, StringExecFns};

use crate::json::{json_quote, json_string_of};
use crate::numfmt::{dec_int, dec_nat, i64_string, u64_string};

verus! {

/// A serializable attribute value.
pub enum AttrValue {
    Text(String),
    Int(i64),
    Uint(u64),
    Bool(bool),
    Null,
}

/// The JSON text an attribute value is encoded to.
pub open spec fn encode_value(v: AttrValue) -> Seq<char> {
    match v {
        AttrValue::Text(s) => json_string_of(s@),
        AttrValue::Int(i) => dec_int(i as int),
        AttrValue::Uint(u) => dec_nat(u as nat),
        AttrValue::Bool(b) => if b {
            "true"@
        } else {
            "false"@
        },
        AttrValue::Null => "null"@,
    }
}

/// One serialized field of the attribute object: the quoted name, a colon,
/// and the encoded value.
pub open spec fn entry_text(p: (Seq<char>, Seq<char>)) -> Seq<char> {
    json_string_of(p.0) + seq![':'] + p.1
}

/// The comma-separated fields of the attribute object, in insertion order.
pub open spec fn attrs_body(ps: Seq<(Seq<char>, Seq<char>)>) -> Seq<char>
    decreases ps.len(),
{
    if ps.len() == 0 {
        Seq::empty()
    } else if ps.len() == 1 {
        entry_text(ps[0])
    } else {
        attrs_body(ps.drop_last()) + seq![','] + entry_text(ps.last())
    }
}

/// The serialized attribute object: the fields in insertion order between
/// braces. Zero pairs give the empty object.
pub open spec fn attrs_object(ps: Seq<(Seq<char>, Seq<char>)>) -> Seq<char> {
    seq!['{'] + attrs_body(ps) + seq!['}']
}

/// An ordered list of (name, encoded value) pairs. Appending returns a new
/// list, so a consumed accumulator is never left half-mutated; duplicate
/// names pass through unmodified.
pub struct AttrList {
    pairs: Vec<(String, String)>,
}

impl View for AttrList {
    type V = Seq<(Seq<char>, Seq<char>)>;

    /// The pairs in insertion order: raw name characters and encoded value
    /// text.
    closed spec fn view(&self) -> Seq<(Seq<char>, Seq<char>)> {
        self.pairs@.map_values(|p: (String, String)| (p.0@, p.1@))
    }
}

/// Encode an attribute value to its JSON text.
fn encode_value_exec(v: AttrValue) -> (r: String)
    ensures
        r@ == encode_value(v),
{
    match v {
        AttrValue::Text(s) => json_quote(s.as_str()),
        AttrValue::Int(i) => i64_string(i),
        AttrValue::Uint(u) => u64_string(u),
        AttrValue::Bool(b) => if b {
            String::from_str("true")
        } else {
            String::from_str("false")
        },
        AttrValue::Null => String::from_str("null"),
    }
}

impl AttrList {
    /// The empty accumulator.
    pub fn new() -> (r: AttrList)
        ensures
            r@ == Seq::<(Seq<char>, Seq<char>)>::empty(),
    {
        let r = AttrList { pairs: Vec::new() };
        proof {
            assert(r@ =~= Seq::<(Seq<char>, Seq<char>)>::empty());
        }
        r
    }

    /// How many pairs have been appended.
    pub fn len(&self) -> (n: usize)
        ensures
            n == self@.len(),
    {
        self.pairs.len()
    }

    /// A new accumulator holding all prior pairs and then `(name, value)`,
    /// preserving order. The value is encoded here, once.
    pub fn add_attr(self, name: &str, value: AttrValue) -> (r: AttrList)
        ensures
            r@ == self@.push((name@, encode_value(value))),
    {
        let enc = encode_value_exec(value);
        let mut pairs = self.pairs;
        pairs.push((String::from_str(name), enc));
        let r = AttrList { pairs };
        proof {
            assert(r@ =~= self@.push((name@, encode_value(value))));
        }
        r
    }

    /// Serialize the accumulated pairs as one JSON object, fields in
    /// insertion order.
    pub fn serialize(&self) -> (r: String)
        ensures
            r@ == attrs_object(self@),
    {
        proof {
            reveal_strlit("{");
            reveal_strlit("}");
            reveal_strlit(",");
            reveal_strlit(":");
        }
        let mut out = String::from_str("{");
        let n = self.pairs.len();
        let mut i: usize = 0;
        while i < n
            invariant
                n == self.pairs@.len(),
                n == self@.len(),
                i <= n,
                out@ == seq!['{'] + attrs_body(self@.take(i as int)),
                "{"@ == seq!['{'],
                "}"@ == seq!['}'],
                ","@ == seq![','],
                ":"@ == seq![':'],
                forall|j: int|
                    0 <= j < n ==> self@[j] == (self.pairs@[j].0@, self.pairs@[j].1@),
            decreases n - i,
        {
            if i > 0 {
                out.append(",");
            }
            out.append(json_quote(self.pairs[i].0.as_str()).as_str());
            out.append(":");
            out.append(self.pairs[i].1.as_str());
            proof {
                let ghost pre = self@.take(i as int);
                let ghost cur = self@.take(i as int + 1);
                assert(cur.drop_last() =~= pre);
                assert(cur.last() == self@[i as int]);
                if i == 0 {
                    assert(cur.len() == 1);
                    assert(cur[0] == self@[0]);
                    assert(out@ =~= seq!['{'] + attrs_body(cur));
                } else {
                    assert(attrs_body(cur) == attrs_body(pre) + seq![','] + entry_text(
                        self@[i as int],
                    ));
                    assert(out@ =~= seq!['{'] + attrs_body(cur));
                }
            }
            i = i + 1;
        }
        assert(self@.take(n as int) =~= self@);
        out.append("}");
        assert(out@ =~= attrs_object(self@));
        out
    }
}

/// Insertion order is preserved: appending a pair to the accumulated list
/// serializes as the previous fields, unchanged and in place, followed by
/// exactly one new field for the appended pair, however many appends came
/// before.
pub proof fn lemma_attrs_order(ps: Seq<(Seq<char>, Seq<char>)>, p: (Seq<char>, Seq<char>))
    ensures
        attrs_body(ps.push(p)) == if ps.len() == 0 {
            entry_text(p)
        } else {
            attrs_body(ps) + seq![','] + entry_text(p)
        },
{
    assert(ps.push(p).drop_last() =~= ps);
    assert(ps.push(p).last() == p);
}

} // verus!
