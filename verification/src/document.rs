use vstd::prelude::*;

use crate::strutil::{quote, spec_quote, str_eq};

verus! {

/// One value inside a parsed table, as this library models it: a TOML
/// string, a TOML boolean, or any other value carried as its serialized
/// text.
#[derive(Debug, Clone)]
pub enum Leaf {
    Str(String),
    Bool(bool),
    Raw(String),
}

/// The mathematical shape of a `Leaf`.
pub enum LeafV {
    Str(Seq<char>),
    Bool(bool),
    Raw(Seq<char>),
}

impl View for Leaf {
    type V = LeafV;

    open spec fn view(&self) -> LeafV {
        match self {
            Leaf::Str(s) => LeafV::Str(s@),
            Leaf::Bool(b) => LeafV::Bool(*b),
            Leaf::Raw(s) => LeafV::Raw(s@),
        }
    }
}

/// The views of a list of named fields.
pub open spec fn entries_view(e: Seq<(String, Leaf)>) -> Seq<(Seq<char>, LeafV)> {
    e.map_values(|kv: (String, Leaf)| (kv.0@, kv.1@))
}

/// First value bound to `key`, if any.
pub open spec fn spec_find(e: Seq<(Seq<char>, LeafV)>, key: Seq<char>) -> Option<LeafV>
    decreases e.len(),
{
    if e.len() == 0 {
        None
    } else if e[0].0 == key {
        Some(e[0].1)
    } else {
        spec_find(e.drop_first(), key)
    }
}

/// Looks a key up in a list of fields, first match.
pub fn find_field<'a>(fields: &'a Vec<(String, Leaf)>, key: &str) -> (r: Option<&'a Leaf>)
    ensures
        match r {
            Some(l) => spec_find(entries_view(fields@), key@) == Some(l@),
            None => spec_find(entries_view(fields@), key@) is None,
        },
{
    let ghost e = entries_view(fields@);
    let n = fields.len();
    let mut i: usize = 0;
    proof {
        assert(e.skip(0) =~= e);
    }
    while i < n
        invariant
            n == fields.len(),
            i <= n,
            e == entries_view(fields@),
            e.len() == n,
            spec_find(e, key@) == spec_find(e.skip(i as int), key@),
        decreases n - i,
    {
        if str_eq(fields[i].0.as_str(), key) {
            return Some(&fields[i].1);
        }
        proof {
            assert(e.skip(i as int).drop_first() =~= e.skip(i as int + 1));
        }
        i = i + 1;
    }
    None
}

/// No two fields share a key.
pub open spec fn distinct_keys(e: Seq<(Seq<char>, LeafV)>) -> bool {
    forall|i: int, j: int| 0 <= i < j < e.len() ==> (#[trigger] e[i]).0 != (#[trigger] e[j]).0
}

/// What `parse_top` answers for a document text. The answer is fixed by
/// the text alone: parsing is deterministic and the backing table keeps
/// its keys in a fixed order.
pub uninterp spec fn top_of(text: Seq<char>) -> Option<Seq<(Seq<char>, LeafV)>>;

/// What `parse_fields` answers for one specification text.
pub uninterp spec fn fields_of(spec_text: Seq<char>) -> Option<Seq<(Seq<char>, LeafV)>>;

/// Relies on toml::from_str: parses a TOML document and hands back its
/// top-level entries. A string or boolean value comes out as itself;
/// every other value is carried as its serialized text, which
/// toml::Value's Display gives in inline form. The table holds one
/// value per key, so the entries' keys are distinct.
#[verifier::external_body]
pub fn parse_top(text: &str) -> (r: Option<Vec<(String, Leaf)>>)
    ensures
        match r {
            Some(e) => top_of(text@) == Some(entries_view(e@)) && distinct_keys(entries_view(e@)),
            None => top_of(text@) is None,
        },
{
    match toml::from_str::<toml::Table>(text) {
        Err(_) => None,
        Ok(t) => Some(t.iter().map(|(k, v)| (k.clone(), match v {
            toml::Value::String(s) => Leaf::Str(s.clone()),
            toml::Value::Boolean(b) => Leaf::Bool(*b),
            other => Leaf::Raw(other.to_string()),
        })).collect()),
    }
}

/// Relies on toml::from_str and toml::Value's Display: reads the text of
/// one specification (the value side of a `dep = ...` line) back as a
/// table of fields, when the value is an inline table; any other shape
/// has no fields. The table holds one value per key, so the fields'
/// keys are distinct.
#[verifier::external_body]
pub fn parse_fields(spec_text: &str) -> (r: Option<Vec<(String, Leaf)>>)
    ensures
        match r {
            Some(e) => fields_of(spec_text@) == Some(entries_view(e@)) && distinct_keys(
                entries_view(e@),
            ),
            None => fields_of(spec_text@) is None,
        },
{
    let doc = format!("dep = {}", spec_text);
    match toml::from_str::<toml::Table>(&doc) {
        Ok(t) => match t.get("dep") {
            Some(toml::Value::Table(t2)) => Some(t2.iter().map(|(k, v)| (k.clone(), match v {
                toml::Value::String(s) => Leaf::Str(s.clone()),
                toml::Value::Boolean(b) => Leaf::Bool(*b),
                other => Leaf::Raw(other.to_string()),
            })).collect()),
            _ => None,
        },
        Err(_) => None,
    }
}

/// The serialized text of one field value.
pub open spec fn spec_leaf_text(l: LeafV) -> Seq<char> {
    match l {
        LeafV::Str(s) => spec_quote(s),
        LeafV::Bool(b) => if b {
            "true"@
        } else {
            "false"@
        },
        LeafV::Raw(s) => s,
    }
}

/// The text of one `key = value` binding.
pub open spec fn spec_field_text(kv: (Seq<char>, LeafV)) -> Seq<char> {
    kv.0 + " = "@ + spec_leaf_text(kv.1)
}

/// The comma-separated bindings of an inline table, in order.
pub open spec fn spec_fields_body(fields: Seq<(Seq<char>, LeafV)>) -> Seq<char>
    decreases fields.len(),
{
    if fields.len() == 0 {
        Seq::empty()
    } else if fields.len() == 1 {
        spec_field_text(fields[0])
    } else {
        spec_fields_body(fields.drop_last()) + ", "@ + spec_field_text(fields.last())
    }
}

/// The full inline-table text holding `fields`, in order.
pub open spec fn spec_fields_text(fields: Seq<(Seq<char>, LeafV)>) -> Seq<char> {
    "{ "@ + spec_fields_body(fields) + " }"@
}

/// Writes a list of fields back as inline-table text, every field in
/// place and in order.
pub fn serialize_fields(fields: &Vec<(String, Leaf)>) -> (r: String)
    ensures
        r@ == spec_fields_text(entries_view(fields@)),
{
    let ghost e = entries_view(fields@);
    let mut r = String::from_str("{ ");
    let n = fields.len();
    let mut i: usize = 0;
    proof {
        assert(e.take(0) =~= Seq::<(Seq<char>, LeafV)>::empty());
        assert(r@ =~= "{ "@ + spec_fields_body(e.take(0)));
    }
    while i < n
        invariant
            n == fields.len(),
            i <= n,
            e == entries_view(fields@),
            e.len() == n,
            r@ == "{ "@ + spec_fields_body(e.take(i as int)),
        decreases n - i,
    {
        if i > 0 {
            r.append(", ");
        }
        r.append(fields[i].0.as_str());
        r.append(" = ");
        match &fields[i].1 {
            Leaf::Str(s) => {
                let q = quote(s.as_str());
                r.append(q.as_str());
            },
            Leaf::Bool(b) => {
                if *b {
                    r.append("true");
                } else {
                    r.append("false");
                }
            },
            Leaf::Raw(s) => {
                r.append(s.as_str());
            },
        }
        proof {
            assert(e.take(i as int + 1).drop_last() =~= e.take(i as int));
            assert(e.take(i as int + 1).last() == e[i as int]);
            assert(r@ =~= "{ "@ + spec_fields_body(e.take(i as int + 1)));
        }
        i = i + 1;
    }
    proof {
        assert(e.take(n as int) =~= e);
    }
    r.append(" }");
    r
}

} // verus!
