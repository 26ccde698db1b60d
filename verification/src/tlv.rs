use vstd::prelude::*;

verus! {

/// A decoded Matter TLV value, as a device reports it.
#[derive(Debug)]
pub enum TlvValue {
    Int(u64),
    Bool(bool),
    String(String),
    OctetString(Vec<u8>),
    List(Vec<TlvItem>),
    Nil,
    Invalid,
}

/// A decoded TLV element: a context tag and a value.
#[derive(Debug)]
pub struct TlvItem {
    pub tag: u8,
    pub value: TlvValue,
}

/// The first element of `items` with tag `tag`.
pub open spec fn first_with_tag(items: Seq<TlvItem>, tag: u8) -> Option<TlvItem>
    decreases items.len(),
{
    if items.len() == 0 {
        None
    } else if items[0].tag == tag {
        Some(items[0])
    } else {
        first_with_tag(items.drop_first(), tag)
    }
}

/// The value found by following `path` from `v`: at each step, the first
/// element of the current list that has the next tag.
pub open spec fn value_at(v: TlvValue, path: Seq<u8>) -> Option<TlvValue>
    decreases path.len(),
{
    if path.len() == 0 {
        Some(v)
    } else {
        match v {
            TlvValue::List(items) => match first_with_tag(items@, path[0]) {
                Some(it) => value_at(it.value, path.drop_first()),
                None => None,
            },
            _ => None,
        }
    }
}

/// The integer found by following `path` from `v`, if the value there is an integer.
pub open spec fn int_at(v: TlvValue, path: Seq<u8>) -> Option<u64> {
    match value_at(v, path) {
        Some(TlvValue::Int(i)) => Some(i),
        _ => None,
    }
}

fn first_with_tag_exec(items: &Vec<TlvItem>, tag: u8) -> (r: Option<&TlvItem>)
    ensures
        match first_with_tag(items@, tag) {
            Some(it) => r == Some(&it),
            None => r is None,
        },
{
    assert(items@.subrange(0, items@.len() as int) =~= items@);
    let mut i: usize = 0;
    while i < items.len()
        invariant
            i <= items.len(),
            first_with_tag(items@, tag) == first_with_tag(items@.subrange(i as int, items@.len() as int), tag),
        decreases items.len() - i,
    {
        assert(items@.subrange(i as int, items@.len() as int).drop_first() =~= items@.subrange(
            i + 1,
            items@.len() as int,
        ));
        if items[i].tag == tag {
            return Some(&items[i]);
        }
        i = i + 1;
    }
    None
}

fn int_at_from(v: &TlvValue, path: &Vec<u8>, start: usize) -> (r: Option<u64>)
    requires
        start <= path@.len(),
    ensures
        r == int_at(*v, path@.subrange(start as int, path@.len() as int)),
    decreases path@.len() - start,
{
    let ghost rest = path@.subrange(start as int, path@.len() as int);
    if start == path.len() {
        return match v {
            TlvValue::Int(i) => Some(*i),
            _ => None,
        };
    }
    assert(rest.drop_first() =~= path@.subrange(start + 1, path@.len() as int));
    match v {
        TlvValue::List(items) => match first_with_tag_exec(items, path[start]) {
            Some(it) => int_at_from(&it.value, path, start + 1),
            None => None,
        },
        _ => None,
    }
}

impl TlvItem {
    /// The integer at `path` below this element, as `TlvItem::get_int` of
    /// the Matter library finds it: each tag selects the first child with
    /// that tag, and the value reached must be an integer.
    pub fn get_int(&self, path: &Vec<u8>) -> (r: Option<u64>)
        ensures
            r == int_at(self.value, path@),
    {
        assert(path@.subrange(0, path@.len() as int) =~= path@);
        int_at_from(&self.value, path, 0)
    }
}

/// The integers among `items`, in order; other elements are skipped.
pub open spec fn ints_of(items: Seq<TlvItem>) -> Seq<u64>
    decreases items.len(),
{
    if items.len() == 0 {
        Seq::empty()
    } else {
        let rest = ints_of(items.drop_last());
        match items.last().value {
            TlvValue::Int(i) => rest.push(i),
            _ => rest,
        }
    }
}

/// The integers of a list value, in order; `None` for a value that is not a list.
pub open spec fn list_ints(v: TlvValue) -> Option<Seq<u64>> {
    match v {
        TlvValue::List(items) => Some(ints_of(items@)),
        _ => None,
    }
}

/// The integer elements of a list value, in order; `None` for a value that is not a list.
pub fn int_elements(v: &TlvValue) -> (r: Option<Vec<u64>>)
    ensures
        match list_ints(*v) {
            Some(s) => r is Some && r->0@ == s,
            None => r is None,
        },
{
    match v {
        TlvValue::List(items) => {
            let mut out: Vec<u64> = Vec::new();
            let mut i: usize = 0;
            while i < items.len()
                invariant
                    i <= items.len(),
                    out@ == ints_of(items@.subrange(0, i as int)),
                decreases items.len() - i,
            {
                assert(items@.subrange(0, i + 1).drop_last() =~= items@.subrange(0, i as int));
                match &items[i].value {
                    TlvValue::Int(x) => {
                        out.push(*x);
                    },
                    _ => {},
                }
                i = i + 1;
            }
            assert(items@.subrange(0, items@.len() as int) =~= items@);
            Some(out)
        },
        _ => None,
    }
}

/// The Matter library's decoded TLV value, which its codec and its debug
/// rendering take.
#[verifier::external_type_specification]
#[verifier::external_body]
pub struct ExTlvItemValue(matc::tlv::TlvItemValue);

/// The Matter library's form of a TLV value: each variant becomes the
/// library's variant of the same name, with its fields moved over.
#[verifier::external_body]
pub(crate) fn matc_value(v: &TlvValue) -> matc::tlv::TlvItemValue {
    match v {
        TlvValue::Int(i) => matc::tlv::TlvItemValue::Int(*i),
        TlvValue::Bool(b) => matc::tlv::TlvItemValue::Bool(*b),
        TlvValue::String(s) => matc::tlv::TlvItemValue::String(s.clone()),
        TlvValue::OctetString(o) => matc::tlv::TlvItemValue::OctetString(o.clone()),
        TlvValue::List(items) => matc::tlv::TlvItemValue::List(
            items.iter().map(|i| matc::tlv::TlvItem { tag: i.tag, value: matc_value(&i.value) }).collect(),
        ),
        TlvValue::Nil => matc::tlv::TlvItemValue::Nil(),
        TlvValue::Invalid => matc::tlv::TlvItemValue::Invalid(),
    }
}

/// The JSON text that the Matter library's cluster codec decodes a value of
/// attribute `attr_id` of cluster `cluster_id` to.
pub uninterp spec fn attribute_json(cluster_id: u32, attr_id: u32, v: TlvValue) -> Seq<char>;

/// Calls `matc::clusters::codec::decode_attribute_json`, which picks the
/// decoder of the cluster and attribute and renders the decoded value as
/// JSON text (or a JSON error object). The contract names its result, which
/// depends on the three arguments alone.
#[verifier::external_body]
pub(crate) fn decode_attribute_json(cluster_id: u32, attr_id: u32, v: &TlvValue) -> (r: String)
    ensures
        r@ == attribute_json(cluster_id, attr_id, *v),
{
    matc::clusters::codec::decode_attribute_json(cluster_id, attr_id, &matc_value(v))
}

/// The Matter library's debug rendering of a value, such as `Int(7)`.
pub uninterp spec fn value_debug_text(v: TlvValue) -> Seq<char>;

/// Calls the Matter library's `Debug` rendering of a TLV value. The
/// contract names its result, which depends on the value alone.
#[verifier::external_body]
pub(crate) fn debug_text(v: &TlvValue) -> (r: String)
    ensures
        r@ == value_debug_text(*v),
{
    format!("{:?}", matc_value(v))
}

/// The Matter library's multi-line debug rendering of an element.
pub uninterp spec fn item_pretty_text(item: TlvItem) -> Seq<char>;

/// Calls the Matter library's alternate (multi-line) `Debug` rendering of a
/// TLV element. The contract names its result, which depends on the
/// element alone.
#[verifier::external_body]
pub(crate) fn pretty_text(item: &TlvItem) -> (r: String)
    ensures
        r@ == item_pretty_text(*item),
{
    format!("{:#?}", matc::tlv::TlvItem { tag: item.tag, value: matc_value(&item.value) })
}

} // verus!
