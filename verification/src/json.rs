//! JSON values, as the `serde_json` crate holds them.
//!
//! A `Value` is opaque to the proofs: what is known of one is which
//! constructor made it, and of what.
use vstd::prelude::*;

verus! {

#[verifier::external_type_specification]
#[verifier::external_body]
pub struct ExValue(serde_json::Value);

#[verifier::external_type_specification]
#[verifier::external_body]
#[verifier::reject_recursive_types(K)]
#[verifier::reject_recursive_types(V)]
pub struct ExObject<K, V>(serde_json::Map<K, V>);

/// The members of a JSON object, by name.
pub type Members = Map<Seq<char>, serde_json::Value>;

/// What a JSON object holds: its members by name.
pub uninterp spec fn members(object: serde_json::Map<String, serde_json::Value>) -> Members;

/// The JSON string of these characters: `serde_json::Value::from` a string.
pub uninterp spec fn text_value(chars: Seq<char>) -> serde_json::Value;

/// The JSON number of this count: `serde_json::Value::from` a `u64`.
pub uninterp spec fn number_value(number: u64) -> serde_json::Value;

/// The JSON `true` or `false`: `serde_json::Value::from` a `bool`.
pub uninterp spec fn flag_value(flag: bool) -> serde_json::Value;

/// The value is the JSON `null`, as `serde_json::Value::is_null` tells.
pub uninterp spec fn is_null_value(value: serde_json::Value) -> bool;

/// The JSON array of these items: `serde_json::Value::from` a vector.
pub uninterp spec fn list_value(items: Seq<serde_json::Value>) -> serde_json::Value;

/// The JSON object with these members: `serde_json::Value::from` a map.
pub uninterp spec fn object_value(members: Members) -> serde_json::Value;

/// `<serde_json::Value as Clone>::clone`: the copy is the same value.
pub assume_specification[ <serde_json::Value as Clone>::clone ](value: &serde_json::Value) -> (r:
    serde_json::Value)
    ensures
        r == *value,
;

/// `<serde_json::Value as From<&str>>::from`: the string value of these
/// characters.
#[verifier::external_body]
pub(crate) fn text(chars: &str) -> (r: serde_json::Value)
    ensures
        r == text_value(chars@),
{
    serde_json::Value::from(chars)
}

/// `<serde_json::Value as From<u64>>::from`: the number value of this count.
#[verifier::external_body]
pub(crate) fn number(count: u64) -> (r: serde_json::Value)
    ensures
        r == number_value(count),
{
    serde_json::Value::from(count)
}

/// `<serde_json::Value as From<bool>>::from`: the boolean value.
#[verifier::external_body]
pub(crate) fn flag(on: bool) -> (r: serde_json::Value)
    ensures
        r == flag_value(on),
{
    serde_json::Value::from(on)
}

/// `<serde_json::Value as From<()>>::from`: the null value.
#[verifier::external_body]
pub(crate) fn null() -> (r: serde_json::Value)
    ensures
        is_null_value(r),
{
    serde_json::Value::from(())
}

/// `<serde_json::Value as From<Vec<_>>>::from`: the array of the items, in order.
#[verifier::external_body]
pub(crate) fn list(items: Vec<serde_json::Value>) -> (r: serde_json::Value)
    ensures
        r == list_value(items@),
{
    serde_json::Value::from(items)
}

/// `serde_json::Map::new`: an object without members.
#[verifier::external_body]
pub(crate) fn empty_object() -> (r: serde_json::Map<String, serde_json::Value>)
    ensures
        members(r) == Members::empty(),
{
    serde_json::Map::new()
}

/// `serde_json::Map::insert`: the member of that name becomes the value, the
/// other members stay.
#[verifier::external_body]
pub(crate) fn put(
    object: &mut serde_json::Map<String, serde_json::Value>,
    name: &str,
    value: serde_json::Value,
)
    ensures
        members(*final(object)) == members(*old(object)).insert(name@, value),
{
    object.insert(name.to_owned(), value);
}

/// `<serde_json::Value as From<serde_json::Map<..>>>::from`: the object with
/// the members of the map.
#[verifier::external_body]
pub(crate) fn object(map: serde_json::Map<String, serde_json::Value>) -> (r: serde_json::Value)
    ensures
        r == object_value(members(map)),
{
    serde_json::Value::from(map)
}

/// `serde_json::Value::is_null`: true of the null value and of no other.
#[verifier::external_body]
pub(crate) fn is_null(value: &serde_json::Value) -> (r: bool)
    ensures
        r == is_null_value(*value),
{
    value.is_null()
}

/// `serde_json::Value::as_object`: the members, where the value is an object.
#[verifier::external_body]
pub(crate) fn as_object(value: &serde_json::Value) -> (r: Option<
    &serde_json::Map<String, serde_json::Value>,
>)
    ensures
        forall|m: Members|
            #![trigger object_value(m)]
            *value == object_value(m) <==> (r is Some && members(*r->0) == m),
{
    value.as_object()
}

/// `serde_json::Map::is_empty`: the object has no member.
#[verifier::external_body]
pub(crate) fn has_no_members(object: &serde_json::Map<String, serde_json::Value>) -> (r: bool)
    ensures
        r == (members(*object) == Members::empty()),
{
    object.is_empty()
}

/// `serde_json::Map::get`: the member of that name, where there is one.
#[verifier::external_body]
pub(crate) fn member<'a>(
    object: &'a serde_json::Map<String, serde_json::Value>,
    name: &str,
) -> (r: Option<&'a serde_json::Value>)
    ensures
        r == (if members(*object).contains_key(name@) {
            Some(&members(*object)[name@])
        } else {
            None
        }),
{
    object.get(name)
}

/// `serde_json::Value::as_str`: the characters, where the value is a string.
#[verifier::external_body]
pub(crate) fn as_text(value: &serde_json::Value) -> (r: Option<&str>)
    ensures
        forall|s: Seq<char>|
            #![trigger text_value(s)]
            *value == text_value(s) <==> (r is Some && r->0@ == s),
{
    value.as_str()
}

/// `serde_json::Value::as_u64`: the number, where the value is a count.
#[verifier::external_body]
pub(crate) fn as_number(value: &serde_json::Value) -> (r: Option<u64>)
    ensures
        forall|n: u64|
            #![trigger number_value(n)]
            *value == number_value(n) <==> r == Some(n),
{
    value.as_u64()
}

/// What `serde_json::to_string_pretty` makes of a value: its text over several
/// lines, or its error, displayed.
pub uninterp spec fn pretty_text(value: serde_json::Value) -> Result<Seq<char>, Seq<char>>;

/// A text or what is said in its place, as characters.
pub open spec fn wording(r: Result<String, String>) -> Result<Seq<char>, Seq<char>> {
    match r {
        Ok(text) => Ok(text@),
        Err(error) => Err(error@),
    }
}

/// `serde_json::to_string_pretty`: a function of the value alone. How the text is
/// laid out is not stated.
#[verifier::external_body]
pub(crate) fn pretty(value: &serde_json::Value) -> (r: Result<String, String>)
    ensures
        wording(r) == pretty_text(*value),
{
    serde_json::to_string_pretty(value).map_err(|error| error.to_string())
}

/// The value is nothing at all: null, or an object without members.
pub open spec fn is_blank(value: serde_json::Value) -> bool {
    is_null_value(value) || value == object_value(Map::empty())
}

/// Null, or an object without members.
pub fn blank(value: &serde_json::Value) -> (r: bool)
    ensures
        r == is_blank(*value),
{
    if is_null(value) {
        return true;
    }
    let ghost none = object_value(Members::empty());
    match as_object(value) {
        Some(object) => has_no_members(object),
        None => false,
    }
}

/// The value is an object whose member of that name is the string.
pub open spec fn has_text_member(
    value: serde_json::Value,
    name: Seq<char>,
    chars: Seq<char>,
) -> bool {
    exists|m: Members|
        value == #[trigger] object_value(m) && m.contains_key(name) && m[name] == text_value(chars)
}

/// The member of that name is the string `chars`.
pub fn member_is(value: &serde_json::Value, name: &str, chars: &str) -> (r: bool)
    ensures
        r == has_text_member(*value, name@, chars@),
{
    match as_object(value) {
        Some(object) => {
            let ghost m = members(*object);
            let ghost whole = object_value(m);
            match member(object, name) {
                Some(found) => {
                    let ghost wanted = text_value(chars@);
                    match as_text(found) {
                        Some(found_chars) => crate::text::same(found_chars, chars),
                        None => false,
                    }
                },
                None => false,
            }
        },
        None => false,
    }
}

/// The object has this many members.
pub open spec fn counted(m: Members, n: nat) -> bool {
    m.dom().finite() && m.dom().len() == n
}

/// `serde_json::Map::len`: how many members the object has.
#[verifier::external_body]
pub(crate) fn member_count(object: &serde_json::Map<String, serde_json::Value>) -> (r: usize)
    ensures
        counted(members(*object), r as nat),
{
    object.len()
}

/// One member, and it has this name: there is no other.
proof fn lemma_only_member(m: Members, name: Seq<char>)
    requires
        counted(m, 1),
        m.contains_key(name),
    ensures
        m =~= Members::empty().insert(name, m[name]),
{
    assert(m.dom().remove(name).len() == 0);
    assert(m.dom().remove(name) =~= Set::<Seq<char>>::empty());
    assert forall|k: Seq<char>| m.contains_key(k) implies k == name by {
        if k != name {
            assert(m.dom().remove(name).contains(k));
        }
    }
}

/// `serde_json::Value::as_array`: the items, where the value is an array. An
/// array is no object.
#[verifier::external_body]
pub(crate) fn as_list(value: &serde_json::Value) -> (r: Option<&Vec<serde_json::Value>>)
    ensures
        forall|items: Seq<serde_json::Value>|
            #![trigger list_value(items)]
            *value == list_value(items) <==> (r is Some && r->0@ == items),
        r is Some ==> forall|m: Members| *value != #[trigger] object_value(m),
{
    value.as_array()
}

/// The value is a record with this number as its only field: an object with the
/// one member, or an array with the one item.
pub open spec fn is_record_of(value: serde_json::Value, name: Seq<char>, n: u64) -> bool {
    ||| value == object_value(Members::empty().insert(name, number_value(n)))
    ||| value == list_value(seq![number_value(n)])
}

fn only_member(
    object: &serde_json::Map<String, serde_json::Value>,
    name: &str,
) -> (r: Option<u64>)
    ensures
        forall|n: u64|
            r == Some(n) <==> members(*object) == #[trigger] Members::empty().insert(
                name@,
                number_value(n),
            ),
{
    let ghost m = members(*object);
    if member_count(object) != 1 {
        proof {
            assert forall|n: u64| m != #[trigger] Members::empty().insert(name@, number_value(n)) by {
                let one = Members::empty().insert(name@, number_value(n));
                assert(one.dom() =~= Set::<Seq<char>>::empty().insert(name@));
                assert(counted(one, 1));
            }
        }
        return None;
    }
    let found = match member(object, name) {
        Some(found) => found,
        None => {
            proof {
                assert forall|n: u64| m != #[trigger] Members::empty().insert(
                    name@,
                    number_value(n),
                ) by {
                    assert(Members::empty().insert(name@, number_value(n)).contains_key(name@));
                }
            }
            return None;
        },
    };
    let r = as_number(found);
    proof {
        assert forall|n: u64| r == Some(n) <==> m == #[trigger] Members::empty().insert(
            name@,
            number_value(n),
        ) by {
            let one = Members::empty().insert(name@, number_value(n));
            if r == Some(n) {
                assert(*found == number_value(n));
                lemma_only_member(m, name@);
                assert(m =~= one);
            }
            if m == one {
                assert(*found == number_value(n));
            }
        }
    }
    r
}

fn only_item(items: &Vec<serde_json::Value>) -> (r: Option<u64>)
    ensures
        forall|n: u64| r == Some(n) <==> items@ == seq![#[trigger] number_value(n)],
{
    if items.len() != 1 {
        return None;
    }
    let r = as_number(&items[0]);
    proof {
        assert forall|n: u64| r == Some(n) <==> items@ == seq![#[trigger] number_value(n)] by {
            if r == Some(n) {
                assert(items@ =~= seq![number_value(n)]);
            }
            if items@ == seq![number_value(n)] {
                assert(items@[0] == number_value(n));
            }
        }
    }
    r
}

/// The number that is the only field of a record, under this name.
pub fn only_number(value: &serde_json::Value, name: &str) -> (r: Option<u64>)
    ensures
        forall|n: u64| r == Some(n) <==> #[trigger] is_record_of(*value, name@, n),
{
    match as_list(value) {
        Some(items) => {
            let r = only_item(items);
            proof {
                assert forall|n: u64| r == Some(n) <==> #[trigger] is_record_of(
                    *value,
                    name@,
                    n,
                ) by {
                    let one = object_value(Members::empty().insert(name@, number_value(n)));
                    let list = list_value(seq![number_value(n)]);
                }
            }
            r
        },
        None => {
            let r = match as_object(value) {
                Some(object) => only_member(object, name),
                None => None,
            };
            proof {
                assert forall|n: u64| r == Some(n) <==> #[trigger] is_record_of(
                    *value,
                    name@,
                    n,
                ) by {
                    let one = object_value(Members::empty().insert(name@, number_value(n)));
                    let list = list_value(seq![number_value(n)]);
                }
            }
            r
        },
    }
}

}
