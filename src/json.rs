use vstd::prelude::*;

verus! {

/// A JSON document as a tagged tree.
///
/// Integers are held exactly: `Int` for those that fit an `i64`, `UInt` for
/// larger non-negative ones. Any other number is kept as its decimal text.
/// An object is the sequence of its members in order.
#[derive(Debug, PartialEq)]
pub enum Json {
    Null,
    Bool(bool),
    Int(i64),
    UInt(u64),
    Decimal(String),
    Str(String),
    Array(Vec<Json>),
    Object(Vec<(String, Json)>),
}

/// Index of the first member of `members` named `key`.
pub open spec fn first_member(members: Seq<(String, Json)>, key: Seq<char>) -> Option<int>
    decreases members.len(),
{
    if members.len() == 0 {
        None
    } else if members[0].0@ == key {
        Some(0)
    } else {
        match first_member(members.subrange(1, members.len() as int), key) {
            Some(i) => Some(i + 1),
            None => None,
        }
    }
}

/// The value of the first member named `key` of an object; `None` for a value
/// that is not an object or has no such member.
pub open spec fn member(j: Json, key: Seq<char>) -> Option<Json> {
    match j {
        Json::Object(members) => match first_member(members@, key) {
            Some(i) => Some(members@[i].1),
            None => None,
        },
        _ => None,
    }
}

/// The integer a JSON value stands for, if it is an integer.
pub open spec fn int_value(j: Json) -> Option<int> {
    match j {
        Json::Int(i) => Some(i as int),
        Json::UInt(u) => Some(u as int),
        _ => None,
    }
}

proof fn lemma_first_member(members: Seq<(String, Json)>, key: Seq<char>)
    ensures
        match first_member(members, key) {
            Some(i) => 0 <= i < members.len() && members[i].0@ == key
                && forall|k: int| 0 <= k < i ==> members[k].0@ != key,
            None => forall|k: int| 0 <= k < members.len() ==> members[k].0@ != key,
        },
    decreases members.len(),
{
    if members.len() > 0 {
        let rest = members.subrange(1, members.len() as int);
        lemma_first_member(rest, key);
        assert forall|k: int| 1 <= k < members.len() implies members[k] == rest[k - 1] by {}
    }
}

/// Finds the first member of `members` whose name is `key`.
pub fn find_member(members: &Vec<(String, Json)>, key: &String) -> (r: Option<usize>)
    ensures
        match r {
            Some(i) => first_member(members@, key@) == Some(i as int),
            None => first_member(members@, key@) is None,
        },
{
    proof {
        lemma_first_member(members@, key@);
    }
    let mut i: usize = 0;
    while i < members.len()
        invariant
            0 <= i <= members.len(),
            forall|k: int| 0 <= k < i ==> members@[k].0@ != key@,
            match first_member(members@, key@) {
                Some(f) => 0 <= f < members@.len() && members@[f].0@ == key@
                    && forall|k: int| 0 <= k < f ==> members@[k].0@ != key@,
                None => forall|k: int| 0 <= k < members@.len() ==> members@[k].0@ != key@,
            },
        decreases members.len() - i,
    {
        if members[i].0 == *key {
            return Some(i);
        }
        i = i + 1;
    }
    None
}

/// The value of the first member named `key`, when `j` is an object that has one.
pub fn get_member<'a>(j: &'a Json, key: &String) -> (r: Option<&'a Json>)
    ensures
        match r {
            Some(v) => member(*j, key@) == Some(*v),
            None => member(*j, key@) is None,
        },
{
    match j {
        Json::Object(members) => match find_member(members, key) {
            Some(i) => {
                proof {
                    lemma_first_member(members@, key@);
                }
                Some(&members[i].1)
            },
            None => None,
        },
        _ => None,
    }
}

} // verus!
