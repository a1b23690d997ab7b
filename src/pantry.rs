use vstd::prelude::*;
use vstd::string::*;
use crate::error::PantryError;
use crate::json::{get_member, int_value, member, Json};

verus! {

/// One basket of a pantry, as the service lists it.
pub struct Basket {
    pub name: String,
    /// Time to live, in the service's own unit.
    pub ttl: i32,
}

/// Details of a pantry, as the service reports them.
pub struct GetPantryResponse {
    pub name: String,
    pub description: String,
    pub notifications: bool,
    pub percent_full: i64,
    pub baskets: Vec<Basket>,
}

/// The fields of a pantry that an update may change.
pub struct UpdatePantryRequest {
    pub name: String,
    pub description: String,
}

/// The text of member `key` of `j`, when it is a string.
pub open spec fn str_member(j: Json, key: Seq<char>) -> Option<Seq<char>> {
    match member(j, key) {
        Some(Json::Str(s)) => Some(s@),
        _ => None,
    }
}

/// The value of member `key` of `j`, when it is a boolean.
pub open spec fn bool_member(j: Json, key: Seq<char>) -> Option<bool> {
    match member(j, key) {
        Some(Json::Bool(b)) => Some(b),
        _ => None,
    }
}

/// The value of member `key` of `j`, when it is an integer.
pub open spec fn int_member(j: Json, key: Seq<char>) -> Option<int> {
    match member(j, key) {
        Some(v) => int_value(v),
        None => None,
    }
}

/// `j` can be read as a [`Basket`].
pub open spec fn basket_decodable(j: Json) -> bool {
    &&& str_member(j, "name"@) is Some
    &&& fits_i32(int_member(j, "ttl"@))
}

/// `v` is an integer that fits an `i32`.
pub open spec fn fits_i32(v: Option<int>) -> bool {
    match v {
        Some(t) => i32::MIN <= t <= i32::MAX,
        None => false,
    }
}

/// `b` is what `j` reads as.
pub open spec fn decodes_basket(j: Json, b: Basket) -> bool {
    &&& basket_decodable(j)
    &&& str_member(j, "name"@) == Some(b.name@)
    &&& int_member(j, "ttl"@) == Some(b.ttl as int)
}

/// `j` can be read as a [`GetPantryResponse`]: an object with a string `name`
/// and `description`, a boolean `notifications`, an integer `percentFull` that
/// fits an `i64`, and an array `baskets` of readable baskets. Other members are
/// ignored.
pub open spec fn pantry_decodable(j: Json) -> bool {
    &&& str_member(j, "name"@) is Some
    &&& str_member(j, "description"@) is Some
    &&& bool_member(j, "notifications"@) is Some
    &&& fits_i64(int_member(j, "percentFull"@))
    &&& baskets_decodable(member(j, "baskets"@))
}

/// `v` is an integer that fits an `i64`.
pub open spec fn fits_i64(v: Option<int>) -> bool {
    match v {
        Some(p) => i64::MIN <= p <= i64::MAX,
        None => false,
    }
}

/// `v` is an array of readable baskets.
pub open spec fn baskets_decodable(v: Option<Json>) -> bool {
    match v {
        Some(Json::Array(items)) => forall|k: int|
            0 <= k < items@.len() ==> basket_decodable(#[trigger] items@[k]),
        _ => false,
    }
}

/// `p` is what `j` reads as.
pub open spec fn decodes_pantry(j: Json, p: GetPantryResponse) -> bool {
    &&& pantry_decodable(j)
    &&& str_member(j, "name"@) == Some(p.name@)
    &&& str_member(j, "description"@) == Some(p.description@)
    &&& bool_member(j, "notifications"@) == Some(p.notifications)
    &&& int_member(j, "percentFull"@) == Some(p.percent_full as int)
    &&& member(j, "baskets"@) matches Some(Json::Array(items))
        && p.baskets@.len() == items@.len()
        && forall|k: int| 0 <= k < items@.len() ==> decodes_basket(#[trigger] items@[k], p.baskets@[k])
}

fn read_str(j: &Json, key: &String) -> (r: Option<String>)
    ensures
        match r {
            Some(s) => str_member(*j, key@) == Some(s@),
            None => str_member(*j, key@) is None,
        },
{
    match get_member(j, key) {
        Some(Json::Str(s)) => Some(s.clone()),
        _ => None,
    }
}

fn read_bool(j: &Json, key: &String) -> (r: Option<bool>)
    ensures
        r == bool_member(*j, key@),
{
    match get_member(j, key) {
        Some(Json::Bool(b)) => Some(*b),
        _ => None,
    }
}

fn read_i64(j: &Json, key: &String) -> (r: Option<i64>)
    ensures
        match r {
            Some(v) => int_member(*j, key@) == Some(v as int),
            None => !fits_i64(int_member(*j, key@)),
        },
{
    match get_member(j, key) {
        Some(Json::Int(i)) => Some(*i),
        Some(Json::UInt(u)) => if *u <= i64::MAX as u64 {
            Some(*u as i64)
        } else {
            None
        },
        _ => None,
    }
}

fn read_i32(j: &Json, key: &String) -> (r: Option<i32>)
    ensures
        match r {
            Some(v) => int_member(*j, key@) == Some(v as int),
            None => !fits_i32(int_member(*j, key@)),
        },
{
    match read_i64(j, key) {
        Some(v) => if i32::MIN as i64 <= v && v <= i32::MAX as i64 {
            Some(v as i32)
        } else {
            None
        },
        None => None,
    }
}

/// Reads one basket of a pantry's listing.
pub fn decode_basket(j: &Json) -> (r: Option<Basket>)
    ensures
        match r {
            Some(b) => decodes_basket(*j, b),
            None => !basket_decodable(*j),
        },
{
    let name_key = String::from_str("name");
    let ttl_key = String::from_str("ttl");
    let name = match read_str(j, &name_key) {
        Some(s) => s,
        None => return None,
    };
    let ttl = match read_i32(j, &ttl_key) {
        Some(t) => t,
        None => return None,
    };
    Some(Basket { name, ttl })
}

/// Reads the details of a pantry from a reply body.
///
/// Fails with [`PantryError::Decode`] exactly when `j` does not have the shape
/// that [`pantry_decodable`] describes; the error names the first member found
/// missing or of the wrong kind.
pub fn decode_pantry(j: &Json) -> (r: Result<GetPantryResponse, PantryError>)
    ensures
        r is Ok <==> pantry_decodable(*j),
        match r {
            Ok(p) => decodes_pantry(*j, p),
            Err(e) => e is Decode,
        },
{
    let name_key = String::from_str("name");
    let description_key = String::from_str("description");
    let notifications_key = String::from_str("notifications");
    let percent_key = String::from_str("percentFull");
    let baskets_key = String::from_str("baskets");
    let name = match read_str(j, &name_key) {
        Some(s) => s,
        None => return Err(PantryError::Decode(name_key)),
    };
    let description = match read_str(j, &description_key) {
        Some(s) => s,
        None => return Err(PantryError::Decode(description_key)),
    };
    let notifications = match read_bool(j, &notifications_key) {
        Some(b) => b,
        None => return Err(PantryError::Decode(notifications_key)),
    };
    let percent_full = match read_i64(j, &percent_key) {
        Some(p) => p,
        None => return Err(PantryError::Decode(percent_key)),
    };
    let items = match get_member(j, &baskets_key) {
        Some(Json::Array(items)) => items,
        _ => return Err(PantryError::Decode(baskets_key)),
    };
    let mut baskets: Vec<Basket> = Vec::new();
    let mut i: usize = 0;
    while i < items.len()
        invariant
            0 <= i <= items@.len(),
            baskets_key@ == "baskets"@,
            member(*j, "baskets"@) == Some(Json::Array(*items)),
            baskets@.len() == i,
            forall|k: int| 0 <= k < i ==> decodes_basket(#[trigger] items@[k], baskets@[k]),
        decreases items@.len() - i,
    {
        match decode_basket(&items[i]) {
            Some(b) => baskets.push(b),
            None => {
                proof {
                    let ghost all = (*items)@;
                    assert(!basket_decodable(all[i as int]));
                    assert(Some(Json::Array(*items)) matches Some(Json::Array(v)) && v@ == all);
                }
                return Err(PantryError::Decode(baskets_key));
            },
        }
        i = i + 1;
    }
    Ok(GetPantryResponse { name, description, notifications, percent_full, baskets })
}

/// `j` is a string whose text is `s`.
pub open spec fn is_str(j: Json, s: Seq<char>) -> bool {
    j matches Json::Str(t) && t@ == s
}

/// `j` is the object `{"name": name, "description": description}`, members in
/// that order.
pub open spec fn is_update_body(j: Json, name: Seq<char>, description: Seq<char>) -> bool {
    &&& j matches Json::Object(members)
    &&& members@.len() == 2
    &&& members@[0].0@ == "name"@ && is_str(members@[0].1, name)
    &&& members@[1].0@ == "description"@ && is_str(members@[1].1, description)
}

/// A body that lacks any member that a pantry's details require (`name`,
/// `description`, `notifications`, `percentFull` or `baskets`) is not a
/// pantry's details: reading it fails instead of yielding a default.
pub proof fn missing_member_not_decodable(j: Json, key: Seq<char>)
    requires
        member(j, key) is None,
        key == "name"@ || key == "description"@ || key == "notifications"@ || key
            == "percentFull"@ || key == "baskets"@,
    ensures
        !pantry_decodable(j),
{
}

impl UpdatePantryRequest {
    /// The request as the JSON object that the service takes: the members
    /// `name` and `description`, in that order, both strings.
    pub fn to_json(&self) -> (r: Json)
        ensures
            is_update_body(r, self.name@, self.description@),
    {
        let mut members: Vec<(String, Json)> = Vec::new();
        members.push((String::from_str("name"), Json::Str(self.name.clone())));
        members.push((String::from_str("description"), Json::Str(self.description.clone())));
        Json::Object(members)
    }
}

} // verus!
