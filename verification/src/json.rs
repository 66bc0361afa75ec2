//! The mathematical model of JSON documents that the contracts speak of.

use vstd::prelude::*;

verus! {

/// A JSON document.
///
/// Integers are those that fit `i64` or `u64`; every other number is `Real`,
/// told apart by the bits of its IEEE 754 double.
#[verifier::ext_equal]
pub enum JsonModel {
    Null,
    Bool(bool),
    Int(int),
    Real(u64),
    Str(Seq<char>),
    Array(Seq<JsonModel>),
    Object(Map<Seq<char>, JsonModel>),
}

impl JsonModel {
    /// The object without members.
    pub open spec fn empty_object() -> JsonModel {
        JsonModel::Object(Map::empty())
    }

    /// This object with `key` set to `member`; an earlier member of that
    /// name is replaced.
    pub open spec fn with(self, key: Seq<char>, member: JsonModel) -> JsonModel
        recommends
            self is Object,
    {
        JsonModel::Object(self->Object_0.insert(key, member))
    }

    /// This object without the member `key`.
    pub open spec fn without(self, key: Seq<char>) -> JsonModel
        recommends
            self is Object,
    {
        JsonModel::Object(self->Object_0.remove(key))
    }

    /// The member `key` of an object.
    pub open spec fn member(self, key: Seq<char>) -> Option<JsonModel> {
        match self {
            JsonModel::Object(members) if members.contains_key(key) => Some(members[key]),
            _ => None,
        }
    }

    /// Whether a member `key` is there and is not `null`.
    pub open spec fn has(self, key: Seq<char>) -> bool {
        self.member(key) matches Some(j) && !(j is Null)
    }

    /// The text of a string.
    pub open spec fn as_str(self) -> Option<Seq<char>> {
        match self {
            JsonModel::Str(s) => Some(s),
            _ => None,
        }
    }

    /// An integer between `lo` and `hi`.
    pub open spec fn as_int(self, lo: int, hi: int) -> Option<int> {
        match self {
            JsonModel::Int(i) if lo <= i <= hi => Some(i),
            _ => None,
        }
    }

    /// A boolean.
    pub open spec fn as_bool(self) -> Option<bool> {
        match self {
            JsonModel::Bool(b) => Some(b),
            _ => None,
        }
    }

    /// The items of an array.
    pub open spec fn as_array(self) -> Option<Seq<JsonModel>> {
        match self {
            JsonModel::Array(items) => Some(items),
            _ => None,
        }
    }

    /// The string member `key`.
    pub open spec fn str_member(self, key: Seq<char>) -> Option<Seq<char>> {
        match self.member(key) {
            Some(j) => j.as_str(),
            None => None,
        }
    }

    /// The integer member `key`, between `lo` and `hi`.
    pub open spec fn int_member(self, key: Seq<char>, lo: int, hi: int) -> Option<int> {
        match self.member(key) {
            Some(j) => j.as_int(lo, hi),
            None => None,
        }
    }

    /// The boolean member `key`.
    pub open spec fn bool_member(self, key: Seq<char>) -> Option<bool> {
        match self.member(key) {
            Some(j) => j.as_bool(),
            None => None,
        }
    }

    /// The array member `key`.
    pub open spec fn array_member(self, key: Seq<char>) -> Option<Seq<JsonModel>> {
        match self.member(key) {
            Some(j) => j.as_array(),
            None => None,
        }
    }

    /// The optional string member `key`: `Some(None)` where it is absent or
    /// `null`, `None` where it is there and no string.
    pub open spec fn opt_str_member(self, key: Seq<char>) -> Option<Option<Seq<char>>> {
        if !self.has(key) {
            Some(None)
        } else {
            match self.str_member(key) {
                Some(s) => Some(Some(s)),
                None => None,
            }
        }
    }

    /// The optional integer member `key`, between `lo` and `hi`.
    pub open spec fn opt_int_member(self, key: Seq<char>, lo: int, hi: int) -> Option<
        Option<int>,
    > {
        if !self.has(key) {
            Some(None)
        } else {
            match self.int_member(key, lo, hi) {
                Some(i) => Some(Some(i)),
                None => None,
            }
        }
    }

    /// The optional boolean member `key`.
    pub open spec fn opt_bool_member(self, key: Seq<char>) -> Option<Option<bool>> {
        if !self.has(key) {
            Some(None)
        } else {
            match self.bool_member(key) {
                Some(b) => Some(Some(b)),
                None => None,
            }
        }
    }

    /// The member `key` where it is there and not `null`.
    pub open spec fn opt_member(self, key: Seq<char>) -> Option<JsonModel> {
        if self.has(key) {
            self.member(key)
        } else {
            None
        }
    }
}

/// The members of an object have no order: setting two members of different
/// names gives the same object whichever is set first.
pub proof fn lemma_with_commutes(
    j: JsonModel,
    first: Seq<char>,
    a: JsonModel,
    second: Seq<char>,
    b: JsonModel,
)
    requires
        j is Object,
        first != second,
    ensures
        j.with(first, a).with(second, b) == j.with(second, b).with(first, a),
{
    let members = j->Object_0;
    assert(members.insert(first, a).insert(second, b) =~= members.insert(second, b).insert(
        first,
        a,
    ));
}

/// A member that was set is there, in place of what was there under its name,
/// and the other members are as they were.
pub proof fn lemma_with_member(j: JsonModel, key: Seq<char>, member: JsonModel, other: Seq<char>)
    requires
        j is Object,
    ensures
        j.with(key, member).member(key) == Some(member),
        other != key ==> j.with(key, member).member(other) == j.member(other),
{
}

} // verus!
