//! The structured values that a request carries where the protocol fixes no
//! shape.

use vstd::prelude::*;

verus! {

/// A number of a structured value. A number with a fraction or an exponent is
/// held by the bits of its double-precision form.
#[derive(Clone, Copy, Debug, PartialEq, Eq)]
pub enum JsonNumber {
    PosInt(u64),
    NegInt(i64),
    Float(u64),
}

impl JsonNumber {
    /// The integer that the number is, if it is one.
    pub open spec fn as_int(self) -> Option<int> {
        match self {
            JsonNumber::PosInt(n) => Some(n as int),
            JsonNumber::NegInt(n) => Some(n as int),
            JsonNumber::Float(_) => None,
        }
    }

    /// The integer that the number is, if it is one of 32 bits.
    pub open spec fn as_int32(self) -> Option<i32> {
        match self.as_int() {
            Some(n) if i32::MIN <= n <= i32::MAX => Some(n as i32),
            _ => None,
        }
    }

    /// The number as an `i32`, if it is an integer in that range.
    pub fn as_i32(&self) -> (r: Option<i32>)
        ensures
            r == self.as_int32(),
    {
        match *self {
            JsonNumber::PosInt(n) => {
                if n <= i32::MAX as u64 {
                    Some(n as i32)
                } else {
                    None
                }
            },
            JsonNumber::NegInt(n) => {
                if i32::MIN as i64 <= n && n <= i32::MAX as i64 {
                    Some(n as i32)
                } else {
                    None
                }
            },
            JsonNumber::Float(_) => None,
        }
    }
}

/// A structured value: nothing, a truth value, a number, a text, a list of
/// values, or an object, whose members are named values in the order in which
/// they were written.
#[derive(Debug, PartialEq)]
pub enum JsonValue {
    Null,
    Bool(bool),
    Number(JsonNumber),
    String(String),
    Array(Vec<JsonValue>),
    Object(Vec<(String, JsonValue)>),
}

/// The mathematical value of a [`JsonValue`].
pub ghost enum JsonView {
    Null,
    Bool(bool),
    Number(JsonNumber),
    String(Seq<char>),
    Array(Seq<JsonView>),
    Object(Seq<(Seq<char>, JsonView)>),
}

impl View for JsonValue {
    type V = JsonView;

    open spec fn view(&self) -> JsonView
        decreases self,
    {
        match self {
            JsonValue::Null => JsonView::Null,
            JsonValue::Bool(b) => JsonView::Bool(*b),
            JsonValue::Number(n) => JsonView::Number(*n),
            JsonValue::String(s) => JsonView::String(s@),
            JsonValue::Array(items) => JsonView::Array(
                Seq::new(
                    items@.len(),
                    |i: int|
                        if 0 <= i < items@.len() {
                            items@[i].view()
                        } else {
                            JsonView::Null
                        },
                ),
            ),
            JsonValue::Object(members) => JsonView::Object(
                Seq::new(
                    members@.len(),
                    |i: int|
                        if 0 <= i < members@.len() {
                            (members@[i].0@, members@[i].1.view())
                        } else {
                            (Seq::<char>::empty(), JsonView::Null)
                        },
                ),
            ),
        }
    }
}

/// The position of the member of `members` that `key` names: the last one
/// with that name, as a later member replaces an earlier one of its name.
/// -1 where no member has the name.
pub open spec fn member_index(members: Seq<(Seq<char>, JsonView)>, key: Seq<char>) -> int
    decreases members.len(),
{
    if members.len() == 0 {
        -1
    } else if members.last().0 == key {
        members.len() - 1
    } else {
        member_index(members.drop_last(), key)
    }
}

impl JsonView {
    /// The member that `key` names, where `self` is an object that has one.
    pub open spec fn member(self, key: Seq<char>) -> Option<JsonView> {
        match self {
            JsonView::Object(members) => {
                let i = member_index(members, key);
                if i >= 0 {
                    Some(members[i].1)
                } else {
                    None
                }
            },
            _ => None,
        }
    }
}

/// The view of a list: item for item, the view of the item.
pub proof fn lemma_array_view(items: Vec<JsonValue>)
    ensures
        JsonValue::Array(items)@ is Array,
        JsonValue::Array(items)@->Array_0.len() == items@.len(),
        forall|i: int|
            0 <= i < items@.len() ==> (#[trigger] JsonValue::Array(items)@->Array_0[i])
                == items@[i]@,
{
    reveal_with_fuel(<JsonValue as View>::view, 2);
}

/// The view of an object: member for member, the name and the view of the
/// value.
pub proof fn lemma_object_view(members: Vec<(String, JsonValue)>)
    ensures
        JsonValue::Object(members)@ is Object,
        JsonValue::Object(members)@->Object_0.len() == members@.len(),
        forall|i: int|
            0 <= i < members@.len() ==> (#[trigger] JsonValue::Object(members)@->Object_0[i]) == (
                members@[i].0@,
                members@[i].1@,
            ),
{
    reveal_with_fuel(<JsonValue as View>::view, 2);
}

impl JsonValue {
    /// The member that `key` names, where `self` is an object that has one.
    pub fn get(&self, key: &str) -> (r: Option<&JsonValue>)
        ensures
            match r {
                Some(v) => self@.member(key@) == Some(v@),
                None => self@.member(key@) is None,
            },
    {
        match self {
            JsonValue::Object(members) => {
                let ghost all = self@->Object_0;
                let name: String = key.to_owned();
                let mut i: usize = members.len();
                proof {
                    lemma_object_view(*members);
                }
                assert(all.subrange(0, i as int) =~= all);
                while i > 0
                    invariant
                        self@ == JsonView::Object(all),
                        all.len() == members.len(),
                        forall|j: int|
                            0 <= j < members.len() ==> (#[trigger] all[j]) == (
                                members@[j].0@,
                                members@[j].1@,
                            ),
                        i <= members.len(),
                        name@ == key@,
                        member_index(all, key@) == member_index(all.subrange(0, i as int), key@),
                    decreases i,
                {
                    i -= 1;
                    assert(all.subrange(0, i + 1).drop_last() =~= all.subrange(0, i as int));
                    if members[i].0 == name {
                        return Some(&members[i].1);
                    }
                }
                None
            },
            _ => None,
        }
    }
}

impl Clone for JsonValue {
    /// A copy of the value.
    fn clone(&self) -> (r: JsonValue)
        ensures
            r@ == self@,
        decreases self,
    {
        match self {
            JsonValue::Null => JsonValue::Null,
            JsonValue::Bool(b) => JsonValue::Bool(*b),
            JsonValue::Number(n) => JsonValue::Number(*n),
            JsonValue::String(s) => JsonValue::String(s.clone()),
            JsonValue::Array(items) => {
                let mut copy: Vec<JsonValue> = Vec::new();
                let mut i: usize = 0;
                while i < items.len()
                    invariant
                        *self == JsonValue::Array(*items),
                        i <= items.len(),
                        copy.len() == i,
                        forall|j: int| 0 <= j < i ==> (#[trigger] copy@[j])@ == items@[j]@,
                    decreases items.len() - i,
                {
                    proof {
                        vstd::std_specs::vec::axiom_vec_index_decreases(*items, i as int);
                        assert(decreases_to!(*self => self->Array_0));
                    }
                    copy.push(items[i].clone());
                    i += 1;
                }
                proof {
                    lemma_array_view(*items);
                    lemma_array_view(copy);
                }
                let r = JsonValue::Array(copy);
                assert(r@->Array_0 =~= self@->Array_0);
                r
            },
            JsonValue::Object(members) => {
                let mut copy: Vec<(String, JsonValue)> = Vec::new();
                let mut i: usize = 0;
                while i < members.len()
                    invariant
                        *self == JsonValue::Object(*members),
                        i <= members.len(),
                        copy.len() == i,
                        forall|j: int|
                            0 <= j < i ==> (#[trigger] copy@[j]).0@ == members@[j].0@ && copy@[j].1@
                                == members@[j].1@,
                    decreases members.len() - i,
                {
                    proof {
                        vstd::std_specs::vec::axiom_vec_index_decreases(*members, i as int);
                        assert(decreases_to!(*self => self->Object_0));
                        assert(decreases_to!(members[i as int] => members[i as int].1));
                    }
                    copy.push((members[i].0.clone(), members[i].1.clone()));
                    i += 1;
                }
                proof {
                    lemma_object_view(*members);
                    lemma_object_view(copy);
                }
                let r = JsonValue::Object(copy);
                assert(r@->Object_0 =~= self@->Object_0);
                r
            },
        }
    }
}

impl Default for JsonValue {
    /// The value that is nothing.
    fn default() -> (r: JsonValue)
        ensures
            r is Null,
    {
        JsonValue::Null
    }
}

} // verus!

