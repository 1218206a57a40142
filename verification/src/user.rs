//! A small concrete model that exercises the cursor end to end: a `User` with
//! three fields, materialized from a three-field record.

use vstd::prelude::*;

use crate::model::{FromCursor, Model};
use crate::schema::ModelId;
use crate::value::{Error, Value};

verus! {

/// The number of fields a `User` record carries.
pub const USER_FIELD_COUNT: usize = 3;

/// A typed domain object materialized from records shaped
/// `[I64, String, Bool]`.
#[derive(PartialEq, Eq, Debug)]
pub struct User {
    /// First field of the record.
    pub id: i64,
    /// Second field of the record.
    pub name: String,
    /// Third field of the record.
    pub active: bool,
}

impl Model for User {
    open spec fn spec_id() -> ModelId {
        ModelId(0)
    }

    open spec fn spec_materialize(v: Value) -> Result<User, Error> {
        match v {
            Value::Record(fields) => if fields@.len() < 1 {
                Err(Error::MissingField(0))
            } else if !(fields@[0] is I64) {
                Err(Error::WrongFieldType(0))
            } else if fields@.len() < 2 {
                Err(Error::MissingField(1))
            } else if !(fields@[1] is String) {
                Err(Error::WrongFieldType(1))
            } else if fields@.len() < 3 {
                Err(Error::MissingField(2))
            } else if !(fields@[2] is Bool) {
                Err(Error::WrongFieldType(2))
            } else {
                Ok(
                    User {
                        id: fields@[0]->I64_0,
                        name: fields@[1]->String_0,
                        active: fields@[2]->Bool_0,
                    },
                )
            },
            _ => Err(Error::NotARecord),
        }
    }

    fn id() -> (r: ModelId) {
        ModelId(0)
    }

    fn materialize(v: Value) -> (r: Result<User, Error>) {
        let mut fields = match v {
            Value::Record(fields) => fields,
            _ => {
                return Err(Error::NotARecord);
            },
        };
        if fields.len() == 0 {
            return Err(Error::MissingField(0));
        }
        let id = match fields.remove(0) {
            Value::I64(id) => id,
            _ => {
                return Err(Error::WrongFieldType(0));
            },
        };
        if fields.len() == 0 {
            return Err(Error::MissingField(1));
        }
        let name = match fields.remove(0) {
            Value::String(name) => name,
            _ => {
                return Err(Error::WrongFieldType(1));
            },
        };
        if fields.len() == 0 {
            return Err(Error::MissingField(2));
        }
        let active = match fields.remove(0) {
            Value::Bool(active) => active,
            _ => {
                return Err(Error::WrongFieldType(2));
            },
        };
        Ok(User { id, name, active })
    }
}

/// Whether `s` holds a user with identifier `id`.
pub open spec fn spec_has_id(s: Seq<User>, id: i64) -> bool {
    exists|i: int| 0 <= i < s.len() && s[i].id == id
}

/// A set-like collection target for users: keeps at most one user per
/// identifier — the first one appended — in order of first appearance.
///
/// Viewed as the sequence of users kept.
pub struct UsersById {
    users: Vec<User>,
}

impl View for UsersById {
    type V = Seq<User>;

    closed spec fn view(&self) -> Seq<User> {
        self.users@
    }
}

impl UsersById {
    /// The users kept, in order of first appearance.
    pub fn into_vec(self) -> (r: Vec<User>)
        ensures
            r@ == self@,
    {
        self.users
    }
}

/// The deduplicating collection target: an appended user whose identifier is
/// already held is dropped; any other is kept at the end.
impl FromCursor<User> for UsersById {
    open spec fn contents(self) -> Seq<User> {
        self@
    }

    open spec fn spec_append_contents(s: Seq<User>, u: User) -> Seq<User> {
        if spec_has_id(s, u.id) {
            s
        } else {
            s.push(u)
        }
    }

    fn empty() -> (r: Self) {
        UsersById { users: Vec::new() }
    }

    fn append(&mut self, u: User) {
        let mut i: usize = 0;
        while i < self.users.len()
            invariant
                i <= self.users.len(),
                forall|j: int| 0 <= j < i ==> self.users@[j].id != u.id,
            decreases self.users.len() - i,
        {
            if self.users[i].id == u.id {
                assert(self.users@[i as int].id == u.id);
                return ;
            }
            i += 1;
        }
        self.users.push(u);
    }
}

} // verus!
