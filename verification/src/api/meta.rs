//! Metadata shared by the resources and by the options of each operation.

use crate::clock::{now, Timestamp};
use crate::error::{fresh, Error, ErrorKind};
use crate::json::{decode_value, decoded, encode_object, encoded, members_of, object_of};
use vstd::prelude::*;

verus! {

/// What every stored resource carries.
///
/// `extend` holds free-form members; `extend_shadow` is their JSON text, the
/// form in which they are stored. The hooks below bring one up to date with
/// the other.
#[derive(Debug)]
pub struct ObjectMeta {
    pub id: u64,
    pub instance_id: String,
    pub name: String,
    pub extend: Option<serde_json::Map<String, serde_json::Value>>,
    pub extend_shadow: String,
    pub create_at: Timestamp,
    pub update_at: Timestamp,
    pub delete_at: Timestamp,
}

impl Default for ObjectMeta {
    /// A sample object, stamped three times with the current time. The
    /// clock is read for each stamp, so nothing is said of the three.
    fn default() -> (meta: Self)
        ensures
            meta.id == 123,
            meta.instance_id@ == "instance_id"@,
            meta.name@ == "name-123fsz"@,
            meta.extend is None,
            meta.extend_shadow@ == ""@,
    {
        ObjectMeta::sample(now(), now(), now())
    }
}

/// Whether `failure` is a fresh error of the given kind that keeps some text
/// as its cause.
pub open spec fn fails_as(failure: Error, kind: ErrorKind) -> bool {
    &&& failure@.len() == 1
    &&& failure@[0].0 == kind
    &&& failure@[0].1 is Some
}

impl ObjectMeta {
    /// A sample object with the given stamps: id 123, fixed names, no
    /// members and an empty shadow.
    pub fn sample(create_at: Timestamp, update_at: Timestamp, delete_at: Timestamp) -> (meta: Self)
        ensures
            meta.id == 123,
            meta.instance_id@ == "instance_id"@,
            meta.name@ == "name-123fsz"@,
            meta.extend is None,
            meta.extend_shadow@ == ""@,
            meta.create_at == create_at,
            meta.update_at == update_at,
            meta.delete_at == delete_at,
    {
        ObjectMeta {
            id: 123,
            instance_id: "instance_id".to_owned(),
            name: "name-123fsz".to_owned(),
            extend: None,
            extend_shadow: "".to_owned(),
            create_at,
            update_at,
            delete_at,
        }
    }

    /// Takes in the outcome of encoding the members: their JSON text, which
    /// becomes the shadow, or the words of the failure, which become the
    /// cause of an encoding failure. Nothing else changes.
    pub fn take_encoded(&mut self, outcome: Result<String, String>) -> (done: Result<(), Error>)
        ensures
            match outcome {
                Ok(text) => {
                    &&& done is Ok
                    &&& *final(self) == (ObjectMeta { extend_shadow: text, ..*old(self) })
                },
                Err(why) => {
                    &&& done matches Err(failure)
                    &&& failure@ == fresh(ErrorKind::JsonEncode, Some(why@))
                    &&& *final(self) == *old(self)
                },
            },
    {
        match outcome {
            Ok(text) => {
                self.extend_shadow = text;
                Ok(())
            },
            Err(why) => Err(Error::new_with_str(ErrorKind::JsonEncode, why)),
        }
    }

    /// Takes in the outcome of decoding the shadow: the members of the object
    /// that it held, which become the members, or the words of the failure,
    /// which become the cause of a decoding failure. Nothing else changes.
    pub fn take_decoded(
        &mut self,
        outcome: Result<serde_json::Map<String, serde_json::Value>, String>,
    ) -> (done: Result<(), Error>)
        ensures
            match outcome {
                Ok(members) => {
                    &&& done is Ok
                    &&& *final(self) == (ObjectMeta { extend: Some(members), ..*old(self) })
                },
                Err(why) => {
                    &&& done matches Err(failure)
                    &&& failure@ == fresh(ErrorKind::JsonDecode, Some(why@))
                    &&& *final(self) == *old(self)
                },
            },
    {
        match outcome {
            Ok(members) => {
                self.extend = Some(members);
                Ok(())
            },
            Err(why) => Err(Error::new_with_str(ErrorKind::JsonDecode, why)),
        }
    }

    /// What storing asks of the shadow: where the members encode, the shadow
    /// becomes their JSON text and nothing else changes; where they do not,
    /// nothing changes and the failure is an encoding failure.
    pub open spec fn shadowed(before: Self, after: Self, done: Result<(), Error>) -> bool {
        match encoded(before.extend->0) {
            Some(text) => {
                &&& done is Ok
                &&& after.extend_shadow@ == text
                &&& after == (ObjectMeta { extend_shadow: after.extend_shadow, ..before })
            },
            None => {
                &&& done matches Err(failure)
                &&& fails_as(failure, ErrorKind::JsonEncode)
                &&& after == before
            },
        }
    }

    /// What loading asks of the members: where the shadow decodes, the
    /// members become those of the decoded value and nothing else changes;
    /// where it does not, nothing changes and the failure is a decoding
    /// failure.
    pub open spec fn unshadowed(before: Self, after: Self, done: Result<(), Error>) -> bool {
        match decoded(before.extend_shadow@) {
            Some(value) => {
                &&& done is Ok
                &&& after == (ObjectMeta { extend: object_of(value), ..before })
            },
            None => {
                &&& done matches Err(failure)
                &&& fails_as(failure, ErrorKind::JsonDecode)
                &&& after == before
            },
        }
    }

    /// Whether the shadow holds JSON that is not an object: a list, a text, a
    /// number, a truth value or null.
    pub open spec fn shadow_is_no_object(&self) -> bool {
        decoded(self.extend_shadow@) matches Some(value) && object_of(value) is None
    }

    /// Before the object is created: writes the members into the shadow.
    pub fn _before_create(&mut self) -> (done: Result<(), Error>)
        requires
            old(self).extend is Some,
        ensures
            Self::shadowed(*old(self), *final(self), done),
    {
        let outcome = encode_object(self.extend.as_ref().unwrap());
        self.take_encoded(outcome)
    }

    /// Before the object is updated: writes the members into the shadow.
    pub fn _before_update(&mut self) -> (done: Result<(), Error>)
        requires
            old(self).extend is Some,
        ensures
            Self::shadowed(*old(self), *final(self), done),
    {
        self._before_create()
    }

    /// After the object is found: reads the members from the shadow.
    pub fn _after_find(&mut self) -> (done: Result<(), Error>)
        requires
            !old(self).shadow_is_no_object(),
        ensures
            Self::unshadowed(*old(self), *final(self), done),
            done is Ok ==> final(self).extend is Some,
    {
        match decode_value(self.extend_shadow.as_str()) {
            Ok(value) => {
                let members = members_of(&value);
                self.take_decoded(Ok(members.unwrap()))
            },
            Err(why) => self.take_decoded(Err(why)),
        }
    }

    /// As `_after_find`, for any shadow: where the shadow holds JSON that is
    /// not an object there is nothing to read, the answer is `None` and the
    /// object stays as it was.
    pub fn after_find_of_object(&mut self) -> (done: Option<Result<(), Error>>)
        ensures
            match done {
                Some(found) => !old(self).shadow_is_no_object() && Self::unshadowed(
                    *old(self),
                    *final(self),
                    found,
                ),
                None => old(self).shadow_is_no_object() && *final(self) == *old(self),
            },
    {
        let other = match decode_value(self.extend_shadow.as_str()) {
            Ok(value) => members_of(&value).is_none(),
            Err(_) => false,
        };
        if other {
            None
        } else {
            Some(self._after_find())
        }
    }
}

/// The kind of an object and the version of its schema.
#[derive(Debug)]
pub struct TypeMeta {
    /// The resource that the object stands for, in camel case.
    pub kind: String,
    /// The versioned schema of this representation of the object.
    pub api_version: String,
}

impl Default for TypeMeta {
    fn default() -> (meta: Self)
        ensures
            meta.kind@ == "test"@,
            meta.api_version@ == "v1+test"@,
    {
        TypeMeta { kind: "test".to_owned(), api_version: "v1+test".to_owned() }
    }
}

/// What a list answer says of the whole collection.
#[derive(Debug)]
pub struct ListMeta {
    pub total_count: u64,
}

/// Options of a get.
#[derive(Debug)]
pub struct GetOperationMeta {
    pub meta: TypeMeta,
}

impl Default for GetOperationMeta {
    fn default() -> (opts: Self)
        ensures
            opts.meta.kind@ == "test"@,
            opts.meta.api_version@ == "v1+test"@,
    {
        GetOperationMeta { meta: TypeMeta::default() }
    }
}

/// Options of a create.
#[derive(Debug)]
pub struct CeateOperationMeta {
    pub meta: TypeMeta,
    /// The dry-run stages to process; when any is given nothing is persisted.
    pub dray_run: Vec<String>,
}

impl Default for CeateOperationMeta {
    fn default() -> (opts: Self)
        ensures
            opts.meta.kind@ == "test"@,
            opts.meta.api_version@ == "v1+test"@,
            opts.dray_run@.len() == 0,
    {
        CeateOperationMeta { meta: TypeMeta::default(), dray_run: Vec::new() }
    }
}

/// Options of an update.
#[derive(Debug)]
pub struct UpdateOperationMeta {
    pub meta: TypeMeta,
    /// The dry-run stages to process; when any is given nothing is persisted.
    pub dray_run: Vec<String>,
}

/// Options of a delete.
#[derive(Debug)]
pub struct DeleteOperationMeta {
    pub meta: TypeMeta,
    pub unscoped: bool,
}

/// Options of a patch.
#[derive(Debug)]
pub struct PatchOperationMeta {
    pub meta: TypeMeta,
    /// The dry-run stages to process; when any is given nothing is persisted.
    pub dray_run: Vec<String>,
}

/// Options of a list.
#[derive(Debug)]
pub struct ListOperationMeta {
    pub meta: TypeMeta,
    /// Selects resources by their labels.
    pub label_selector: Option<String>,
    /// Selects resources by their fields; everything when absent.
    pub field_selector: Option<String>,
    /// How long the session sticks to one client address, in seconds.
    pub timeout_seconds: Option<i64>,
    /// How many records to skip before the first that is returned.
    pub offset: Option<i64>,
    /// How many records to return.
    pub limit: Option<i64>,
}

} // verus!
