//! Keys that belong to a host.
//!
//! A host object says itself what its hash is and which other objects it
//! equals. The adapter asks for the hash once, keeps it, and compares two
//! keys by their hashes before it asks the host anything.
//!
//! Nothing is known here of what a host answers, so the contracts speak of
//! the host's answers through `call_ensures`: a result is what the rule of
//! this module makes of some answer that the host's method can give on the
//! arguments that the contract names.

use std::hash::{Hash, Hasher};
use vstd::prelude::*;
use vstd::std_specs::cmp::PartialEqSpecImpl;

verus! {

/// An object of the host, as far as the containers need it. Nothing is
/// taken for granted of what an implementation answers: the host may answer
/// one question in two ways at two times.
pub trait HostObject: Clone {
    /// The host's hash of the object, or nothing where the host cannot hash
    /// it.
    fn host_hash(&self) -> Option<i64>;

    /// Whether the host holds the two objects equal, or nothing where the
    /// comparison itself fails.
    fn host_eq(&self, other: &Self) -> Option<bool>;

    /// Whether the two are one and the same object.
    fn same_object(&self, other: &Self) -> bool;
}

/// The host could not hash `value`.
#[derive(Debug)]
pub struct HashError<H> {
    pub value: H,
}

/// A lookup or a removal found no key equal to `key`.
#[derive(Debug)]
pub struct KeyError<H> {
    pub key: H,
}

/// Why an operation on a key failed.
#[derive(Debug)]
pub enum LookupError<H> {
    Hash(HashError<H>),
    Key(KeyError<H>),
}

/// `hashed` says whether the host gives a hash for `value`, by some answer
/// that the host can give to that question.
pub open spec fn host_hashes<H: HostObject>(value: H, hashed: bool) -> bool {
    exists|hash: Option<i64>| #[trigger]
        call_ensures(H::host_hash, (&value,), hash) && hashed == (hash is Some)
}

/// A host object with the hash that the host gave for it when the key was
/// made.
pub struct ForeignKey<H> {
    object: H,
    hash_code: i64,
}

impl<H: HostObject> ForeignKey<H> {
    /// The object of the key.
    pub closed spec fn object_of(&self) -> H {
        self.object
    }

    /// The hash that the key was made with.
    pub closed spec fn hash_of(&self) -> i64 {
        self.hash_code
    }

    /// `r` is what making a key for `value` gives where the host's answer to
    /// the question for its hash is `hash`: a key with that hash, or the
    /// error where the host gave none. Either has `value` in it.
    pub open spec fn made_from(
        value: H,
        hash: Option<i64>,
        r: Result<ForeignKey<H>, HashError<H>>,
    ) -> bool {
        match hash {
            Some(code) => r matches Ok(key) && key.object_of() == value && key.hash_of() == code,
            None => r matches Err(e) && e.value == value,
        }
    }

    /// The key for `value` where the host's hash of it is `hash`, and the
    /// error where the host gave none.
    pub fn with_hash(value: H, hash: Option<i64>) -> (r: Result<ForeignKey<H>, HashError<H>>)
        ensures
            Self::made_from(value, hash, r),
    {
        match hash {
            Some(code) => Ok(ForeignKey { object: value, hash_code: code }),
            None => Err(HashError { value }),
        }
    }

    /// Asks the host for the hash of `value`, once, and makes the key.
    pub fn new(value: H) -> (r: Result<ForeignKey<H>, HashError<H>>)
        ensures
            exists|hash: Option<i64>| #[trigger]
                call_ensures(H::host_hash, (&value,), hash) && Self::made_from(value, hash, r),
            host_hashes(value, r is Ok),
            match r {
                Ok(key) => key.object_of() == value,
                Err(e) => e.value == value,
            },
    {
        let hash = value.host_hash();
        Self::with_hash(value, hash)
    }

    pub fn hash_code(&self) -> (r: i64)
        ensures
            r == self.hash_of(),
    {
        self.hash_code
    }

    pub fn object(&self) -> (r: &H)
        ensures
            *r == self.object_of(),
    {
        &self.object
    }

    pub fn into_object(self) -> (r: H)
        ensures
            r == self.object_of(),
    {
        self.object
    }

    /// The host's comparison of two keys. It is asked of keys of one hash
    /// only.
    fn ask_host(&self, other: &ForeignKey<H>) -> (host: Option<bool>)
        requires
            self.hash_of() == other.hash_of(),
        ensures
            call_ensures(H::host_eq, (&self.object_of(), &other.object_of()), host),
    {
        self.object.host_eq(&other.object)
    }

    /// `r` is what two keys of equal hash compare to where the host's
    /// answer to their comparison is `host`: that answer, or, where the
    /// comparison failed, an answer that the host can give to whether the
    /// two are one object. That last question comes up in no other case.
    pub open spec fn settled(&self, other: &ForeignKey<H>, host: Option<bool>, r: bool) -> bool {
        match host {
            Some(answer) => r == answer,
            None => call_ensures(H::same_object, (&self.object_of(), &other.object_of()), r),
        }
    }

    /// What two keys of equal hash compare to for the host's answer to their
    /// comparison. Whether the two are one object is asked only where the
    /// comparison failed.
    pub fn settle(&self, other: &ForeignKey<H>, host: Option<bool>) -> (r: bool)
        ensures
            self.settled(other, host, r),
    {
        match host {
            Some(answer) => answer,
            None => self.object.same_object(&other.object),
        }
    }

    /// `r` is what the comparison of two keys of equal hash gives for some
    /// answer that the host can give to their comparison.
    pub open spec fn settled_by_host(&self, other: &ForeignKey<H>, r: bool) -> bool {
        exists|host: Option<bool>| #[trigger]
            call_ensures(H::host_eq, (&self.object_of(), &other.object_of()), host)
                && self.settled(other, host, r)
    }

    /// Whether two keys are equal. Keys of different hashes are unequal, and
    /// the host is not asked about them. Keys of equal hash are equal where
    /// the host says so, and where its comparison fails, where they are one
    /// object.
    pub fn equals(&self, other: &ForeignKey<H>) -> (r: bool)
        ensures
            self.hash_of() != other.hash_of() ==> !r,
            self.hash_of() == other.hash_of() ==> self.settled_by_host(other, r),
    {
        if self.hash_code != other.hash_code {
            return false;
        }
        let host = self.ask_host(other);
        self.settle(other, host)
    }
}

/// The objects of the keys, in the order of the keys.
pub fn key_objects<H: HostObject>(keys: Vec<ForeignKey<H>>) -> (objects: Vec<H>)
    ensures
        objects@.len() == keys@.len(),
        forall|i: int| 0 <= i < keys@.len() ==> objects@[i] == (#[trigger] keys@[i]).object_of(),
{
    let mut objects: Vec<H> = Vec::new();
    for key in it: keys.into_iter()
        invariant
            it.seq() == keys@,
            objects@.len() == it.index(),
            forall|i: int|
                0 <= i < it.index() ==> objects@[i] == (#[trigger] keys@[i]).object_of(),
    {
        objects.push(key.into_object());
    }
    objects
}

impl<H: HostObject> Clone for ForeignKey<H> {
    /// A key for a clone of the object, with the hash that this key was
    /// made with: the host is not asked again.
    fn clone(&self) -> (r: Self)
        ensures
            r.hash_of() == self.hash_of(),
            cloned(self.object_of(), r.object_of()),
    {
        ForeignKey { object: self.object.clone(), hash_code: self.hash_code }
    }
}

impl<H: HostObject> PartialEq for ForeignKey<H> {
    fn eq(&self, other: &Self) -> (r: bool)
        ensures
            self.hash_of() != other.hash_of() ==> !r,
            self.hash_of() == other.hash_of() ==> self.settled_by_host(other, r),
    {
        self.equals(other)
    }
}

/// `==` follows no fixed relation, since the host decides it anew each time.
/// What is fixed is that keys of different hashes are unequal: `eq_spec`
/// is the condition without which `eq` gives `false`.
impl<H: HostObject> PartialEqSpecImpl for ForeignKey<H> {
    open spec fn obeys_eq_spec() -> bool {
        false
    }

    open spec fn eq_spec(&self, other: &Self) -> bool {
        self.hash_of() == other.hash_of()
    }
}

impl<H: HostObject> Eq for ForeignKey<H> {

}

impl<H: HostObject> Hash for ForeignKey<H> {
    /// `Hash::hash` of std on the kept hash alone, so that the object's
    /// place in a table depends on nothing else.
    #[verifier::external_body]
    fn hash<S: Hasher>(&self, state: &mut S) {
        self.hash_code.hash(state);
    }
}

} // verus!
