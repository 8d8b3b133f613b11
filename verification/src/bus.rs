//! The signal bus: a keyed store of live signal values.
//!
//! The store itself is a concurrent map from the `dashmap` crate; the bus
//! wraps it behind a mathematical view, a `Map` from signal name to value
//! shape, and offers typed reads that compose the untyped read with the
//! defined coercions.

use crate::error::{ErrorModel, PlcError};
use crate::value::{
    spec_as_bool, spec_as_float, spec_as_int, spec_type_label, SignalValue, ValueModel,
};
use dashmap::DashMap;
use vstd::prelude::*;

verus! {

#[verifier::external_type_specification]
#[verifier::external_body]
#[verifier::reject_recursive_types(K)]
#[verifier::reject_recursive_types(V)]
#[verifier::reject_recursive_types(S)]
pub struct ExDashMap<K, V, S>(DashMap<K, V, S>);

/// The contents of the underlying store, as a map from signal name to the
/// shape of its value.
pub uninterp spec fn dashmap_entries(m: DashMap<String, SignalValue>) -> Map<Seq<char>, ValueModel>;

/// The keyed store of live signal values.
pub struct SignalBus {
    signals: DashMap<String, SignalValue>,
}

impl View for SignalBus {
    type V = Map<Seq<char>, ValueModel>;

    closed spec fn view(&self) -> Map<Seq<char>, ValueModel> {
        dashmap_entries(self.signals)
    }
}

/// The outcome an untyped read of `name` has on a bus holding `m`.
pub open spec fn spec_read(m: Map<Seq<char>, ValueModel>, name: Seq<char>) -> Result<
    ValueModel,
    ErrorModel,
> {
    if m.contains_key(name) {
        Ok(m[name])
    } else {
        Err(ErrorModel::SignalNotFound(name))
    }
}

/// The outcome a boolean read of `name` has on a bus holding `m`.
pub open spec fn spec_read_bool(m: Map<Seq<char>, ValueModel>, name: Seq<char>) -> Result<
    bool,
    ErrorModel,
> {
    match spec_read(m, name) {
        Ok(v) => match spec_as_bool(v) {
            Some(b) => Ok(b),
            None => Err(
                ErrorModel::TypeMismatch { expected: "bool"@, actual: spec_type_label(v) },
            ),
        },
        Err(e) => Err(e),
    }
}

/// The outcome an integer read of `name` has on a bus holding `m`.
pub open spec fn spec_read_int(m: Map<Seq<char>, ValueModel>, name: Seq<char>) -> Result<
    i32,
    ErrorModel,
> {
    match spec_read(m, name) {
        Ok(v) => match spec_as_int(v) {
            Some(i) => Ok(i),
            None => Err(ErrorModel::TypeMismatch { expected: "int"@, actual: spec_type_label(v) }),
        },
        Err(e) => Err(e),
    }
}

/// The outcome a float read of `name` has on a bus holding `m`; the value
/// is returned as its binary64 encoding.
pub open spec fn spec_read_float(m: Map<Seq<char>, ValueModel>, name: Seq<char>) -> Result<
    u64,
    ErrorModel,
> {
    match spec_read(m, name) {
        Ok(v) => match spec_as_float(v) {
            Some(bits) => Ok(bits),
            None => Err(
                ErrorModel::TypeMismatch { expected: "float"@, actual: spec_type_label(v) },
            ),
        },
        Err(e) => Err(e),
    }
}

/// Whether the executable result `r` denotes the mathematical outcome `s`.
pub open spec fn models_result<T: View>(r: Result<T, PlcError>, s: Result<T::V, ErrorModel>) -> bool {
    match r {
        Ok(v) => s matches Ok(sv) && v@ == sv,
        Err(e) => s matches Err(se) && e@ == se,
    }
}

impl SignalBus {
    /// Relies on `dashmap::DashMap::new`: an empty map.
    #[verifier::external_body]
    pub fn new() -> (r: SignalBus)
        ensures
            r@.dom() == Set::<Seq<char>>::empty(),
    {
        SignalBus { signals: DashMap::new() }
    }

    /// Relies on `dashmap::DashMap::insert`: maps the key to the value,
    /// replacing any earlier value under that key.
    #[verifier::external_body]
    fn raw_insert(&mut self, name: &str, value: SignalValue)
        ensures
            dashmap_entries(final(self).signals) == dashmap_entries(old(self).signals).insert(
                name@,
                value@,
            ),
    {
        self.signals.insert(name.to_string(), value);
    }

    /// Relies on `dashmap::DashMap::get`: returns the value under the key,
    /// or nothing when the key is absent.
    #[verifier::external_body]
    fn raw_get(&self, name: &str) -> (r: Option<SignalValue>)
        ensures
            match r {
                Some(v) => self@.contains_key(name@) && v@ == self@[name@],
                None => !self@.contains_key(name@),
            },
    {
        self.signals.get(name).map(|entry| entry.value().clone())
    }

    /// Relies on `dashmap::DashMap::contains_key`.
    #[verifier::external_body]
    fn raw_contains(&self, name: &str) -> (r: bool)
        ensures
            r == self@.contains_key(name@),
    {
        self.signals.contains_key(name)
    }

    /// Relies on `dashmap::DashMap::clear`: removes every entry.
    #[verifier::external_body]
    fn raw_clear(&mut self)
        ensures
            final(self)@.dom() == Set::<Seq<char>>::empty(),
    {
        self.signals.clear();
    }

    /// Relies on `dashmap::DashMap::iter`: yields every entry of the map
    /// exactly once.
    #[verifier::external_body]
    fn raw_entries(&self) -> (r: Vec<(String, SignalValue)>)
        ensures
            forall|i: int, j: int|
                0 <= i < j < r@.len() ==> #[trigger] r@[i].0@ != #[trigger] r@[j].0@,
            forall|i: int|
                0 <= i < r@.len() ==> self@.contains_key(#[trigger] r@[i].0@) && r@[i].1@
                    == self@[r@[i].0@],
            forall|k: Seq<char>|
                #[trigger] self@.contains_key(k) ==> exists|i: int|
                    0 <= i < r@.len() && #[trigger] r@[i].0@ == k,
    {
        self.signals.iter().map(|entry| (entry.key().clone(), entry.value().clone())).collect()
    }

    /// Inserts or overwrites the signal. Never fails: the bus does not
    /// enforce declared types on writes.
    pub fn set(&mut self, name: &str, value: SignalValue) -> (r: Result<(), PlcError>)
        ensures
            r is Ok,
            final(self)@ == old(self)@.insert(name@, value@),
    {
        self.raw_insert(name, value);
        Ok(())
    }

    /// Reads the current value of the signal, failing with `SignalNotFound`
    /// when no signal of that name exists.
    pub fn get(&self, name: &str) -> (r: Result<SignalValue, PlcError>)
        ensures
            models_result(r, spec_read(self@, name@)),
    {
        match self.raw_get(name) {
            Some(v) => Ok(v),
            None => Err(PlcError::SignalNotFound(name.to_owned())),
        }
    }

    /// Reads the signal and coerces it to a boolean.
    pub fn get_bool(&self, name: &str) -> (r: Result<bool, PlcError>)
        ensures
            models_result(r, spec_read_bool(self@, name@)),
    {
        let value = self.get(name)?;
        match value.as_bool() {
            Some(b) => Ok(b),
            None => Err(
                PlcError::TypeMismatch {
                    expected: "bool".to_owned(),
                    actual: value.type_label().to_owned(),
                },
            ),
        }
    }

    /// Reads the signal and coerces it to an integer.
    pub fn get_int(&self, name: &str) -> (r: Result<i32, PlcError>)
        ensures
            models_result(r, spec_read_int(self@, name@)),
    {
        let value = self.get(name)?;
        match value.as_int() {
            Some(i) => Ok(i),
            None => Err(
                PlcError::TypeMismatch {
                    expected: "int".to_owned(),
                    actual: value.type_label().to_owned(),
                },
            ),
        }
    }

    /// Reads the signal and coerces it to a float, returned as its binary64
    /// encoding.
    pub fn get_float(&self, name: &str) -> (r: Result<u64, PlcError>)
        ensures
            models_result(r, spec_read_float(self@, name@)),
    {
        let value = self.get(name)?;
        match value.as_float() {
            Some(bits) => Ok(bits),
            None => Err(
                PlcError::TypeMismatch {
                    expected: "float".to_owned(),
                    actual: value.type_label().to_owned(),
                },
            ),
        }
    }

    /// Whether a signal of that name exists.
    pub fn contains(&self, name: &str) -> (r: bool)
        ensures
            r == self@.contains_key(name@),
    {
        self.raw_contains(name)
    }

    /// Removes every signal (a testing aid).
    pub fn clear(&mut self)
        ensures
            final(self)@.dom() == Set::<Seq<char>>::empty(),
    {
        self.raw_clear();
    }

    /// A point-in-time snapshot of the whole bus: one entry per signal,
    /// no key twice.
    pub fn iter(&self) -> (r: Vec<(String, SignalValue)>)
        ensures
            forall|i: int, j: int|
                0 <= i < j < r@.len() ==> #[trigger] r@[i].0@ != #[trigger] r@[j].0@,
            forall|i: int|
                0 <= i < r@.len() ==> self@.contains_key(#[trigger] r@[i].0@) && r@[i].1@
                    == self@[r@[i].0@],
            forall|k: Seq<char>|
                #[trigger] self@.contains_key(k) ==> exists|i: int|
                    0 <= i < r@.len() && #[trigger] r@[i].0@ == k,
    {
        self.raw_entries()
    }
}

} // verus!
