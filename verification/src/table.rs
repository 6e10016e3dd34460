use std::collections::HashMap;

use vstd::prelude::*;

use crate::action::RecoveryAction;
use crate::error_class::ErrorClass;

verus! {

broadcast use vstd::std_specs::hash::group_hash_axioms;

/// The position of a class in the declaration of [`ErrorClass`], which keys
/// its entry in an [`ActionTable`].
pub open spec fn class_key(class: ErrorClass) -> u8 {
    match class {
        ErrorClass::RateLimit => 0,
        ErrorClass::NetworkTimeout => 1,
        ErrorClass::AuthFailure => 2,
        ErrorClass::InvalidInput => 3,
        ErrorClass::NotFound => 4,
        ErrorClass::ServerError => 5,
        ErrorClass::Unknown => 6,
    }
}

/// The key of `class` in an [`ActionTable`].
fn key_of(class: ErrorClass) -> (k: u8)
    ensures
        k == class_key(class),
{
    match class {
        ErrorClass::RateLimit => 0,
        ErrorClass::NetworkTimeout => 1,
        ErrorClass::AuthFailure => 2,
        ErrorClass::InvalidInput => 3,
        ErrorClass::NotFound => 4,
        ErrorClass::ServerError => 5,
        ErrorClass::Unknown => 6,
    }
}

/// A map from error classes to actions: a std `HashMap` keyed by each class's
/// position in the declaration of [`ErrorClass`].
pub struct ActionTable {
    by_key: HashMap<u8, RecoveryAction>,
}

/// The map from classes to actions that a map keyed by class position stands for.
pub open spec fn keyed_map(by_key: Map<u8, RecoveryAction>) -> Map<ErrorClass, RecoveryAction> {
    Map::new(
        |c: ErrorClass| by_key.contains_key(class_key(c)),
        |c: ErrorClass| by_key[class_key(c)],
    )
}

impl View for ActionTable {
    type V = Map<ErrorClass, RecoveryAction>;

    closed spec fn view(&self) -> Map<ErrorClass, RecoveryAction> {
        keyed_map(self.by_key@)
    }
}

impl ActionTable {
    /// An empty table.
    pub fn new() -> (t: Self)
        ensures
            t@ == Map::<ErrorClass, RecoveryAction>::empty(),
    {
        let t = ActionTable { by_key: HashMap::new() };
        assert(t@ =~= Map::<ErrorClass, RecoveryAction>::empty());
        t
    }

    /// The action stored for `class`, if any.
    pub fn get(&self, class: ErrorClass) -> (r: Option<RecoveryAction>)
        ensures
            r == (if self@.contains_key(class) {
                Some(self@[class])
            } else {
                None
            }),
    {
        let key = key_of(class);
        match self.by_key.get(&key) {
            Some(action) => Some(*action),
            None => None,
        }
    }

    /// Store `action` for `class`, replacing any action stored for it before.
    pub fn insert(&mut self, class: ErrorClass, action: RecoveryAction)
        ensures
            final(self)@ == old(self)@.insert(class, action),
    {
        let key = key_of(class);
        self.by_key.insert(key, action);
        assert forall|c: ErrorClass| c != class implies class_key(c) != class_key(class) by {}
        assert(self@ =~= old(self)@.insert(class, action));
    }
}

} // verus!
