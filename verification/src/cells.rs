//! Single-owner value cells.
//!
//! `TakeCell` and `MapCell` hold a value that clients either move out
//! or operate on through a closure; `OptionalCell` is a cell wrapping
//! an `Option` with the usual option combinators. Here each cell owns
//! its value outright and hands it to closures by value: a closure
//! maps the old contents to the new contents and a result.

use vstd::prelude::*;
use vstd::std_specs::cmp::PartialEqSpec;

verus! {

/// A cell whose value may be absent because a client has taken it.
pub struct TakeCell<T> {
    pub val: Option<T>,
}

impl<T> TakeCell<T> {
    /// A cell with nothing in it.
    pub fn empty() -> (r: TakeCell<T>)
        ensures
            r.val is None,
    {
        TakeCell { val: None }
    }

    /// A cell holding `value`.
    pub fn new(value: T) -> (r: TakeCell<T>)
        ensures
            r.val == Some(value),
    {
        TakeCell { val: Some(value) }
    }

    /// Whether the value has been taken.
    pub fn is_none(&self) -> (r: bool)
        ensures
            r == (self.val is None),
    {
        self.val.is_none()
    }

    /// Whether the value is present.
    pub fn is_some(&self) -> (r: bool)
        ensures
            r == (self.val is Some),
    {
        self.val.is_some()
    }

    /// Take the value out, leaving the cell empty.
    pub fn take(&mut self) -> (r: Option<T>)
        ensures
            r == old(self).val,
            final(self).val is None,
    {
        self.val.take()
    }

    /// Store `val`, discarding whatever was there.
    pub fn put(&mut self, val: Option<T>)
        ensures
            final(self).val == val,
    {
        self.val = val;
    }

    /// Replace the contents with `val`, returning the previous value.
    pub fn replace(&mut self, val: T) -> (r: Option<T>)
        ensures
            r == old(self).val,
            final(self).val == Some(val),
    {
        let prev = self.val.take();
        self.val = Some(val);
        prev
    }

    /// Run `closure` over the value if present: it receives the value
    /// and returns the new value together with a result.
    pub fn map<R, F: FnOnce(T) -> (T, R)>(&mut self, closure: F) -> (r: Option<R>)
        requires
            old(self).val matches Some(v) ==> call_requires(closure, (v,)),
        ensures
            old(self).val is None ==> r is None && final(self).val is None,
            old(self).val matches Some(v) ==> exists|p: (T, R)|
                {
                    &&& call_ensures(closure, (v,), p)
                    &&& final(self).val == Some(p.0)
                    &&& r == Some(p.1)
                },
    {
        match self.val.take() {
            Some(v) => {
                let (nv, res) = closure(v);
                self.val = Some(nv);
                Some(res)
            },
            None => None,
        }
    }

    /// Like [`TakeCell::map`], with a default result for an empty cell.
    pub fn map_or<R, F: FnOnce(T) -> (T, R)>(&mut self, default: R, closure: F) -> (r: R)
        requires
            old(self).val matches Some(v) ==> call_requires(closure, (v,)),
        ensures
            old(self).val is None ==> r == default && final(self).val is None,
            old(self).val matches Some(v) ==> exists|p: (T, R)|
                {
                    &&& call_ensures(closure, (v,), p)
                    &&& final(self).val == Some(p.0)
                    &&& r == p.1
                },
    {
        match self.val.take() {
            Some(v) => {
                let (nv, res) = closure(v);
                self.val = Some(nv);
                res
            },
            None => default,
        }
    }

    /// Like [`TakeCell::map`], computing the default lazily.
    pub fn map_or_else<U, D: FnOnce() -> U, F: FnOnce(T) -> (T, U)>(
        &mut self,
        default: D,
        f: F,
    ) -> (r: U)
        requires
            old(self).val matches Some(v) ==> call_requires(f, (v,)),
            old(self).val is None ==> call_requires(default, ()),
        ensures
            old(self).val is None ==> call_ensures(default, (), r) && final(self).val is None,
            old(self).val matches Some(v) ==> exists|p: (T, U)|
                {
                    &&& call_ensures(f, (v,), p)
                    &&& final(self).val == Some(p.0)
                    &&& r == p.1
                },
    {
        match self.val.take() {
            Some(v) => {
                let (nv, res) = f(v);
                self.val = Some(nv);
                res
            },
            None => default(),
        }
    }

    /// Like [`TakeCell::map`], with a closure that may fail; the
    /// (possibly changed) value stays in the cell either way.
    pub fn and_then<R, F: FnOnce(T) -> (T, Option<R>)>(&mut self, closure: F) -> (r: Option<R>)
        requires
            old(self).val matches Some(v) ==> call_requires(closure, (v,)),
        ensures
            old(self).val is None ==> r is None && final(self).val is None,
            old(self).val matches Some(v) ==> exists|p: (T, Option<R>)|
                {
                    &&& call_ensures(closure, (v,), p)
                    &&& final(self).val == Some(p.0)
                    &&& r == p.1
                },
    {
        match self.val.take() {
            Some(v) => {
                let (nv, res) = closure(v);
                self.val = Some(nv);
                res
            },
            None => None,
        }
    }

    /// Modify the value in place if present, otherwise fill the cell
    /// with a fresh one.
    pub fn modify_or_replace<F: FnOnce(T) -> T, G: FnOnce() -> T>(&mut self, modify: F, mkval: G)
        requires
            old(self).val matches Some(v) ==> call_requires(modify, (v,)),
            old(self).val is None ==> call_requires(mkval, ()),
        ensures
            old(self).val is None ==> exists|nv: T|
                call_ensures(mkval, (), nv) && final(self).val == Some(nv),
            old(self).val matches Some(v) ==> exists|nv: T|
                call_ensures(modify, (v,), nv) && final(self).val == Some(nv),
    {
        let val = match self.val.take() {
            Some(v) => modify(v),
            None => mkval(),
        };
        self.val = Some(val);
    }
}

/// A possibly-empty cell operated on through closures.
pub struct MapCell<T> {
    pub val: Option<T>,
}

impl<T> MapCell<T> {
    /// An empty cell.
    pub fn empty() -> (r: MapCell<T>)
        ensures
            r.val is None,
    {
        MapCell { val: None }
    }

    /// A cell holding `value`.
    pub fn new(value: T) -> (r: MapCell<T>)
        ensures
            r.val == Some(value),
    {
        MapCell { val: Some(value) }
    }

    /// Whether the cell is empty.
    pub fn is_none(&self) -> (r: bool)
        ensures
            r == (self.val is None),
    {
        self.val.is_none()
    }

    /// Whether the cell holds a value.
    pub fn is_some(&self) -> (r: bool)
        ensures
            r == (self.val is Some),
    {
        self.val.is_some()
    }

    /// Take the value out, leaving the cell empty.
    pub fn take(&mut self) -> (r: Option<T>)
        ensures
            r == old(self).val,
            final(self).val is None,
    {
        self.val.take()
    }

    /// Put a value in without returning the old one.
    pub fn put(&mut self, val: T)
        ensures
            final(self).val == Some(val),
    {
        self.val = Some(val);
    }

    /// Replace the contents, returning the old value if there was one.
    pub fn replace(&mut self, val: T) -> (r: Option<T>)
        ensures
            r == old(self).val,
            final(self).val == Some(val),
    {
        let prev = self.val.take();
        self.val = Some(val);
        prev
    }

    /// Run `closure` over the value if present.
    pub fn map<R, F: FnOnce(T) -> (T, R)>(&mut self, closure: F) -> (r: Option<R>)
        requires
            old(self).val matches Some(v) ==> call_requires(closure, (v,)),
        ensures
            old(self).val is None ==> r is None && final(self).val is None,
            old(self).val matches Some(v) ==> exists|p: (T, R)|
                {
                    &&& call_ensures(closure, (v,), p)
                    &&& final(self).val == Some(p.0)
                    &&& r == Some(p.1)
                },
    {
        match self.val.take() {
            Some(v) => {
                let (nv, res) = closure(v);
                self.val = Some(nv);
                Some(res)
            },
            None => None,
        }
    }

    /// Like [`MapCell::map`], with a default result for an empty cell.
    pub fn map_or<R, F: FnOnce(T) -> (T, R)>(&mut self, default: R, closure: F) -> (r: R)
        requires
            old(self).val matches Some(v) ==> call_requires(closure, (v,)),
        ensures
            old(self).val is None ==> r == default && final(self).val is None,
            old(self).val matches Some(v) ==> exists|p: (T, R)|
                {
                    &&& call_ensures(closure, (v,), p)
                    &&& final(self).val == Some(p.0)
                    &&& r == p.1
                },
    {
        match self.val.take() {
            Some(v) => {
                let (nv, res) = closure(v);
                self.val = Some(nv);
                res
            },
            None => default,
        }
    }

    /// Like [`MapCell::map`], with a closure that may fail.
    pub fn and_then<R, F: FnOnce(T) -> (T, Option<R>)>(&mut self, closure: F) -> (r: Option<R>)
        requires
            old(self).val matches Some(v) ==> call_requires(closure, (v,)),
        ensures
            old(self).val is None ==> r is None && final(self).val is None,
            old(self).val matches Some(v) ==> exists|p: (T, Option<R>)|
                {
                    &&& call_ensures(closure, (v,), p)
                    &&& final(self).val == Some(p.0)
                    &&& r == p.1
                },
    {
        match self.val.take() {
            Some(v) => {
                let (nv, res) = closure(v);
                self.val = Some(nv);
                res
            },
            None => None,
        }
    }

    /// Modify the value in place if present, otherwise fill the cell.
    pub fn modify_or_replace<F: FnOnce(T) -> T, G: FnOnce() -> T>(&mut self, modify: F, mkval: G)
        requires
            old(self).val matches Some(v) ==> call_requires(modify, (v,)),
            old(self).val is None ==> call_requires(mkval, ()),
        ensures
            old(self).val is None ==> exists|nv: T|
                call_ensures(mkval, (), nv) && final(self).val == Some(nv),
            old(self).val matches Some(v) ==> exists|nv: T|
                call_ensures(modify, (v,), nv) && final(self).val == Some(nv),
    {
        let val = match self.val.take() {
            Some(v) => modify(v),
            None => mkval(),
        };
        self.val = Some(val);
    }
}

impl<T: Copy> MapCell<T> {
    /// A copy of the contents, if any.
    pub fn get(&self) -> (r: Option<T>)
        ensures
            r == self.val,
    {
        self.val
    }
}

/// A cell wrapping an `Option`.
pub struct OptionalCell<T> {
    pub value: Option<T>,
}

impl<T> OptionalCell<T> {
    /// A cell holding `val`.
    pub fn new(val: T) -> (r: OptionalCell<T>)
        ensures
            r.value == Some(val),
    {
        OptionalCell { value: Some(val) }
    }

    /// An empty cell.
    pub fn empty() -> (r: OptionalCell<T>)
        ensures
            r.value is None,
    {
        OptionalCell { value: None }
    }

    /// Update the stored value.
    pub fn set(&mut self, val: T)
        ensures
            final(self).value == Some(val),
    {
        self.value = Some(val);
    }

    /// Adopt the supplied `Option` wholesale.
    pub fn insert(&mut self, opt: Option<T>)
        ensures
            final(self).value == opt,
    {
        self.value = opt;
    }

    /// Replace the contents, returning the previous value.
    pub fn replace(&mut self, val: T) -> (r: Option<T>)
        ensures
            r == old(self).value,
            final(self).value == Some(val),
    {
        let prev = self.value.take();
        self.value = Some(val);
        prev
    }

    /// Reset the stored value to nothing.
    pub fn clear(&mut self)
        ensures
            final(self).value is None,
    {
        self.value = None;
    }

    /// Whether the cell contains something.
    pub fn is_some(&self) -> (r: bool)
        ensures
            r == (self.value is Some),
    {
        self.value.is_some()
    }

    /// Whether the cell is empty.
    pub fn is_none(&self) -> (r: bool)
        ensures
            r == (self.value is None),
    {
        self.value.is_none()
    }

    /// Returns true when the cell holds exactly the given value.
    pub fn contains(&self, x: &T) -> (r: bool) where T: PartialEq
        ensures
            T::obeys_eq_spec() ==> r == (match self.value {
                Some(y) => y.eq_spec(x),
                None => false,
            }),
    {
        match &self.value {
            Some(y) => y == x,
            None => false,
        }
    }

    /// Turn the contents into a `Result`, with `err` for an empty cell.
    pub fn ok_or<E>(self, err: E) -> (r: Result<T, E>)
        ensures
            match self.value {
                Some(v) => r == Ok::<T, E>(v),
                None => r == Err::<T, E>(err),
            },
    {
        match self.value {
            Some(v) => Ok(v),
            None => Err(err),
        }
    }

    /// Turn the contents into a `Result`, computing the error lazily.
    pub fn ok_or_else<E, F: FnOnce() -> E>(self, err: F) -> (r: Result<T, E>)
        requires
            self.value is None ==> call_requires(err, ()),
        ensures
            self.value matches Some(v) ==> r == Ok::<T, E>(v),
            self.value is None ==> exists|e: E| call_ensures(err, (), e) && r == Err::<T, E>(e),
    {
        match self.value {
            Some(v) => Ok(v),
            None => Err(err()),
        }
    }

    /// `None` if the cell is empty, otherwise `optb`.
    pub fn and<U>(self, optb: Option<U>) -> (r: Option<U>)
        ensures
            r == if self.value is Some {
                optb
            } else {
                None::<U>
            },
    {
        match self.value {
            Some(_) => optb,
            None => None,
        }
    }

    /// Keep the contents only if `predicate` accepts them.
    pub fn filter<P: FnOnce(&T) -> bool>(self, predicate: P) -> (r: Option<T>)
        requires
            self.value matches Some(v) ==> call_requires(predicate, (&v,)),
        ensures
            self.value is None ==> r is None,
            self.value matches Some(v) ==> exists|keep: bool|
                {
                    &&& call_ensures(predicate, (&v,), keep)
                    &&& r == if keep {
                        Some(v)
                    } else {
                        None::<T>
                    }
                },
    {
        match self.value {
            Some(v) => {
                if predicate(&v) {
                    Some(v)
                } else {
                    None
                }
            },
            None => None,
        }
    }

    /// The contents if any, otherwise `optb`.
    pub fn or(self, optb: Option<T>) -> (r: Option<T>)
        ensures
            r == if self.value is Some {
                self.value
            } else {
                optb
            },
    {
        match self.value {
            Some(v) => Some(v),
            None => optb,
        }
    }

    /// The contents if any, otherwise the closure's result.
    pub fn or_else<F: FnOnce() -> Option<T>>(self, f: F) -> (r: Option<T>)
        requires
            self.value is None ==> call_requires(f, ()),
        ensures
            self.value matches Some(v) ==> r == Some(v),
            self.value is None ==> exists|alt: Option<T>| call_ensures(f, (), alt) && r == alt,
    {
        match self.value {
            Some(v) => Some(v),
            None => f(),
        }
    }

    /// Return the contents and leave the cell empty.
    pub fn take(&mut self) -> (r: Option<T>)
        ensures
            r == old(self).value,
            final(self).value is None,
    {
        self.value.take()
    }
}

impl<T: Copy> OptionalCell<T> {
    /// A copy of the contained `Option`.
    pub fn get(&self) -> (r: Option<T>)
        ensures
            r == self.value,
    {
        self.value
    }

    /// The contents; the cell must not be empty.
    pub fn unwrap_or_panic(&self) -> (r: T)
        requires
            self.value is Some,
        ensures
            Some(r) == self.value,
    {
        match self.value {
            Some(v) => v,
            None => unreached(),
        }
    }

    /// The contents, or `default` for an empty cell.
    pub fn unwrap_or(&self, default: T) -> (r: T)
        ensures
            r == if self.value is Some {
                self.value.unwrap()
            } else {
                default
            },
    {
        match self.value {
            Some(v) => v,
            None => default,
        }
    }

    /// The contents, or the closure's result for an empty cell.
    pub fn unwrap_or_else<F: FnOnce() -> T>(&self, default: F) -> (r: T)
        requires
            self.value is None ==> call_requires(default, ()),
        ensures
            self.value matches Some(v) ==> r == v,
            self.value is None ==> exists|d: T| call_ensures(default, (), d) && r == d,
    {
        match self.value {
            Some(v) => v,
            None => default(),
        }
    }

    /// Apply a closure to a copy of the contents, if any.
    pub fn map<R, F: FnOnce(T) -> R>(&self, closure: F) -> (r: Option<R>)
        requires
            self.value matches Some(v) ==> call_requires(closure, (v,)),
        ensures
            self.value is None ==> r is None,
            self.value matches Some(v) ==> exists|o: R| call_ensures(closure, (v,), o) && r
                == Some(o),
    {
        match self.value {
            Some(v) => Some(closure(v)),
            None => None,
        }
    }

    /// Like [`OptionalCell::map`], with a default for an empty cell.
    pub fn map_or<R, F: FnOnce(T) -> R>(&self, default: R, closure: F) -> (r: R)
        requires
            self.value matches Some(v) ==> call_requires(closure, (v,)),
        ensures
            self.value is None ==> r == default,
            self.value matches Some(v) ==> exists|o: R| call_ensures(closure, (v,), o) && r == o,
    {
        match self.value {
            Some(v) => closure(v),
            None => default,
        }
    }

    /// Like [`OptionalCell::map`], computing the default lazily.
    pub fn map_or_else<U, D: FnOnce() -> U, F: FnOnce(T) -> U>(&self, default: D, closure: F) -> (r:
        U)
        requires
            self.value matches Some(v) ==> call_requires(closure, (v,)),
            self.value is None ==> call_requires(default, ()),
        ensures
            self.value is None ==> exists|o: U| call_ensures(default, (), o) && r == o,
            self.value matches Some(v) ==> exists|o: U| call_ensures(closure, (v,), o) && r == o,
    {
        match self.value {
            Some(v) => closure(v),
            None => default(),
        }
    }

    /// Apply a fallible closure to a copy of the contents, if any.
    pub fn and_then<U, F: FnOnce(T) -> Option<U>>(&self, f: F) -> (r: Option<U>)
        requires
            self.value matches Some(v) ==> call_requires(f, (v,)),
        ensures
            self.value is None ==> r is None,
            self.value matches Some(v) ==> exists|o: Option<U>| call_ensures(f, (v,), o) && r == o,
    {
        match self.value {
            Some(v) => f(v),
            None => None,
        }
    }
}

impl<T> Default for OptionalCell<T> {
    /// An empty cell.
    fn default() -> (r: OptionalCell<T>)
        ensures
            r.value is None,
    {
        OptionalCell::empty()
    }
}

} // verus!
