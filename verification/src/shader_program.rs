//! The shader-program resource model: one compiled GPU program handle plus a
//! typed uniform table mapping uniform names to resolved backend locations.
//!
//! The table's contract is the resource's invariant: a uniform must be
//! registered (its location resolved) before any value is set for it. The
//! setters require registration, so verified code cannot set an unregistered
//! uniform; the unverified shell guards its own calls with `is_registered`.
//! Compiling and linking the program, and resolving each location, is the
//! graphics backend's work: the shell performs it and hands the results in
//! as plain values.

use vstd::prelude::*;
use crate::effects::{UniformInit, UniformName, UniformValue};

verus! {

/// One registered uniform: its name and its resolved backend location.
#[derive(Clone, Copy, Debug, PartialEq, Eq, Structural)]
pub struct UniformSlot {
    pub name: UniformName,
    pub location: i32,
}

/// One value push for the backend: the resolved location and the typed value.
#[derive(Clone, Copy, Debug, PartialEq, Eq, Structural)]
pub struct UniformWrite {
    pub location: i32,
    pub value: UniformValue,
}

/// The location a table resolves a name to: that of the most recent
/// registration of the name, if any.
pub open spec fn slot_lookup(s: Seq<UniformSlot>, n: UniformName) -> Option<i32>
    decreases s.len(),
{
    if s.len() == 0 {
        None
    } else if s.last().name == n {
        Some(s.last().location)
    } else {
        slot_lookup(s.drop_last(), n)
    }
}

/// A name resolves in a table exactly when some slot registers it.
pub proof fn lemma_lookup_exists(s: Seq<UniformSlot>, n: UniformName)
    ensures
        slot_lookup(s, n) is Some <==> exists|i: int| 0 <= i < s.len() && s[i].name == n,
    decreases s.len(),
{
    if s.len() > 0 {
        lemma_lookup_exists(s.drop_last(), n);
        if s.last().name == n {
            assert(s[s.len() - 1].name == n);
        } else {
            if slot_lookup(s, n) is Some {
                let i = choose|i: int| 0 <= i < s.drop_last().len() && s.drop_last()[i].name == n;
                assert(s[i].name == n);
            } else {
                if exists|i: int| 0 <= i < s.len() && s[i].name == n {
                    let i = choose|i: int| 0 <= i < s.len() && s[i].name == n;
                    assert(s.drop_last()[i].name == n);
                }
            }
        }
    }
}

/// One compiled GPU program and its uniform table.
pub struct ShaderProgram {
    handle: u32,
    slots: Vec<UniformSlot>,
}

impl ShaderProgram {
    /// The backend handle of the compiled program.
    pub closed spec fn spec_handle(&self) -> u32 {
        self.handle
    }

    /// The registered slots, in registration order.
    pub closed spec fn table(&self) -> Seq<UniformSlot> {
        self.slots@
    }

    /// The location the table resolves a name to, if it is registered.
    pub open spec fn location_of(&self, n: UniformName) -> Option<i32> {
        slot_lookup(self.table(), n)
    }

    /// Whether a name is registered.
    pub open spec fn registered(&self, n: UniformName) -> bool {
        self.location_of(n) is Some
    }

    /// Wrap a freshly compiled and linked program: its uniform table starts
    /// empty, with no carry-over from any earlier program.
    pub fn new(handle: u32) -> (p: ShaderProgram)
        ensures
            p.spec_handle() == handle,
            p.table() == Seq::<UniformSlot>::empty(),
    {
        ShaderProgram { handle, slots: Vec::new() }
    }

    /// The backend handle, for bind and release calls.
    pub fn handle(&self) -> (r: u32)
        ensures
            r == self.spec_handle(),
    {
        self.handle
    }

    /// Register a uniform under its resolved backend location. The name then
    /// resolves to this location; every other name is untouched.
    pub fn register_uniform(&mut self, name: UniformName, location: i32)
        ensures
            final(self).spec_handle() == old(self).spec_handle(),
            final(self).table() == old(self).table().push(UniformSlot { name, location }),
            final(self).location_of(name) == Some(location),
            forall|m: UniformName| m != name ==> final(self).location_of(m) == old(
                self,
            ).location_of(m),
    {
        self.slots.push(UniformSlot { name, location });
        proof {
            assert(self.slots@.drop_last() =~= old(self).slots@);
        }
    }

    /// Whether a uniform name has been registered.
    pub fn is_registered(&self, name: UniformName) -> (r: bool)
        ensures
            r == self.registered(name),
    {
        let mut i: usize = 0;
        let mut found = false;
        while i < self.slots.len()
            invariant
                i <= self.slots.len(),
                found == exists|j: int| 0 <= j < i && self.slots@[j].name == name,
            decreases self.slots.len() - i,
        {
            if self.slots[i].name == name {
                found = true;
            }
            i = i + 1;
        }
        proof {
            lemma_lookup_exists(self.slots@, name);
        }
        found
    }

    /// The resolved location of a uniform name: that of its most recent
    /// registration, if any.
    pub fn find_location(&self, name: UniformName) -> (r: Option<i32>)
        ensures
            r == self.location_of(name),
    {
        let mut i: usize = self.slots.len();
        proof {
            assert(self.slots@.take(i as int) =~= self.slots@);
        }
        while i > 0
            invariant
                i <= self.slots.len(),
                slot_lookup(self.slots@, name) == slot_lookup(
                    self.slots@.take(i as int),
                    name,
                ),
            decreases i,
        {
            let idx = i - 1;
            proof {
                assert(self.slots@.take(i as int).last() == self.slots@[idx as int]);
                assert(self.slots@.take(i as int).drop_last() =~= self.slots@.take(idx as int));
            }
            if self.slots[idx].name == name {
                return Some(self.slots[idx].location);
            }
            i = idx;
        }
        proof {
            assert(self.slots@.take(0).len() == 0);
        }
        None
    }

    /// The push that sets a registered float uniform.
    pub fn set_float(&self, name: UniformName, value: i32) -> (w: UniformWrite)
        requires
            self.registered(name),
        ensures
            Some(w.location) == self.location_of(name),
            w.value == UniformValue::Float(value),
    {
        let location = self.find_location(name).unwrap();
        UniformWrite { location, value: UniformValue::Float(value) }
    }

    /// The push that sets a registered two-component float-vector uniform.
    pub fn set_vec2(&self, name: UniformName, x: i32, y: i32) -> (w: UniformWrite)
        requires
            self.registered(name),
        ensures
            Some(w.location) == self.location_of(name),
            w.value == UniformValue::Vec2(x, y),
    {
        let location = self.find_location(name).unwrap();
        UniformWrite { location, value: UniformValue::Vec2(x, y) }
    }

    /// The push that sets a registered two-component integer-vector uniform.
    pub fn set_ivec2(&self, name: UniformName, x: i32, y: i32) -> (w: UniformWrite)
        requires
            self.registered(name),
        ensures
            Some(w.location) == self.location_of(name),
            w.value == UniformValue::IVec2(x, y),
    {
        let location = self.find_location(name).unwrap();
        UniformWrite { location, value: UniformValue::IVec2(x, y) }
    }

    /// The push that sets a registered integer uniform.
    pub fn set_int(&self, name: UniformName, value: i32) -> (w: UniformWrite)
        requires
            self.registered(name),
        ensures
            Some(w.location) == self.location_of(name),
            w.value == UniformValue::Int(value),
    {
        let location = self.find_location(name).unwrap();
        UniformWrite { location, value: UniformValue::Int(value) }
    }

    /// The pushes that set a whole list of uniform values, in order, if
    /// every name in the list is registered; `None` as the explicit error if
    /// any is not, with nothing pushed.
    pub fn writes_for(&self, uniforms: &Vec<UniformInit>) -> (r: Option<Vec<UniformWrite>>)
        ensures
            r is Some <==> (forall|i: int| 0 <= i < uniforms@.len() ==> self.registered(
                #[trigger] uniforms@[i].name,
            )),
            r matches Some(ws) ==> {
                &&& ws@.len() == uniforms@.len()
                &&& forall|i: int| 0 <= i < uniforms@.len() ==> #[trigger] ws@[i] == (UniformWrite {
                    location: self.location_of(uniforms@[i].name)->Some_0,
                    value: uniforms@[i].value,
                })
            },
    {
        let mut writes: Vec<UniformWrite> = Vec::new();
        let mut i: usize = 0;
        while i < uniforms.len()
            invariant
                i <= uniforms@.len(),
                writes@.len() == i,
                forall|j: int| 0 <= j < i ==> self.registered(#[trigger] uniforms@[j].name),
                forall|j: int| 0 <= j < i ==> #[trigger] writes@[j] == (UniformWrite {
                    location: self.location_of(uniforms@[j].name)->Some_0,
                    value: uniforms@[j].value,
                }),
            decreases uniforms@.len() - i,
        {
            let u = uniforms[i];
            match self.find_location(u.name) {
                Some(location) => {
                    writes.push(UniformWrite { location, value: u.value });
                },
                _ => {
                    return None;
                },
            }
            i = i + 1;
        }
        Some(writes)
    }

    /// Register a whole recipe's uniforms and produce their initial pushes:
    /// entry `i` of the recipe is registered under location `i` of
    /// `locations` (each resolved by the backend for that entry's name) and
    /// written with its initial value, in recipe order.
    pub fn install_recipe(&mut self, uniforms: &Vec<UniformInit>, locations: &Vec<i32>) -> (writes:
        Vec<UniformWrite>)
        requires
            locations@.len() == uniforms@.len(),
        ensures
            final(self).spec_handle() == old(self).spec_handle(),
            final(self).table() == old(self).table() + Seq::new(
                uniforms@.len(),
                |i: int| UniformSlot { name: uniforms@[i].name, location: locations@[i] },
            ),
            writes@.len() == uniforms@.len(),
            forall|i: int| 0 <= i < writes@.len() ==> writes@[i] == (UniformWrite {
                location: locations@[i],
                value: uniforms@[i].value,
            }),
            forall|i: int| 0 <= i < uniforms@.len() ==> final(self).registered(
                #[trigger] uniforms@[i].name,
            ),
    {
        let ghost added = Seq::new(
            uniforms@.len(),
            |i: int| UniformSlot { name: uniforms@[i].name, location: locations@[i] },
        );
        let mut writes: Vec<UniformWrite> = Vec::new();
        let mut i: usize = 0;
        while i < uniforms.len()
            invariant
                i <= uniforms@.len(),
                locations@.len() == uniforms@.len(),
                added == Seq::new(
                    uniforms@.len(),
                    |j: int| UniformSlot { name: uniforms@[j].name, location: locations@[j] },
                ),
                self.spec_handle() == old(self).spec_handle(),
                self.table() == old(self).table() + added.take(i as int),
                writes@.len() == i,
                forall|j: int| 0 <= j < i ==> writes@[j] == (UniformWrite {
                    location: locations@[j],
                    value: uniforms@[j].value,
                }),
            decreases uniforms@.len() - i,
        {
            let u = uniforms[i];
            let loc = locations[i];
            self.register_uniform(u.name, loc);
            writes.push(UniformWrite { location: loc, value: u.value });
            proof {
                assert(self.table() =~= old(self).table() + added.take(i + 1));
            }
            i = i + 1;
        }
        proof {
            assert(self.table() =~= old(self).table() + added);
            assert forall|j: int| 0 <= j < uniforms@.len() implies self.registered(
                #[trigger] uniforms@[j].name,
            ) by {
                lemma_lookup_exists(self.table(), uniforms@[j].name);
                assert(self.table()[old(self).table().len() + j].name == uniforms@[j].name);
            }
        }
        writes
    }
}

} // verus!
