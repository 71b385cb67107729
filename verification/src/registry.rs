//! The set of active cascades: declarations keyed by name, each with its
//! lazily derived runtime form.
//!
//! Declarations arrive at scene load or when a decorated sub-scene
//! finishes loading; inserting one with a name already present replaces
//! the old declaration and discards its derived form, which is rebuilt on
//! the next regeneration pass. The intended frame discipline is to run
//! [`CascadeSet::generate_cascade_data`] once at the start of a frame and
//! treat the resulting uniform list as read-only while draws select from
//! it.

use vstd::prelude::*;
use vstd::seq_lib::*;

use crate::cascade::CascadeInput;
use crate::cascade::CascadeUniform;
use crate::cascade::CascadeViewUniform;
use crate::cascade::derived_from;
use crate::cascade::view_derived_from;

verus! {

/// One active cascade: the declaration and, once derived, its runtime
/// form. The derived form is absent right after the declaration is
/// inserted or replaced, and present after a regeneration pass.
pub struct CascadeEntry {
    pub input: CascadeInput,
    pub derived: Option<CascadeUniform>,
}

/// The first index whose entry carries `name`, or `-1` when none does.
pub open spec fn index_of_name(s: Seq<CascadeEntry>, name: Seq<char>) -> int
    decreases s.len(),
{
    if s.len() == 0 {
        -1
    } else if s[0].input.name@ == name {
        0
    } else {
        let r = index_of_name(s.drop_first(), name);
        if r == -1 {
            -1
        } else {
            r + 1
        }
    }
}

/// When no entry carries the name, the lookup reports `-1`.
proof fn lemma_index_of_name_absent(s: Seq<CascadeEntry>, name: Seq<char>)
    requires
        forall|j: int| 0 <= j < s.len() ==> (#[trigger] s[j]).input.name@ != name,
    ensures
        index_of_name(s, name) == -1,
    decreases s.len(),
{
    if s.len() > 0 {
        assert forall|j: int| 0 <= j < s.drop_first().len() implies (#[trigger] s.drop_first()[j]).input.name@
            != name by {
            assert(s.drop_first()[j] == s[j + 1]);
        }
        lemma_index_of_name_absent(s.drop_first(), name);
    }
}

/// When entry `i` carries the name and no earlier entry does, the lookup
/// reports `i`.
proof fn lemma_index_of_name_found(s: Seq<CascadeEntry>, name: Seq<char>, i: int)
    requires
        0 <= i < s.len(),
        s[i].input.name@ == name,
        forall|j: int| 0 <= j < i ==> (#[trigger] s[j]).input.name@ != name,
    ensures
        index_of_name(s, name) == i,
    decreases s.len(),
{
    if i > 0 {
        assert forall|j: int| 0 <= j < i - 1 implies (#[trigger] s.drop_first()[j]).input.name@
            != name by {
            assert(s.drop_first()[j] == s[j + 1]);
        }
        assert(s.drop_first()[i - 1] == s[i]);
        lemma_index_of_name_found(s.drop_first(), name, i - 1);
    }
}

/// The set of active cascades; see the module documentation.
pub struct CascadeSet {
    pub entries: Vec<CascadeEntry>,
}

impl CascadeSet {
    /// The set's invariant: every declaration is well formed, names are
    /// unique (they address baked assets), and every derived form present
    /// is exactly what its declaration derives to.
    pub open spec fn wf(self) -> bool {
        &&& forall|i: int| 0 <= i < self.entries@.len() ==> (#[trigger] self.entries@[i]).input.wf()
        &&& forall|i: int, j: int|
            0 <= i < j < self.entries@.len() ==> self.entries@[i].input.name@
                != self.entries@[j].input.name@
        &&& forall|i: int|
            0 <= i < self.entries@.len() ==> ((#[trigger] self.entries@[i]).derived matches Some(d)
                ==> derived_from(d, self.entries@[i].input) && d.wf())
    }

    /// Every entry carries its derived form, as after a regeneration
    /// pass.
    pub open spec fn all_derived(self) -> bool {
        forall|i: int| 0 <= i < self.entries@.len() ==> (#[trigger] self.entries@[i]).derived is Some
    }

    /// An empty set.
    pub fn new() -> (s: CascadeSet)
        ensures
            s.wf(),
            s.entries@.len() == 0,
    {
        CascadeSet { entries: Vec::new() }
    }

    /// How many cascades are active.
    pub fn len(&self) -> (n: usize)
        ensures
            n == self.entries@.len(),
    {
        self.entries.len()
    }

    /// Declares a cascade. A declaration with a fresh name is appended
    /// with no derived form yet; one whose name is already present
    /// replaces that entry and discards its derived form, so the next
    /// regeneration pass rebuilds it. Returns whether a replacement took
    /// place.
    pub fn insert(&mut self, input: CascadeInput) -> (replaced: bool)
        requires
            old(self).wf(),
            input.wf(),
        ensures
            final(self).wf(),
            replaced == (index_of_name(old(self).entries@, input.name@) >= 0),
            ({
                let at = index_of_name(old(self).entries@, input.name@);
                if at >= 0 {
                    final(self).entries@ =~= old(self).entries@.update(
                        at,
                        CascadeEntry { input: input, derived: None },
                    )
                } else {
                    final(self).entries@ =~= old(self).entries@.push(
                        CascadeEntry { input: input, derived: None },
                    )
                }
            }),
    {
        let ghost s0 = self.entries@;
        let mut i: usize = 0;
        while i < self.entries.len()
            invariant
                s0 == self.entries@,
                s0 == old(self).entries@,
                old(self).wf(),
                input.wf(),
                0 <= i <= s0.len(),
                forall|j: int| 0 <= j < i ==> (#[trigger] s0[j]).input.name@ != input.name@,
            decreases s0.len() - i,
        {
            if self.entries[i].input.name == input.name {
                proof {
                    lemma_index_of_name_found(s0, input.name@, i as int);
                }
                self.entries.set(i, CascadeEntry { input: input, derived: None });
                return true;
            }
            i = i + 1;
        }
        proof {
            lemma_index_of_name_absent(s0, input.name@);
        }
        self.entries.push(CascadeEntry { input: input, derived: None });
        false
    }

    /// Withdraws the cascade declared under `name`, discarding its
    /// derived form with it. Returns whether anything was removed.
    pub fn remove(&mut self, name: &String) -> (removed: bool)
        requires
            old(self).wf(),
        ensures
            final(self).wf(),
            removed == (index_of_name(old(self).entries@, name@) >= 0),
            ({
                let at = index_of_name(old(self).entries@, name@);
                if at >= 0 {
                    final(self).entries@ =~= old(self).entries@.remove(at)
                } else {
                    final(self).entries@ =~= old(self).entries@
                }
            }),
    {
        let ghost s0 = self.entries@;
        let mut i: usize = 0;
        while i < self.entries.len()
            invariant
                s0 == self.entries@,
                s0 == old(self).entries@,
                old(self).wf(),
                0 <= i <= s0.len(),
                forall|j: int| 0 <= j < i ==> (#[trigger] s0[j]).input.name@ != name@,
            decreases s0.len() - i,
        {
            if self.entries[i].input.name == *name {
                proof {
                    lemma_index_of_name_found(s0, name@, i as int);
                }
                self.entries.remove(i);
                return true;
            }
            i = i + 1;
        }
        proof {
            lemma_index_of_name_absent(s0, name@);
        }
        false
    }

    /// The regeneration pass, run once per frame before selection:
    /// derives the runtime form of every declaration that lacks one.
    /// Declarations are untouched, forms already present are kept
    /// (deriving is a pure function of the declaration, so rebuilding
    /// them would change nothing), and afterwards every entry has its
    /// form.
    pub fn generate_cascade_data(&mut self)
        requires
            old(self).wf(),
        ensures
            final(self).wf(),
            final(self).all_derived(),
            final(self).entries@.len() == old(self).entries@.len(),
            forall|i: int|
                0 <= i < old(self).entries@.len() ==> (#[trigger] final(self).entries@[i]).input
                    == old(self).entries@[i].input,
            forall|i: int|
                0 <= i < old(self).entries@.len() ==> (old(self).entries@[i].derived is Some
                    ==> (#[trigger] final(self).entries@[i]).derived == old(
                    self,
                ).entries@[i].derived),
    {
        let ghost s0 = self.entries@;
        let mut out: Vec<CascadeEntry> = Vec::new();
        let mut i: usize = 0;
        while i < self.entries.len()
            invariant
                s0 == self.entries@,
                old(self).wf(),
                s0 == old(self).entries@,
                0 <= i <= s0.len(),
                out@.len() == i,
                forall|j: int| 0 <= j < i ==> (#[trigger] out@[j]).input == s0[j].input,
                forall|j: int|
                    0 <= j < i ==> ((#[trigger] out@[j]).derived matches Some(d) && derived_from(
                        d,
                        s0[j].input,
                    ) && d.wf()),
                forall|j: int|
                    0 <= j < i ==> (s0[j].derived is Some ==> (#[trigger] out@[j]).derived
                        == s0[j].derived),
            decreases s0.len() - i,
        {
            let e = &self.entries[i];
            let d: CascadeUniform = match &e.derived {
                Some(d0) => d0.clone(),
                None => e.input.into_uniform(),
            };
            out.push(CascadeEntry { input: e.input.clone(), derived: Some(d) });
            i = i + 1;
        }
        self.entries = out;
    }

    /// The uniform list handed to the renderer and the selector, in entry
    /// order — the returned index of a selection addresses this same
    /// order. Requires a completed regeneration pass.
    pub fn uniforms(&self) -> (v: Vec<CascadeUniform>)
        requires
            self.wf(),
            self.all_derived(),
        ensures
            v@.len() == self.entries@.len(),
            forall|i: int|
                0 <= i < self.entries@.len() ==> #[trigger] v@[i] == self.entries@[i].derived.unwrap(),
            forall|i: int| 0 <= i < v@.len() ==> (#[trigger] v@[i]).wf(),
    {
        let mut v: Vec<CascadeUniform> = Vec::new();
        let mut i: usize = 0;
        while i < self.entries.len()
            invariant
                self.wf(),
                self.all_derived(),
                0 <= i <= self.entries@.len(),
                v@.len() == i,
                forall|j: int|
                    0 <= j < i ==> #[trigger] v@[j] == self.entries@[j].derived.unwrap(),
                forall|j: int| 0 <= j < i ==> (#[trigger] v@[j]).wf(),
            decreases self.entries@.len() - i,
        {
            let e = &self.entries[i];
            match &e.derived {
                Some(d) => v.push(d.clone()),
                None => {
                    proof {
                        assert(false);
                    }
                },
            }
            i = i + 1;
        }
        v
    }

    /// The viewer-slot uniform list, in the same entry order as
    /// [`CascadeSet::uniforms`], so one selected index can address
    /// either.
    pub fn view_uniforms(&self) -> (v: Vec<CascadeViewUniform>)
        requires
            self.wf(),
        ensures
            v@.len() == self.entries@.len(),
            forall|i: int|
                0 <= i < self.entries@.len() ==> view_derived_from(
                    #[trigger] v@[i],
                    self.entries@[i].input,
                ),
    {
        let mut v: Vec<CascadeViewUniform> = Vec::new();
        let mut i: usize = 0;
        while i < self.entries.len()
            invariant
                self.wf(),
                0 <= i <= self.entries@.len(),
                v@.len() == i,
                forall|j: int|
                    0 <= j < i ==> view_derived_from(#[trigger] v@[j], self.entries@[j].input),
            decreases self.entries@.len() - i,
        {
            let e = &self.entries[i];
            v.push(e.input.into_view_uniform());
            i = i + 1;
        }
        v
    }
}

} // verus!
