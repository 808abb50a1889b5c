//! Name-keyed uniform lists.
//!
//! A `UniformBuffer` keeps uniforms by name: adding a name twice is an
//! error, and changing a uniform that was never added is an error.  The
//! uniform's payload is generic — the crate tracks the bookkeeping, the
//! caller chooses the value representation.

use vstd::prelude::*;
use vstd::string::StringExecFns;
use crate::err::LErr;

verus! {

/// A named uniform value.
pub struct Uniform<T> {
    name: String,
    value: T,
}

impl<T> Uniform<T> {
    /// The uniform's name.
    pub closed spec fn name_spec(&self) -> Seq<char> {
        self.name@
    }

    /// The uniform's value.
    pub closed spec fn value_spec(&self) -> T {
        self.value
    }

    /// A uniform from an owned name.
    pub fn new(name: String, value: T) -> (r: Uniform<T>)
        ensures
            r.name_spec() == name@,
            r.value_spec() == value,
    {
        Uniform { name, value }
    }

    /// A uniform from a borrowed name.
    pub fn from_str(name: &str, value: T) -> (r: Uniform<T>)
        ensures
            r.name_spec() == name@,
            r.value_spec() == value,
    {
        Uniform { name: String::from_str(name), value }
    }

    /// A reference to the uniform's name.
    pub fn name(&self) -> (r: &str)
        ensures
            r@ == self.name_spec(),
    {
        self.name.as_str()
    }

    /// A reference to the uniform's value.
    pub fn value(&self) -> (r: &T)
        ensures
            *r == self.value_spec(),
    {
        &self.value
    }
}

/// The position of the first uniform named `n`, or the length of the
/// sequence if no uniform carries that name.
pub open spec fn first_index_with_name<T>(s: Seq<Uniform<T>>, n: Seq<char>) -> int
    decreases s.len(),
{
    if s.len() == 0 {
        0
    } else if s.first().name_spec() == n {
        0
    } else {
        1 + first_index_with_name(s.drop_first(), n)
    }
}

/// A position that carries `n` and is preceded by no position carrying
/// `n` is the first index with that name.
pub proof fn lemma_first_index_with_name<T>(s: Seq<Uniform<T>>, n: Seq<char>, i: int)
    requires
        0 <= i < s.len(),
        s[i].name_spec() == n,
        forall|j: int| 0 <= j < i ==> (#[trigger] s[j]).name_spec() != n,
    ensures
        first_index_with_name(s, n) == i,
    decreases s.len(),
{
    if i == 0 {
    } else {
        assert(s.first().name_spec() != n);
        assert(s.drop_first()[i - 1].name_spec() == n);
        assert(forall|j: int| 0 <= j < i - 1 ==> (#[trigger] s.drop_first()[j]).name_spec() != n);
        lemma_first_index_with_name(s.drop_first(), n, i - 1);
    }
}

/// `after` is `before` with the first uniform named `n` — at position
/// `i` — replaced by one with the same name and the given value, and
/// nothing else touched.
pub open spec fn changed_at<T>(
    before: Seq<Uniform<T>>,
    after: Seq<Uniform<T>>,
    n: Seq<char>,
    value: T,
    i: int,
) -> bool {
    &&& 0 <= i < before.len()
    &&& forall|j: int| 0 <= j < i ==> (#[trigger] before[j]).name_spec() != n
    &&& before[i].name_spec() == n
    &&& after == before.update(i, after[i])
    &&& after[i].name_spec() == n
    &&& after[i].value_spec() == value
}

/// An ordered collection of uniforms, keyed by name.
pub struct UniformBuffer<T> {
    uniforms: Vec<Uniform<T>>,
}

impl<T> UniformBuffer<T> {
    /// The uniforms, in insertion order.
    pub closed spec fn uniforms_spec(&self) -> Seq<Uniform<T>> {
        self.uniforms@
    }

    /// Whether some uniform carries the name `n`.
    pub open spec fn has_name(&self, n: Seq<char>) -> bool {
        exists|i: int|
            0 <= i < self.uniforms_spec().len() && (#[trigger] self.uniforms_spec()[i]).name_spec()
                == n
    }

    /// A buffer over the given uniforms.
    pub fn new(uniforms: Vec<Uniform<T>>) -> (r: UniformBuffer<T>)
        ensures
            r.uniforms_spec() == uniforms@,
    {
        UniformBuffer { uniforms }
    }

    /// The position of the first uniform named `name`, if any.
    fn position_of_name(&self, name: &String) -> (r: Option<usize>)
        ensures
            match r {
                Some(i) => {
                    &&& i < self.uniforms_spec().len()
                    &&& self.uniforms_spec()[i as int].name_spec() == name@
                    &&& forall|j: int|
                        0 <= j < i ==> (#[trigger] self.uniforms_spec()[j]).name_spec() != name@
                },
                None => forall|j: int|
                    0 <= j < self.uniforms_spec().len() ==> (
                    #[trigger] self.uniforms_spec()[j]).name_spec() != name@,
            },
    {
        let mut i: usize = 0;
        while i < self.uniforms.len()
            invariant
                i <= self.uniforms@.len(),
                forall|j: int|
                    0 <= j < i ==> (#[trigger] self.uniforms@[j]).name_spec() != name@,
            decreases self.uniforms@.len() - i,
        {
            if self.uniforms[i].name.eq(name) {
                return Some(i);
            }
            i = i + 1;
        }
        None
    }

    /// Whether a uniform with the same name is already held.
    pub fn has_uniform(&self, uniform: &Uniform<T>) -> (r: bool)
        ensures
            r == self.has_name(uniform.name_spec()),
    {
        match self.position_of_name(&uniform.name) {
            Some(i) => {
                proof {
                    assert(self.uniforms_spec()[i as int].name_spec() == uniform.name_spec());
                }
                true
            },
            None => false,
        }
    }

    /// Adds a uniform.  Fails — leaving the buffer untouched — exactly
    /// when a uniform with the same name is already held; otherwise the
    /// uniform is appended.
    pub fn add_uniform(&mut self, uniform: Uniform<T>) -> (r: Result<(), LErr>)
        ensures
            old(self).has_name(uniform.name_spec()) ==> r is Err && final(self).uniforms_spec()
                == old(self).uniforms_spec(),
            !old(self).has_name(uniform.name_spec()) ==> r is Ok && final(self).uniforms_spec()
                == old(self).uniforms_spec().push(uniform),
    {
        if self.has_uniform(&uniform) {
            return Err(
                LErr::new(String::from_str("cannot add uniform: the name is already in the buffer")),
            );
        }
        self.uniforms.push(uniform);
        Ok(())
    }

    /// Changes the first uniform with the matching name to carry the
    /// given value.  Fails — leaving the buffer untouched — exactly when
    /// no uniform carries that name.
    pub fn change_uniform(&mut self, uniform: Uniform<T>) -> (r: Result<(), LErr>)
        ensures
            !old(self).has_name(uniform.name_spec()) ==> r is Err && final(self).uniforms_spec()
                == old(self).uniforms_spec(),
            old(self).has_name(uniform.name_spec()) ==> r is Ok && changed_at(
                old(self).uniforms_spec(),
                final(self).uniforms_spec(),
                uniform.name_spec(),
                uniform.value_spec(),
                first_index_with_name(old(self).uniforms_spec(), uniform.name_spec()),
            ),
    {
        let ghost orig = self.uniforms@;
        let ghost uname = uniform.name_spec();
        let ghost uval = uniform.value_spec();
        match self.position_of_name(&uniform.name) {
            Some(i) => {
                proof {
                    assert(orig[i as int].name_spec() == uname);
                    assert(old(self).has_name(uname));
                }
                let found = self.uniforms.remove(i);
                let replacement = Uniform { name: found.name, value: uniform.value };
                self.uniforms.insert(i, replacement);
                proof {
                    lemma_first_index_with_name(orig, uname, i as int);
                    assert(self.uniforms@ =~= orig.update(i as int, self.uniforms@[i as int]));
                    assert(changed_at(orig, self.uniforms@, uname, uval, i as int));
                }
                Ok(())
            },
            None => {
                proof {
                    assert(!old(self).has_name(uname));
                }
                Err(LErr::new(String::from_str("no uniform with this name was found")))
            },
        }
    }

    /// The held uniforms, in insertion order.
    pub fn uniforms(&self) -> (r: &[Uniform<T>])
        ensures
            r@ == self.uniforms_spec(),
    {
        self.uniforms.as_slice()
    }

    /// Removes every uniform.
    pub fn clear(&mut self)
        ensures
            final(self).uniforms_spec() == Seq::<Uniform<T>>::empty(),
    {
        self.uniforms.clear();
        proof {
            assert(self.uniforms@ =~= Seq::<Uniform<T>>::empty());
        }
    }
}

} // verus!
