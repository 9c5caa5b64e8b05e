//! The environment variables that are set for a child process.
use crate::bytes::{copy_bytes, copy_pairs, pairs_view, same_bytes};
use crate::laws::law_last_setting_holds;
use vstd::prelude::*;

verus! {

/// The environment that results from setting the given variables in order: of
/// two settings of one variable the later one holds.
pub open spec fn env_map(settings: Seq<(Seq<u8>, Seq<u8>)>) -> Map<Seq<u8>, Seq<u8>>
    decreases settings.len(),
{
    if settings.len() == 0 {
        Map::empty()
    } else {
        env_map(settings.drop_last()).insert(settings.last().0, settings.last().1)
    }
}

/// No variable is set twice.
pub open spec fn distinct_keys(settings: Seq<(Seq<u8>, Seq<u8>)>) -> bool {
    forall|i: int, j: int|
        #![trigger settings[i], settings[j]]
        0 <= i < j < settings.len() ==> settings[i].0 != settings[j].0
}

/// A set of environment variables, each with one value.
#[derive(Debug)]
pub struct EnvVars {
    vars: Vec<(Vec<u8>, Vec<u8>)>,
}

impl View for EnvVars {
    type V = Map<Seq<u8>, Seq<u8>>;

    closed spec fn view(&self) -> Map<Seq<u8>, Seq<u8>> {
        env_map(pairs_view(self.vars@))
    }
}

impl Clone for EnvVars {
    fn clone(&self) -> (copy: Self)
        ensures
            copy@ == self@,
    {
        proof {
            use_type_invariant(self);
        }
        EnvVars { vars: copy_pairs(&self.vars) }
    }
}

impl EnvVars {
    #[verifier::type_invariant]
    spec fn keys_distinct(self) -> bool {
        distinct_keys(pairs_view(self.vars@))
    }

    /// No variables at all.
    pub fn new() -> (vars: Self)
        ensures
            vars@ == Map::<Seq<u8>, Seq<u8>>::empty(),
    {
        EnvVars { vars: Vec::new() }
    }

    /// Gives the variable `key` the value `val`, whether it was set or not.
    pub fn set(&mut self, key: &[u8], val: &[u8])
        ensures
            final(self)@ == old(self)@.insert(key@, val@),
    {
        proof {
            use_type_invariant(&*self);
        }
        let ghost before = pairs_view(self.vars@);
        let mut kept: Vec<(Vec<u8>, Vec<u8>)> = Vec::new();
        assert(before.take(0) =~= Seq::empty());
        assert(env_map(pairs_view(kept@)) =~= env_map(before.take(0)).remove(key@));
        for i in 0..self.vars.len()
            invariant
                before == pairs_view(self.vars@),
                distinct_keys(before),
                distinct_keys(pairs_view(kept@)),
                env_map(pairs_view(kept@)) == env_map(before.take(i as int)).remove(key@),
                forall|k: int|
                    0 <= k < kept@.len() ==> {
                        &&& (#[trigger] pairs_view(kept@)[k]).0 != key@
                        &&& exists|j: int| 0 <= j < i && #[trigger] before[j] == pairs_view(kept@)[k]
                    },
        {
            let ghost earlier = kept@;
            assert(before[i as int] == (self.vars@[i as int].0@, self.vars@[i as int].1@));
            assert(before.take(i + 1).drop_last() =~= before.take(i as int));
            if !same_bytes(&self.vars[i].0, key) {
                kept.push((copy_bytes(&self.vars[i].0), copy_bytes(&self.vars[i].1)));
                assert(pairs_view(kept@) =~= pairs_view(earlier).push(before[i as int]));
                assert(pairs_view(kept@).drop_last() =~= pairs_view(earlier));
            }
            assert(env_map(pairs_view(kept@)) =~= env_map(before.take(i + 1)).remove(key@));
        }
        assert(before.take(before.len() as int) =~= before);
        let ghost others = pairs_view(kept@);
        kept.push((copy_bytes(key), copy_bytes(val)));
        assert(pairs_view(kept@) =~= others.push((key@, val@)));
        assert(pairs_view(kept@).drop_last() =~= others);
        assert(env_map(pairs_view(kept@)) =~= env_map(before).insert(key@, val@));
        self.vars = kept;
    }

    /// Every variable with its value, each variable once.
    pub fn entries(&self) -> (entries: &Vec<(Vec<u8>, Vec<u8>)>)
        ensures
            distinct_keys(pairs_view(entries@)),
            env_map(pairs_view(entries@)) == self@,
            forall|i: int, j: int|
                #![trigger entries@[i], entries@[j]]
                0 <= i < j < entries@.len() ==> entries@[i].0@ != entries@[j].0@,
            forall|key: Seq<u8>| #[trigger]
                self@.dom().contains(key) <==> exists|i: int|
                    0 <= i < entries@.len() && (#[trigger] entries@[i]).0@ == key,
            forall|i: int|
                #![trigger entries@[i]]
                0 <= i < entries@.len() ==> self@[entries@[i].0@] == entries@[i].1@,
    {
        proof {
            use_type_invariant(self);
            let settings = pairs_view(self.vars@);
            assert forall|i: int, j: int|
                #![trigger self.vars@[i], self.vars@[j]]
                0 <= i < j < self.vars@.len() implies self.vars@[i].0@ != self.vars@[j].0@ by {
                assert(settings[i].0 != settings[j].0);
            }
            assert forall|key: Seq<u8>| #[trigger] self@.dom().contains(key) implies exists|i: int|
                0 <= i < self.vars@.len() && (#[trigger] self.vars@[i]).0@ == key by {
                law_last_setting_holds(settings, key);
                let i = choose|i: int| 0 <= i < settings.len() && (#[trigger] settings[i]).0 == key;
                assert(self.vars@[i].0@ == key);
            }
            assert forall|i: int|
                #![trigger self.vars@[i]]
                0 <= i < self.vars@.len() implies self@.dom().contains(self.vars@[i].0@)
                && self@[self.vars@[i].0@] == self.vars@[i].1@ by {
                law_last_setting_holds(settings, self.vars@[i].0@);
                assert(settings[i] == (self.vars@[i].0@, self.vars@[i].1@));
                assert(forall|j: int|
                    i < j < settings.len() ==> settings[i].0 != (#[trigger] settings[j]).0);
            }
        }
        &self.vars
    }
}

} // verus!
