//! The environment of an execution: variables, each name once.

use vstd::prelude::*;

verus! {

/// An environment: names with their values.
pub type Pairs = Seq<(Seq<char>, Seq<char>)>;

/// Where the variable `key` stands in `env`, if it is set.
pub open spec fn key_position(env: Pairs, key: Seq<char>) -> Option<int>
    decreases env.len(),
{
    if env.len() == 0 {
        None
    } else {
        match key_position(env.drop_last(), key) {
            Some(i) => Some(i),
            None => if env.last().0 == key {
                Some(env.len() - 1)
            } else {
                None
            },
        }
    }
}

/// The environment with `key` set to `value`: a variable that was set
/// before keeps its place and gets the new value, a new one comes last.
pub open spec fn put(env: Pairs, key: Seq<char>, value: Seq<char>) -> Pairs {
    match key_position(env, key) {
        Some(i) => env.update(i, (key, value)),
        None => env.push((key, value)),
    }
}

/// No variable is set twice.
pub open spec fn unique_keys(env: Pairs) -> bool {
    forall|i: int, j: int| 0 <= i < j < env.len() ==> env[i].0 != env[j].0
}

/// The first place at which `key` is set stays the first when more
/// variables follow.
pub proof fn lemma_key_position_stays(env: Pairs, key: Seq<char>, k: int, n: int)
    requires
        0 <= k < n <= env.len(),
        key_position(env.subrange(0, k), key) is None,
        env[k].0 == key,
    ensures
        key_position(env.subrange(0, n), key) == Some(k),
    decreases n,
{
    let front = env.subrange(0, n);
    assert(front.drop_last() =~= env.subrange(0, n - 1));
    if n > k + 1 {
        lemma_key_position_stays(env, key, k, n - 1);
    } else {
        assert(front.last() == env[k]);
    }
}

/// Setting a variable keeps every name set once.
pub proof fn lemma_put_keeps_keys_unique(env: Pairs, key: Seq<char>, value: Seq<char>)
    requires
        unique_keys(env),
    ensures
        unique_keys(put(env, key, value)),
    decreases env.len(),
{
    lemma_key_position_finds(env, key);
    match key_position(env, key) {
        Some(i) => {
            let next = env.update(i, (key, value));
            assert forall|a: int, b: int| 0 <= a < b < next.len() implies next[a].0
                != next[b].0 by {
                assert(env[a].0 != env[b].0);
            }
        },
        None => {
            let next = env.push((key, value));
            assert forall|a: int, b: int| 0 <= a < b < next.len() implies next[a].0
                != next[b].0 by {
                if b < env.len() {
                    assert(env[a].0 != env[b].0);
                }
            }
        },
    }
}

/// What `key_position` finds: a place where the variable is set, or that it
/// is set nowhere.
pub proof fn lemma_key_position_finds(env: Pairs, key: Seq<char>)
    ensures
        match key_position(env, key) {
            Some(i) => 0 <= i < env.len() && env[i].0 == key,
            None => forall|j: int| 0 <= j < env.len() ==> env[j].0 != key,
        },
    decreases env.len(),
{
    if env.len() > 0 {
        lemma_key_position_finds(env.drop_last(), key);
        match key_position(env.drop_last(), key) {
            Some(i) => {
                assert(env.drop_last()[i] == env[i]);
            },
            None => {
                assert forall|j: int| 0 <= j < env.len() - 1 implies env[j].0 != key by {
                    assert(env.drop_last()[j] == env[j]);
                }
            },
        }
    }
}

/// Sets the variable `key` to `value`. The last value set for a name is the
/// one that counts.
pub fn set_variable(environment: &mut Vec<(String, String)>, key: String, value: String)
    requires
        unique_keys(old(environment).deep_view()),
    ensures
        final(environment).deep_view() == put(old(environment).deep_view(), key@, value@),
        unique_keys(final(environment).deep_view()),
{
    let ghost before = environment.deep_view();
    proof {
        lemma_put_keeps_keys_unique(before, key@, value@);
    }
    let mut i: usize = 0;
    while i < environment.len()
        invariant
            i <= environment.len(),
            environment.deep_view() == before,
            before == old(environment).deep_view(),
            unique_keys(put(before, key@, value@)),
            key_position(before.subrange(0, i as int), key@) is None,
        decreases environment.len() - i,
    {
        assert(before[i as int].0 == environment@[i as int].0@);
        if environment[i].0 == key {
            proof {
                lemma_key_position_stays(before, key@, i as int, before.len() as int);
                assert(before.subrange(0, before.len() as int) =~= before);
            }
            environment[i] = (key, value);
            assert(environment.deep_view() =~= before.update(i as int, (key@, value@)));
            return ;
        }
        proof {
            let front = before.subrange(0, i + 1);
            assert(front.drop_last() =~= before.subrange(0, i as int));
            assert(front.last() == before[i as int]);
        }
        i += 1;
    }
    assert(before.subrange(0, i as int) =~= before);
    environment.push((key, value));
    assert(environment.deep_view() =~= before.push((key@, value@)));
}

/// What `key` is set to in `env`, if it is set.
pub open spec fn value_at(env: Pairs, key: Seq<char>) -> Option<Seq<char>> {
    match key_position(env, key) {
        Some(i) => Some(env[i].1),
        None => None,
    }
}

/// The value of the variable `key`, if it is set.
pub fn get_variable<'a>(environment: &'a Vec<(String, String)>, key: &str) -> (value: Option<
    &'a String,
>)
    ensures
        match value {
            Some(v) => value_at(environment.deep_view(), key@) == Some(v@),
            None => value_at(environment.deep_view(), key@) is None,
        },
{
    let ghost env = environment.deep_view();
    let wanted = key.to_owned();
    let mut i: usize = 0;
    while i < environment.len()
        invariant
            i <= environment.len(),
            env == environment.deep_view(),
            wanted@ == key@,
            key_position(env.subrange(0, i as int), key@) is None,
        decreases environment.len() - i,
    {
        assert(env[i as int].0 == environment@[i as int].0@);
        assert(env[i as int].1 == environment@[i as int].1@);
        if environment[i].0 == wanted {
            proof {
                lemma_key_position_stays(env, key@, i as int, env.len() as int);
                assert(env.subrange(0, env.len() as int) =~= env);
            }
            return Some(&environment[i].1);
        }
        proof {
            let front = env.subrange(0, i + 1);
            assert(front.drop_last() =~= env.subrange(0, i as int));
            assert(front.last() == env[i as int]);
        }
        i += 1;
    }
    assert(env.subrange(0, i as int) =~= env);
    None
}

/// Tells whether no variable is set twice.
pub fn has_unique_keys(environment: &Vec<(String, String)>) -> (b: bool)
    ensures
        b == unique_keys(environment.deep_view()),
{
    let ghost env = environment.deep_view();
    let mut j: usize = 0;
    while j < environment.len()
        invariant
            j <= environment.len(),
            env == environment.deep_view(),
            forall|a: int, b: int| 0 <= a < b < j ==> env[a].0 != env[b].0,
        decreases environment.len() - j,
    {
        let mut i: usize = 0;
        while i < j
            invariant
                i <= j,
                j < environment.len(),
                env == environment.deep_view(),
                forall|a: int| 0 <= a < i ==> env[a].0 != env[j as int].0,
            decreases j - i,
        {
            assert(env[i as int].0 == environment@[i as int].0@);
            assert(env[j as int].0 == environment@[j as int].0@);
            if environment[i].0 == environment[j].0 {
                return false;
            }
            i += 1;
        }
        j += 1;
    }
    true
}

/// The last value set for a name is the one that counts: after a variable
/// is set, it has the value it was set to, every other variable has the
/// value it had, and no variable is set twice.
pub proof fn lemma_put_then_get(env: Pairs, key: Seq<char>, value: Seq<char>, other: Seq<char>)
    requires
        unique_keys(env),
    ensures
        unique_keys(put(env, key, value)),
        value_at(put(env, key, value), key) == Some(value),
        other != key ==> value_at(put(env, key, value), other) == value_at(env, other),
{
    lemma_put_keeps_keys_unique(env, key, value);
    let next = put(env, key, value);
    lemma_key_position_finds(env, key);
    lemma_key_position_finds(env, other);
    lemma_key_position_finds(next, key);
    lemma_key_position_finds(next, other);
    match key_position(env, key) {
        Some(i) => {
            assert(next[i].0 == key);
        },
        None => {
            assert(next[env.len() as int].0 == key);
        },
    }
    let k = key_position(next, key)->0;
    if other != key {
        match key_position(env, other) {
            Some(j) => {
                assert(next[j] == env[j]);
                assert(key_position(next, other) is Some);
                let m = key_position(next, other)->0;
                if m != j {
                    if m < j {
                        assert(next[m].0 != next[j].0);
                    } else {
                        assert(next[j].0 != next[m].0);
                    }
                }
            },
            None => {
                if key_position(next, other) is Some {
                    let m = key_position(next, other)->0;
                    if m < env.len() {
                        assert(env[m].0 != other);
                    }
                }
            },
        }
    }
    match key_position(env, key) {
        Some(i) => {
            if k != i {
                if k < i {
                    assert(next[k].0 != next[i].0);
                } else {
                    assert(next[i].0 != next[k].0);
                }
            }
        },
        None => {
            let i = env.len() as int;
            if k != i {
                assert(next[k].0 != next[i].0);
            }
        },
    }
}

} // verus!
