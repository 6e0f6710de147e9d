//! The environment arena: a chain of mutable variable scopes.
//!
//! A scope maps names to values and optionally links to an enclosing
//! scope.  Sharing arises through closures keeping a captured scope
//! alive after the defining block exits, so scopes are held in an
//! arena with stable indices and values carry indices; links only ever
//! point to scopes created earlier, so chains are acyclic.
//!
//! Within one scope a name may be bound several times; the latest
//! binding shadows the earlier ones, so lookup walks entries from the
//! most recent backwards.

use vstd::prelude::*;

use crate::value::RuntimeError;
use crate::value::SpecValue;
use crate::value::Value;
use crate::value::value_view;

verus! {

/// One lexical scope: its bindings, and the enclosing scope if any.
pub struct Env {
    pub entries: Vec<(String, Value)>,
    pub enclosing: Option<usize>,
}

/// Ghost mirror of [`Env`].
#[verifier::ext_equal]
pub ghost struct SpecEnv {
    pub entries: Seq<(Seq<char>, SpecValue)>,
    pub enclosing: Option<usize>,
}

pub open spec fn entries_view(es: Seq<(String, Value)>) -> Seq<(Seq<char>, SpecValue)> {
    Seq::new(es.len(), |i: int| (es[i].0@, value_view(es[i].1)))
}

pub open spec fn env_view(e: Env) -> SpecEnv {
    SpecEnv { entries: entries_view(e.entries@), enclosing: e.enclosing }
}

impl View for Env {
    type V = SpecEnv;

    open spec fn view(&self) -> SpecEnv {
        env_view(*self)
    }
}

pub open spec fn envs_view(es: Seq<Env>) -> Seq<SpecEnv> {
    Seq::new(es.len(), |i: int| env_view(es[i]))
}

/// Latest binding of `name` among `es[i..]`, if any.
pub open spec fn assoc_find_from<V>(es: Seq<(Seq<char>, V)>, name: Seq<char>, i: int) -> Option<V>
    decreases es.len() - i,
{
    if i < 0 || i >= es.len() {
        None
    } else {
        match assoc_find_from(es, name, i + 1) {
            Some(v) => Some(v),
            None => if es[i].0 == name {
                Some(es[i].1)
            } else {
                None
            },
        }
    }
}

/// Latest binding of `name` in a name-keyed entry list.
pub open spec fn assoc_find<V>(es: Seq<(Seq<char>, V)>, name: Seq<char>) -> Option<V> {
    assoc_find_from(es, name, 0)
}

/// Overwrite the latest binding of `name` among `es[i..]`; `None` if
/// the name is not bound there.
pub open spec fn assoc_update_from<V>(
    es: Seq<(Seq<char>, V)>,
    name: Seq<char>,
    v: V,
    i: int,
) -> Option<Seq<(Seq<char>, V)>>
    decreases es.len() - i,
{
    if i < 0 || i >= es.len() {
        None
    } else {
        match assoc_update_from(es, name, v, i + 1) {
            Some(r) => Some(r),
            None => if es[i].0 == name {
                Some(es.update(i, (name, v)))
            } else {
                None
            },
        }
    }
}

pub open spec fn assoc_update<V>(es: Seq<(Seq<char>, V)>, name: Seq<char>, v: V) -> Option<
    Seq<(Seq<char>, V)>,
> {
    assoc_update_from(es, name, v, 0)
}

pub open spec fn entries_find(es: Seq<(Seq<char>, SpecValue)>, name: Seq<char>) -> Option<
    SpecValue,
> {
    assoc_find(es, name)
}

pub open spec fn entries_update(
    es: Seq<(Seq<char>, SpecValue)>,
    name: Seq<char>,
    v: SpecValue,
) -> Option<Seq<(Seq<char>, SpecValue)>> {
    assoc_update(es, name, v)
}

/// The scope reached from `cur` after exactly `hops` enclosing-scope
/// links; `None` if the chain is too short or an index is out of
/// range (both mark an internal inconsistency).
pub open spec fn ancestor_at(envs: Seq<SpecEnv>, cur: usize, hops: usize) -> Option<usize>
    decreases hops,
{
    if cur >= envs.len() {
        None
    } else if hops == 0 {
        Some(cur)
    } else {
        match envs[cur as int].enclosing {
            Some(p) => ancestor_at(envs, p, (hops - 1) as usize),
            None => None,
        }
    }
}

/// `define`: insert a binding in scope `cur` only, shadowing any
/// earlier binding of the same name there.
pub open spec fn spec_define(
    envs: Seq<SpecEnv>,
    cur: usize,
    name: Seq<char>,
    v: SpecValue,
) -> Option<Seq<SpecEnv>> {
    if cur >= envs.len() {
        None
    } else {
        Some(
            envs.update(
                cur as int,
                SpecEnv {
                    entries: envs[cur as int].entries.push((name, v)),
                    enclosing: envs[cur as int].enclosing,
                },
            ),
        )
    }
}

/// `get`: search scope `cur`, then outward along enclosing links.
pub open spec fn spec_get(envs: Seq<SpecEnv>, cur: usize, name: Seq<char>) -> Result<
    SpecValue,
    RuntimeError,
>
    decreases cur,
{
    if cur >= envs.len() {
        Err(RuntimeError::Internal)
    } else {
        match entries_find(envs[cur as int].entries, name) {
            Some(v) => Ok(v),
            None => match envs[cur as int].enclosing {
                Some(p) => if p < cur {
                    spec_get(envs, p, name)
                } else {
                    Err(RuntimeError::Internal)
                },
                None => Err(RuntimeError::UndefinedVariable),
            },
        }
    }
}

/// `get_at`: follow exactly `hops` links, then look `name` up in that
/// one scope.  Absence there marks a resolver defect, not a user
/// error.
pub open spec fn spec_get_at(
    envs: Seq<SpecEnv>,
    cur: usize,
    hops: usize,
    name: Seq<char>,
) -> Result<SpecValue, RuntimeError> {
    match ancestor_at(envs, cur, hops) {
        Some(i) => match entries_find(envs[i as int].entries, name) {
            Some(v) => Ok(v),
            None => Err(RuntimeError::Internal),
        },
        None => Err(RuntimeError::Internal),
    }
}

/// `assign`: overwrite the binding in the innermost scope of the chain
/// that holds `name`.
pub open spec fn spec_assign(
    envs: Seq<SpecEnv>,
    cur: usize,
    name: Seq<char>,
    v: SpecValue,
) -> Result<Seq<SpecEnv>, RuntimeError>
    decreases cur,
{
    if cur >= envs.len() {
        Err(RuntimeError::Internal)
    } else {
        match entries_update(envs[cur as int].entries, name, v) {
            Some(es) => Ok(
                envs.update(
                    cur as int,
                    SpecEnv { entries: es, enclosing: envs[cur as int].enclosing },
                ),
            ),
            None => match envs[cur as int].enclosing {
                Some(p) => if p < cur {
                    spec_assign(envs, p, name, v)
                } else {
                    Err(RuntimeError::Internal)
                },
                None => Err(RuntimeError::UndefinedVariable),
            },
        }
    }
}

/// `assign_at`: overwrite the binding of `name` in the scope exactly
/// `hops` links away.
pub open spec fn spec_assign_at(
    envs: Seq<SpecEnv>,
    cur: usize,
    hops: usize,
    name: Seq<char>,
    v: SpecValue,
) -> Result<Seq<SpecEnv>, RuntimeError> {
    match ancestor_at(envs, cur, hops) {
        Some(i) => match entries_update(envs[i as int].entries, name, v) {
            Some(es) => Ok(
                envs.update(
                    i as int,
                    SpecEnv { entries: es, enclosing: envs[i as int].enclosing },
                ),
            ),
            None => Err(RuntimeError::Internal),
        },
        None => Err(RuntimeError::Internal),
    }
}

fn find_entry_from(entries: &Vec<(String, Value)>, name: &String, i: usize) -> (r: Option<Value>)
    ensures
        opt_value_view_local(r) == assoc_find_from(entries_view(entries@), name@, i as int),
    decreases entries.len() - i,
{
    if i >= entries.len() {
        None
    } else {
        match find_entry_from(entries, name, i + 1) {
            Some(v) => Some(v),
            None => {
                let pair = &entries[i];
                if pair.0.eq(name) {
                    Some(pair.1.clone())
                } else {
                    None
                }
            },
        }
    }
}

pub open spec fn opt_value_view_local(r: Option<Value>) -> Option<SpecValue> {
    match r {
        Some(v) => Some(value_view(v)),
        None => None,
    }
}

/// Look a name up in one scope's entry list, latest binding first.
pub fn find_entry(entries: &Vec<(String, Value)>, name: &String) -> (r: Option<Value>)
    ensures
        opt_value_view_local(r) == entries_find(entries_view(entries@), name@),
{
    find_entry_from(entries, name, 0)
}

fn update_entry_from(entries: &mut Vec<(String, Value)>, name: &String, v: &Value, i: usize) -> (ok:
    bool)
    ensures
        match assoc_update_from(entries_view(old(entries)@), name@, v@, i as int) {
            Some(es) => ok && entries_view(final(entries)@) == es,
            None => !ok && final(entries)@ == old(entries)@,
        },
    decreases entries.len() - i,
{
    if i >= entries.len() {
        false
    } else {
        if update_entry_from(entries, name, v, i + 1) {
            true
        } else {
            let hit = entries[i].0.eq(name);
            if hit {
                entries.set(i, (name.clone(), v.clone()));
                proof {
                    assert(entries_view(entries@) =~= entries_view(old(entries)@).update(
                        i as int,
                        (name@, v@),
                    ));
                }
                true
            } else {
                false
            }
        }
    }
}

/// Overwrite the latest binding of a name in one scope's entry list;
/// `false` (and no change) if the name is not bound there.
pub fn update_entry(entries: &mut Vec<(String, Value)>, name: &String, v: &Value) -> (ok: bool)
    ensures
        match entries_update(entries_view(old(entries)@), name@, v@) {
            Some(es) => ok && entries_view(final(entries)@) == es,
            None => !ok && final(entries)@ == old(entries)@,
        },
{
    update_entry_from(entries, name, v, 0)
}

} // verus!
