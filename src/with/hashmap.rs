//! Mappers for keyed collections.
use vstd::prelude::*;
use vstd::std_specs::convert::{IntoSpec, TryIntoSpec};
use vstd::std_specs::hash::{axiom_random_state_builds_valid_hashers, obeys_key_model};

use std::collections::HashMap;
use std::hash::Hash;

use crate::with::error::anyhow_wrap;
use crate::with::{ExtraInto, TryExtraInto};

verus! {

/// The entries of `m`, each once, in any order.
pub open spec fn entries_of<K, V>(m: Map<K, V>, r: Seq<(K, V)>) -> bool {
    &&& forall|i: int| 0 <= i < r.len() ==> #[trigger] m.contains_key(r[i].0) && m[r[i].0] == r[i].1
    &&& forall|k: K| #[trigger] m.contains_key(k) ==> exists|i: int| 0 <= i < r.len() && r[i].0 == k
}

/// Relies on `Vec::from_iter` over a `HashMap`'s consuming iterator, which
/// yields every entry of the map exactly once, in an unspecified order.
#[verifier::external_body]
fn into_entries<K, V>(m: HashMap<K, V>) -> (r: Vec<(K, V)>)
    ensures
        obeys_key_model::<K>() ==> entries_of(m@, r@),
{
    Vec::from_iter(m)
}

/// Every key of `from` has its converted counterpart in `to`, and every entry
/// of `to` is the conversion of an entry of `from`.
pub open spec fn converted<KF, VF, KI, VI>(from: Map<KF, VF>, to: Map<KI, VI>) -> bool
    where
        KF: Into<KI>,
        VF: Into<VI>,
{
    &&& forall|k: KF| #[trigger] from.contains_key(k) ==> to.contains_key(k.into_spec())
    &&& forall|k: KI|
        #[trigger] to.contains_key(k) ==> exists|j: KF|
            from.contains_key(j) && j.into_spec() == k && to[k] == from[j].into_spec()
}

/// Maps every key and value with `Into`. Keys that convert to the same key
/// keep one of their values.
pub fn hashmap<KI, VI, KF, VF>(from: HashMap<KF, VF>) -> (r: HashMap<KI, VI>)
    where
        KI: Eq + Hash,
        KF: Eq + Hash,
        KF: Into<KI>,
        VF: Into<VI>,
    ensures
        obeys_key_model::<KF>() && obeys_key_model::<KI>() && KF::obeys_into_spec()
            && VF::obeys_into_spec() ==> converted(from@, r@),
{
    broadcast use axiom_random_state_builds_valid_hashers;
    let ghost src = from@;
    let entries = into_entries(from);
    let ghost es = entries@;
    let mut r: HashMap<KI, VI> = HashMap::with_capacity(entries.len());
    let ghost valid = obeys_key_model::<KF>() && obeys_key_model::<KI>() && KF::obeys_into_spec()
        && VF::obeys_into_spec();
    for e in it: entries.into_iter()
        invariant
            it.seq() == es,
            valid ==> entries_of(src, es),
            valid == (obeys_key_model::<KF>() && obeys_key_model::<KI>() && KF::obeys_into_spec()
                && VF::obeys_into_spec()),
            valid ==> forall|i: int| 0 <= i < it.index() ==> #[trigger] r@.contains_key(es[i].0.into_spec()),
            valid ==> forall|k: KI|
                #[trigger] r@.contains_key(k) ==> exists|i: int|
                    0 <= i < it.index() && es[i].0.into_spec() == k && r@[k] == es[i].1.into_spec(),
    {
        let ghost idx = it.index();
        let (k, v) = e;
        let ghost before = r@;
        r.insert(k.into(), v.into());
        proof {
            if valid {
                assert forall|k2: KI| #[trigger] r@.contains_key(k2) implies exists|i: int|
                    0 <= i < idx + 1 && es[i].0.into_spec() == k2 && r@[k2] == es[i].1.into_spec() by {
                    if k2 == es[idx].0.into_spec() {
                        assert(0 <= idx < idx + 1 && es[idx].0.into_spec() == k2);
                    } else {
                        assert(before.contains_key(k2));
                    }
                }
                assert forall|i: int| 0 <= i < idx + 1 implies #[trigger] r@.contains_key(es[i].0.into_spec()) by {
                    if i < idx {
                        assert(before.contains_key(es[i].0.into_spec()));
                    }
                }
            }
        }
    }
    proof {
        if valid {
            assert forall|k: KF| #[trigger] src.contains_key(k) implies r@.contains_key(k.into_spec()) by {
                let i = choose|i: int| 0 <= i < es.len() && es[i].0 == k;
                assert(r@.contains_key(es[i].0.into_spec()));
            }
            assert forall|k: KI| #[trigger] r@.contains_key(k) implies exists|j: KF|
                src.contains_key(j) && j.into_spec() == k && r@[k] == src[j].into_spec() by {
                let i = choose|i: int| 0 <= i < es.len() && es[i].0.into_spec() == k && r@[k] == es[i].1.into_spec();
                assert(src.contains_key(es[i].0));
            }
        }
    }
    r
}

/// Both the key and the value of an entry convert.
pub open spec fn entry_converts<KF, VF, KI, VI>(k: KF, v: VF) -> bool
    where
        KF: TryInto<KI>,
        VF: TryInto<VI>,
{
    k.try_into_spec() is Ok && v.try_into_spec() is Ok
}

/// `to` holds the converted entries of `from`.
pub open spec fn try_converted<KF, VF, KI, VI>(from: Map<KF, VF>, to: Map<KI, VI>) -> bool
    where
        KF: TryInto<KI>,
        VF: TryInto<VI>,
{
    &&& forall|k: KF| #[trigger] from.contains_key(k) ==> to.contains_key(k.try_into_spec()->Ok_0)
    &&& forall|k: KI|
        #[trigger] to.contains_key(k) ==> exists|j: KF|
            from.contains_key(j) && j.try_into_spec() == Ok::<KI, <KF as TryInto<KI>>::Error>(k)
                && from[j].try_into_spec() == Ok::<VI, <VF as TryInto<VI>>::Error>(to[k])
}

/// Maps every key and value with `TryInto`, and stops at the first entry
/// that does not convert, with its error.
pub fn try_hashmap<KI, VI, KF, VF>(from: HashMap<KF, VF>) -> (r: Result<HashMap<KI, VI>, anyhow::Error>)
    where
        KI: Eq + Hash,
        KF: Eq + Hash,
        KF: TryInto<KI>,
        <KF as TryInto<KI>>::Error: std::error::Error + Send + Sync + 'static,
        VF: TryInto<VI>,
        <VF as TryInto<VI>>::Error: std::error::Error + Send + Sync + 'static,
    ensures
        obeys_key_model::<KF>() && obeys_key_model::<KI>() && KF::obeys_try_into_spec()
            && VF::obeys_try_into_spec() ==> {
            &&& r is Ok <==> forall|k: KF| #[trigger] from@.contains_key(k) ==> entry_converts::<KF, VF, KI, VI>(k, from@[k])
            &&& r matches Ok(m) ==> try_converted(from@, m@)
        },
{
    broadcast use axiom_random_state_builds_valid_hashers;
    let ghost src = from@;
    let entries = into_entries(from);
    let ghost es = entries@;
    let mut r: HashMap<KI, VI> = HashMap::with_capacity(entries.len());
    let ghost valid = obeys_key_model::<KF>() && obeys_key_model::<KI>() && KF::obeys_try_into_spec()
        && VF::obeys_try_into_spec();
    for e in it: entries.into_iter()
        invariant
            it.seq() == es,
            src == from@,
            valid ==> entries_of(src, es),
            valid == (obeys_key_model::<KF>() && obeys_key_model::<KI>() && KF::obeys_try_into_spec()
                && VF::obeys_try_into_spec()),
            valid ==> forall|i: int| 0 <= i < it.index() ==> #[trigger] entry_converts::<KF, VF, KI, VI>(es[i].0, es[i].1),
            valid ==> forall|i: int| 0 <= i < it.index() ==> #[trigger] r@.contains_key(es[i].0.try_into_spec()->Ok_0),
            valid ==> forall|k: KI|
                #[trigger] r@.contains_key(k) ==> exists|i: int|
                    0 <= i < it.index() && es[i].0.try_into_spec() == Ok::<KI, <KF as TryInto<KI>>::Error>(k)
                        && es[i].1.try_into_spec() == Ok::<VI, <VF as TryInto<VI>>::Error>(r@[k]),
    {
        let ghost idx = it.index();
        proof {
            assert(e == es[idx as int]);
        }
        let (k, v) = e;
        let k2 = match k.try_into() {
            Ok(k2) => k2,
            Err(err) => {
                proof {
                    if valid {
                        assert(src.contains_key(es[idx].0));
                        assert(!entry_converts::<KF, VF, KI, VI>(es[idx].0, src[es[idx].0]));
                        assert(!(forall|k: KF| #[trigger] src.contains_key(k) ==> entry_converts::<KF, VF, KI, VI>(k, src[k])));
                    }
                }
                return Err(anyhow_wrap(err));
            },
        };
        let v2 = match v.try_into() {
            Ok(v2) => v2,
            Err(err) => {
                proof {
                    if valid {
                        assert(src.contains_key(es[idx].0));
                        assert(!entry_converts::<KF, VF, KI, VI>(es[idx].0, src[es[idx].0]));
                        assert(!(forall|k: KF| #[trigger] src.contains_key(k) ==> entry_converts::<KF, VF, KI, VI>(k, src[k])));
                    }
                }
                return Err(anyhow_wrap(err));
            },
        };
        let ghost before = r@;
        r.insert(k2, v2);
        proof {
            if valid {
                assert(entry_converts::<KF, VF, KI, VI>(es[idx].0, es[idx].1));
                assert forall|k3: KI| #[trigger] r@.contains_key(k3) implies exists|i: int|
                    0 <= i < idx + 1 && es[i].0.try_into_spec() == Ok::<KI, <KF as TryInto<KI>>::Error>(k3)
                        && es[i].1.try_into_spec() == Ok::<VI, <VF as TryInto<VI>>::Error>(r@[k3]) by {
                    if k3 == es[idx].0.try_into_spec()->Ok_0 {
                        assert(0 <= idx < idx + 1);
                    } else {
                        assert(before.contains_key(k3));
                    }
                }
                assert forall|i: int| 0 <= i < idx + 1 implies #[trigger] r@.contains_key(es[i].0.try_into_spec()->Ok_0) by {
                    if i < idx {
                        assert(before.contains_key(es[i].0.try_into_spec()->Ok_0));
                    }
                }
            }
        }
    }
    proof {
        if valid {
            assert forall|k: KF| #[trigger] src.contains_key(k) implies entry_converts::<KF, VF, KI, VI>(k, src[k])
                && r@.contains_key(k.try_into_spec()->Ok_0) by {
                let i = choose|i: int| 0 <= i < es.len() && es[i].0 == k;
                assert(entry_converts::<KF, VF, KI, VI>(es[i].0, es[i].1));
                assert(r@.contains_key(es[i].0.try_into_spec()->Ok_0));
            }
            assert forall|k: KI| #[trigger] r@.contains_key(k) implies exists|j: KF|
                src.contains_key(j) && j.try_into_spec() == Ok::<KI, <KF as TryInto<KI>>::Error>(k)
                    && src[j].try_into_spec() == Ok::<VI, <VF as TryInto<VI>>::Error>(r@[k]) by {
                let i = choose|i: int| 0 <= i < es.len() && es[i].0.try_into_spec() == Ok::<KI, <KF as TryInto<KI>>::Error>(k)
                    && es[i].1.try_into_spec() == Ok::<VI, <VF as TryInto<VI>>::Error>(r@[k]);
                assert(src.contains_key(es[i].0));
            }
        }
    }
    Ok(r)
}

/// Every key of `from` converts to a key of `to`, and every entry of `to` is
/// the conversion of an entry of `from`, as `ExtraInto` describes them.
pub open spec fn extra_converted<KF, VF, KI, VI>(from: Map<KF, VF>, to: Map<KI, VI>) -> bool
    where
        KF: ExtraInto<KI>,
        VF: ExtraInto<VI>,
{
    &&& forall|k: KF|
        #[trigger] from.contains_key(k) ==> exists|k2: KI| to.contains_key(k2) && k.extra_into_ensures(k2)
    &&& forall|k: KI|
        #[trigger] to.contains_key(k) ==> exists|j: KF|
            from.contains_key(j) && j.extra_into_ensures(k) && from[j].extra_into_ensures(to[k])
}

/// Maps every key and value with `ExtraInto`. Keys that convert to the same
/// key keep one of their values.
pub fn hashmap_extra<KI, VI, KF, VF>(from: HashMap<KF, VF>) -> (r: HashMap<KI, VI>)
    where
        KI: Eq + Hash,
        KF: Eq + Hash,
        KF: ExtraInto<KI>,
        VF: ExtraInto<VI>,
    ensures
        obeys_key_model::<KF>() && obeys_key_model::<KI>() && KF::obeys_extra_into()
            && VF::obeys_extra_into() ==> extra_converted(from@, r@),
{
    broadcast use axiom_random_state_builds_valid_hashers;
    let ghost src = from@;
    let entries = into_entries(from);
    let ghost es = entries@;
    let mut r: HashMap<KI, VI> = HashMap::with_capacity(entries.len());
    let ghost valid = obeys_key_model::<KF>() && obeys_key_model::<KI>() && KF::obeys_extra_into()
        && VF::obeys_extra_into();
    let ghost mut keys: Seq<KI> = Seq::empty();
    for e in it: entries.into_iter()
        invariant
            it.seq() == es,
            src == from@,
            keys.len() == it.index(),
            valid ==> entries_of(src, es),
            valid == (obeys_key_model::<KF>() && obeys_key_model::<KI>() && KF::obeys_extra_into()
                && VF::obeys_extra_into()),
            valid ==> forall|i: int|
                0 <= i < it.index() ==> #[trigger] r@.contains_key(keys[i]) && es[i].0.extra_into_ensures(keys[i]),
            valid ==> forall|k: KI|
                #[trigger] r@.contains_key(k) ==> exists|i: int|
                    0 <= i < it.index() && es[i].0.extra_into_ensures(k) && es[i].1.extra_into_ensures(r@[k]),
    {
        let ghost idx = it.index();
        proof {
            assert(e == es[idx as int]);
        }
        let (k, v) = e;
        let k2 = k.into_extra();
        let v2 = v.into_extra();
        let ghost before = r@;
        proof {
            keys = keys.push(k2);
        }
        r.insert(k2, v2);
        proof {
            if valid {
                assert forall|k3: KI| #[trigger] r@.contains_key(k3) implies exists|i: int|
                    0 <= i < idx + 1 && es[i].0.extra_into_ensures(k3) && es[i].1.extra_into_ensures(r@[k3]) by {
                    if k3 == keys[idx as int] {
                        assert(0 <= idx < idx + 1);
                    } else {
                        assert(before.contains_key(k3));
                    }
                }
                assert forall|i: int| 0 <= i < idx + 1 implies #[trigger] r@.contains_key(keys[i])
                    && es[i].0.extra_into_ensures(keys[i]) by {
                    if i < idx {
                        assert(before.contains_key(keys[i]));
                    }
                }
            }
        }
    }
    proof {
        if valid {
            assert forall|k: KF| #[trigger] src.contains_key(k) implies exists|k2: KI|
                r@.contains_key(k2) && k.extra_into_ensures(k2) by {
                let i = choose|i: int| 0 <= i < es.len() && es[i].0 == k;
                assert(r@.contains_key(keys[i]) && es[i].0.extra_into_ensures(keys[i]));
            }
            assert forall|k: KI| #[trigger] r@.contains_key(k) implies exists|j: KF|
                src.contains_key(j) && j.extra_into_ensures(k) && src[j].extra_into_ensures(r@[k]) by {
                let i = choose|i: int| 0 <= i < es.len() && es[i].0.extra_into_ensures(k) && es[i].1.extra_into_ensures(r@[k]);
                assert(src.contains_key(es[i].0));
            }
        }
    }
    r
}

/// An entry of `from` whose key or value does not convert.
pub open spec fn has_failing_entry<KF, VF, KI, VI>(from: Map<KF, VF>) -> bool
    where
        KF: TryExtraInto<KI>,
        VF: TryExtraInto<VI>,
{
    exists|k: KF|
        #[trigger] from.contains_key(k) && ((exists|e: <KF as TryExtraInto<KI>>::Error|
            k.try_extra_into_ensures(Err(e))) || (exists|e: <VF as TryExtraInto<VI>>::Error|
            from[k].try_extra_into_ensures(Err(e))))
}

/// `to` holds the converted entries of `from`, as `TryExtraInto` describes them.
pub open spec fn try_extra_converted<KF, VF, KI, VI>(from: Map<KF, VF>, to: Map<KI, VI>) -> bool
    where
        KF: TryExtraInto<KI>,
        VF: TryExtraInto<VI>,
{
    &&& forall|k: KF|
        #[trigger] from.contains_key(k) ==> exists|k2: KI|
            to.contains_key(k2) && k.try_extra_into_ensures(Ok(k2))
    &&& forall|k: KI|
        #[trigger] to.contains_key(k) ==> exists|j: KF|
            from.contains_key(j) && j.try_extra_into_ensures(Ok(k)) && from[j].try_extra_into_ensures(
                Ok(to[k]),
            )
}

/// Maps every key and value with `TryExtraInto`, and stops at the first
/// entry that does not convert.
pub fn try_hashmap_extra<KI, VI, KF, VF>(from: HashMap<KF, VF>) -> (r: Result<HashMap<KI, VI>, anyhow::Error>)
    where
        KI: Eq + Hash,
        KF: Eq + Hash,
        KF: TryExtraInto<KI>,
        <KF as TryExtraInto<KI>>::Error: std::error::Error + Send + Sync + 'static,
        VF: TryExtraInto<VI>,
        <VF as TryExtraInto<VI>>::Error: std::error::Error + Send + Sync + 'static,
    ensures
        obeys_key_model::<KF>() && obeys_key_model::<KI>() && KF::obeys_try_extra_into()
            && VF::obeys_try_extra_into() ==> match r {
            Ok(m) => try_extra_converted(from@, m@),
            Err(_) => has_failing_entry::<KF, VF, KI, VI>(from@),
        },
{
    broadcast use axiom_random_state_builds_valid_hashers;
    let ghost src = from@;
    let entries = into_entries(from);
    let ghost es = entries@;
    let mut r: HashMap<KI, VI> = HashMap::with_capacity(entries.len());
    let ghost valid = obeys_key_model::<KF>() && obeys_key_model::<KI>() && KF::obeys_try_extra_into()
        && VF::obeys_try_extra_into();
    let ghost mut keys: Seq<KI> = Seq::empty();
    for e in it: entries.into_iter()
        invariant
            it.seq() == es,
            src == from@,
            keys.len() == it.index(),
            valid ==> entries_of(src, es),
            valid == (obeys_key_model::<KF>() && obeys_key_model::<KI>() && KF::obeys_try_extra_into()
                && VF::obeys_try_extra_into()),
            valid ==> forall|i: int|
                0 <= i < it.index() ==> #[trigger] r@.contains_key(keys[i]) && es[i].0.try_extra_into_ensures(Ok(keys[i])),
            valid ==> forall|k: KI|
                #[trigger] r@.contains_key(k) ==> exists|i: int|
                    0 <= i < it.index() && es[i].0.try_extra_into_ensures(Ok(k))
                        && es[i].1.try_extra_into_ensures(Ok(r@[k])),
    {
        let ghost idx = it.index();
        proof {
            assert(e == es[idx as int]);
        }
        let (k, v) = e;
        let ghost (gk, gv) = (k, v);
        let k2 = match k.try_into_extra() {
            Ok(k2) => k2,
            Err(err) => {
                proof {
                    if valid {
                        assert(src.contains_key(gk));
                        assert(gk.try_extra_into_ensures(Err(err)));
                    }
                }
                return Err(anyhow_wrap(err));
            },
        };
        let v2 = match v.try_into_extra() {
            Ok(v2) => v2,
            Err(err) => {
                proof {
                    if valid {
                        assert(src.contains_key(gk));
                        assert(src[gk] == gv);
                        assert(gv.try_extra_into_ensures(Err(err)));
                    }
                }
                return Err(anyhow_wrap(err));
            },
        };
        let ghost before = r@;
        proof {
            keys = keys.push(k2);
        }
        r.insert(k2, v2);
        proof {
            if valid {
                assert forall|k3: KI| #[trigger] r@.contains_key(k3) implies exists|i: int|
                    0 <= i < idx + 1 && es[i].0.try_extra_into_ensures(Ok(k3))
                        && es[i].1.try_extra_into_ensures(Ok(r@[k3])) by {
                    if k3 == keys[idx as int] {
                        assert(0 <= idx < idx + 1);
                    } else {
                        assert(before.contains_key(k3));
                    }
                }
                assert forall|i: int| 0 <= i < idx + 1 implies #[trigger] r@.contains_key(keys[i])
                    && es[i].0.try_extra_into_ensures(Ok(keys[i])) by {
                    if i < idx {
                        assert(before.contains_key(keys[i]));
                    }
                }
            }
        }
    }
    proof {
        if valid {
            assert forall|k: KF| #[trigger] src.contains_key(k) implies exists|k2: KI|
                r@.contains_key(k2) && k.try_extra_into_ensures(Ok(k2)) by {
                let i = choose|i: int| 0 <= i < es.len() && es[i].0 == k;
                assert(r@.contains_key(keys[i]) && es[i].0.try_extra_into_ensures(Ok(keys[i])));
            }
            assert forall|k: KI| #[trigger] r@.contains_key(k) implies exists|j: KF|
                src.contains_key(j) && j.try_extra_into_ensures(Ok(k)) && src[j].try_extra_into_ensures(
                    Ok(r@[k]),
                ) by {
                let i = choose|i: int| 0 <= i < es.len() && es[i].0.try_extra_into_ensures(Ok(k))
                    && es[i].1.try_extra_into_ensures(Ok(r@[k]));
                assert(src.contains_key(es[i].0));
            }
        }
    }
    Ok(r)
}

} // verus!
