//! Properties of the validation pass, stated over its spec functions and
//! proved.
use vstd::prelude::*;
use crate::aggregate::Slot;
use crate::check::{check_step, spec_check, CheckState, DiagKind, Diagnostic};
use crate::parse::{spec_parse_attr, RawAttrModel};
use crate::target::{expected_for, legal_targets, Target};
use crate::vocab::{category_of, AttrModel, Category};

verus! {

/// The decoration that a raw decoration parses to, when it parses.
pub open spec fn parsed(raw: RawAttrModel) -> AttrModel {
    spec_parse_attr(raw)->Ok_0
}

/// The conflict diagnostics among `d`, in order.
pub open spec fn conflicts(d: Seq<Diagnostic>) -> Seq<Diagnostic>
    decreases d.len(),
{
    if d.len() == 0 {
        d
    } else if d.last().kind is Multiple {
        conflicts(d.drop_last()).push(d.last())
    } else {
        conflicts(d.drop_last())
    }
}

proof fn lemma_conflicts_push(d: Seq<Diagnostic>, x: Diagnostic)
    ensures
        conflicts(d.push(x)) == if x.kind is Multiple {
            conflicts(d).push(x)
        } else {
            conflicts(d)
        },
{
    assert(d.push(x).drop_last() =~= d);
}

proof fn lemma_check_unfold(raws: Seq<RawAttrModel>, target: Target, parent_entry: bool)
    requires
        raws.len() > 0,
    ensures
        spec_check(raws, target, parent_entry) == check_step(
            spec_check(raws.drop_last(), target, parent_entry),
            raws.last(),
            target,
            parent_entry,
        ),
{
}

/// A decoration that parses is kept at a position exactly when the legality
/// table admits that kind of position (its category being still empty);
/// when it does not, the summary is unchanged and the one diagnostic added
/// names the class of positions expected and the kind found.
pub proof fn lemma_legality_decides(
    st: CheckState,
    raw: RawAttrModel,
    target: Target,
    parent_entry: bool,
)
    requires
        spec_parse_attr(raw) is Ok,
        !st.0.contains_key(category_of(parsed(raw))),
    ensures
        ({
            let c = category_of(parsed(raw));
            let next = check_step(st, raw, target, parent_entry);
            &&& next.0.contains_key(c) <==> legal_targets(c).contains(target)
            &&& legal_targets(c).contains(target) ==> next.0 == st.0.insert(c, (parsed(raw), raw.span))
            &&& !legal_targets(c).contains(target) ==> next == (
                st.0,
                st.1.push(
                    Diagnostic {
                        span: raw.span,
                        kind: DiagKind::WrongTarget { expected: expected_for(c), actual: target },
                        note: None,
                    },
                ),
            )
        }),
{
}

/// A parameter decoration on a parameter whose function is not an entry
/// point is reported as such, and is kept all the same when its category is
/// still empty.
pub proof fn lemma_orphan_param_decoration(st: CheckState, raw: RawAttrModel)
    requires
        spec_parse_attr(raw) is Ok,
        category_of(parsed(raw)).is_param_decoration(),
    ensures
        ({
            let c = category_of(parsed(raw));
            let next = check_step(st, raw, Target::Param, false);
            &&& next.1.len() > st.1.len()
            &&& next.1[st.1.len() as int] == (Diagnostic {
                span: raw.span,
                kind: DiagKind::NotEntryParam,
                note: None,
            })
            &&& next.0.contains_key(c)
            &&& !st.0.contains_key(c) ==> next.0 == st.0.insert(c, (parsed(raw), raw.span))
        }),
{
}

/// On a macro definition no decoration is kept, whatever its category, and
/// each one is reported at its own location.
pub proof fn lemma_macro_def_rejects_all(raws: Seq<RawAttrModel>, parent_entry: bool)
    ensures
        ({
            let st = spec_check(raws, Target::MacroDef, parent_entry);
            &&& st.0 == Map::<Category, Slot>::empty()
            &&& st.1.len() == raws.len()
            &&& forall|i: int|
                0 <= i < raws.len() ==> (#[trigger] st.1[i]).span == raws[i].span && (
                st.1[i].kind is Parse || st.1[i].kind is WrongTarget)
        }),
    decreases raws.len(),
{
    if raws.len() > 0 {
        lemma_macro_def_rejects_all(raws.drop_last(), parent_entry);
        lemma_check_unfold(raws, Target::MacroDef, parent_entry);
        let prev = spec_check(raws.drop_last(), Target::MacroDef, parent_entry);
        let st = spec_check(raws, Target::MacroDef, parent_entry);
        if spec_parse_attr(raws.last()) is Ok {
            let c = category_of(parsed(raws.last()));
            assert(!legal_targets(c).contains(Target::MacroDef));
        }
        assert forall|i: int| 0 <= i < raws.len() implies (#[trigger] st.1[i]).span == raws[i].span
            && (st.1[i].kind is Parse || st.1[i].kind is WrongTarget) by {
            if i < raws.len() - 1 {
                assert(st.1[i] == prev.1[i]);
                assert(raws.drop_last()[i] == raws[i]);
            }
        }
    }
}

/// Decorations of one category, all legal on the position: the first is
/// kept, and each later one gives one conflict diagnostic that points back
/// at the first.
pub proof fn lemma_duplicates_conflict(raws: Seq<RawAttrModel>, target: Target, parent_entry: bool)
    requires
        raws.len() >= 1,
        forall|i: int| 0 <= i < raws.len() ==> (#[trigger] spec_parse_attr(raws[i])) is Ok,
        forall|i: int|
            0 <= i < raws.len() ==> category_of(parsed(#[trigger] raws[i])) == category_of(
                parsed(raws[0]),
            ),
        legal_targets(category_of(parsed(raws[0]))).contains(target),
    ensures
        ({
            let c = category_of(parsed(raws[0]));
            let st = spec_check(raws, target, parent_entry);
            &&& st.0 == map![c => (parsed(raws[0]), raws[0].span)]
            &&& conflicts(st.1).len() == raws.len() - 1
            &&& forall|j: int|
                0 <= j < raws.len() - 1 ==> #[trigger] conflicts(st.1)[j] == (Diagnostic {
                    span: raws[j + 1].span,
                    kind: DiagKind::Multiple { category: c, target },
                    note: Some(raws[0].span),
                })
        }),
    decreases raws.len(),
{
    let c = category_of(parsed(raws[0]));
    let st = spec_check(raws, target, parent_entry);
    lemma_check_unfold(raws, target, parent_entry);
    let prev = spec_check(raws.drop_last(), target, parent_entry);
    let last = raws.last();
    assert(spec_parse_attr(raws[raws.len() - 1]) is Ok);
    assert(category_of(parsed(raws[raws.len() - 1])) == c);
    let d1 = if c.is_param_decoration() && !parent_entry {
        prev.1.push(Diagnostic { span: last.span, kind: DiagKind::NotEntryParam, note: None })
    } else {
        prev.1
    };
    lemma_conflicts_push(prev.1, Diagnostic { span: last.span, kind: DiagKind::NotEntryParam, note: None });
    assert(conflicts(d1) == conflicts(prev.1));
    if raws.len() == 1 {
        assert(raws.drop_last() =~= Seq::<RawAttrModel>::empty());
        assert(conflicts(prev.1) =~= Seq::<Diagnostic>::empty());
        assert(st.0 =~= map![c => (parsed(raws[0]), raws[0].span)]);
    } else {
        let rest = raws.drop_last();
        assert forall|i: int| 0 <= i < rest.len() implies (#[trigger] spec_parse_attr(rest[i])) is Ok by {
            assert(rest[i] == raws[i]);
        }
        assert forall|i: int| 0 <= i < rest.len() implies category_of(parsed(#[trigger] rest[i]))
            == category_of(parsed(rest[0])) by {
            assert(rest[i] == raws[i]);
        }
        lemma_duplicates_conflict(rest, target, parent_entry);
        let x = Diagnostic {
            span: last.span,
            kind: DiagKind::Multiple { category: c, target },
            note: Some(raws[0].span),
        };
        lemma_conflicts_push(d1, x);
        assert(st.1 == d1.push(x));
        assert forall|j: int| 0 <= j < raws.len() - 1 implies #[trigger] conflicts(st.1)[j] == (
        Diagnostic {
            span: raws[j + 1].span,
            kind: DiagKind::Multiple { category: c, target },
            note: Some(raws[0].span),
        }) by {
            if j < raws.len() - 2 {
                assert(conflicts(st.1)[j] == conflicts(prev.1)[j]);
                assert(rest[j + 1] == raws[j + 1]);
            }
        }
    }
}

/// Decorations that all parse, are all legal on the position and are of
/// pairwise different categories fill exactly one slot each, each with its
/// own value and location.
pub proof fn lemma_round_trip(raws: Seq<RawAttrModel>, target: Target, parent_entry: bool)
    requires
        forall|i: int| 0 <= i < raws.len() ==> (#[trigger] spec_parse_attr(raws[i])) is Ok,
        forall|i: int|
            0 <= i < raws.len() ==> legal_targets(category_of(parsed(#[trigger] raws[i]))).contains(
                target,
            ),
        forall|i: int, j: int|
            0 <= i < j < raws.len() ==> category_of(parsed(#[trigger] raws[i])) != category_of(
                parsed(#[trigger] raws[j]),
            ),
    ensures
        ({
            let m = spec_check(raws, target, parent_entry).0;
            &&& m.dom().finite()
            &&& m.dom().len() == raws.len()
            &&& forall|i: int|
                0 <= i < raws.len() ==> #[trigger] m[category_of(parsed(raws[i]))] == (
                    parsed(raws[i]),
                    raws[i].span,
                ) && m.contains_key(category_of(parsed(raws[i])))
            &&& forall|c: Category|
                #[trigger] m.contains_key(c) ==> exists|i: int|
                    0 <= i < raws.len() && category_of(parsed(#[trigger] raws[i])) == c
        }),
    decreases raws.len(),
{
    let m = spec_check(raws, target, parent_entry).0;
    if raws.len() == 0 {
        assert(m.dom() =~= Set::<Category>::empty());
    } else {
        let rest = raws.drop_last();
        assert forall|i: int| 0 <= i < rest.len() implies (#[trigger] spec_parse_attr(rest[i])) is Ok by {
            assert(rest[i] == raws[i]);
        }
        assert forall|i: int| 0 <= i < rest.len() implies legal_targets(
            category_of(parsed(#[trigger] rest[i])),
        ).contains(target) by {
            assert(rest[i] == raws[i]);
        }
        assert forall|i: int, j: int| 0 <= i < j < rest.len() implies category_of(
            parsed(#[trigger] rest[i]),
        ) != category_of(parsed(#[trigger] rest[j])) by {
            assert(rest[i] == raws[i]);
            assert(rest[j] == raws[j]);
        }
        lemma_round_trip(rest, target, parent_entry);
        lemma_check_unfold(raws, target, parent_entry);
        let pm = spec_check(rest, target, parent_entry).0;
        let n = raws.len() - 1;
        assert(spec_parse_attr(raws[n]) is Ok);
        assert(legal_targets(category_of(parsed(raws[n]))).contains(target));
        let c = category_of(parsed(raws[n]));
        if pm.contains_key(c) {
            let i = choose|i: int| 0 <= i < rest.len() && category_of(parsed(#[trigger] rest[i])) == c;
            assert(rest[i] == raws[i]);
            assert(category_of(parsed(raws[i])) != category_of(parsed(raws[n])));
        }
        assert(m == pm.insert(c, (parsed(raws[n]), raws[n].span)));
        assert(m.dom() =~= pm.dom().insert(c));
        assert forall|i: int| 0 <= i < raws.len() implies #[trigger] m[category_of(parsed(raws[i]))]
            == (parsed(raws[i]), raws[i].span) && m.contains_key(category_of(parsed(raws[i]))) by {
            if i < n {
                assert(rest[i] == raws[i]);
                assert(pm[category_of(parsed(rest[i]))] == (parsed(rest[i]), rest[i].span));
                assert(category_of(parsed(raws[i])) != category_of(parsed(raws[n])));
            }
        }
        assert forall|k: Category| #[trigger] m.contains_key(k) implies exists|i: int|
            0 <= i < raws.len() && category_of(parsed(#[trigger] raws[i])) == k by {
            if k != c {
                let i = choose|i: int| 0 <= i < rest.len() && category_of(parsed(#[trigger] rest[i])) == k;
                assert(rest[i] == raws[i]);
            } else {
                assert(category_of(parsed(raws[n])) == k);
            }
        }
    }
}

} // verus!
