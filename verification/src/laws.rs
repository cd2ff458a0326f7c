//! What holds of every generated builder: how its methods and `build`
//! behave, stated over the descriptor that the builder was generated from.

use vstd::prelude::*;
use crate::classify::{classified, lemma_wrapper_shape, optional_wrapper, WrapperKind};
use crate::descriptor::{BuilderDescriptorView, FieldDescriptorView};
use crate::emit::{
    accumulator_of, emit_spec, lemma_emit_wf, lemma_methods_at, lemma_methods_origin,
    lemma_offset_step, methods_of, methods_upto, offset, setter_of, slot_of, Action, BuildRule,
    GeneratedBuilderView,
};
use crate::error::{BuildErrorView, CallError};
use crate::runtime::{
    applied, build_spec, built_record, calls_of, distinct_method_names, empty_list, initial_slots,
    lemma_build_fails, lemma_build_succeeds, lemma_lookup, lemma_lookup_distinct,
    lemma_run_accumulates, lemma_run_frame, lemma_run_push, lookup, named, run, writes, Call,
};
use crate::search::lemma_first_true_is;
use crate::types::{TypeArgView, TypeExprView};
use crate::value::{RecordFieldView, RecordView, ValueView};

verus! {

/// Whether every field is plain.
pub open spec fn all_plain(fields: Seq<FieldDescriptorView>) -> bool {
    forall|i: int|
        0 <= i < fields.len() ==> (#[trigger] fields[i]).wrapper_kind == WrapperKind::Plain
}

/// Whether no two fields bear the same name.
pub open spec fn distinct_field_names(fields: Seq<FieldDescriptorView>) -> bool {
    forall|i: int, j: int|
        0 <= i < j < fields.len() ==> (#[trigger] fields[i]).name != (#[trigger] fields[j]).name
}

/// Whether `order` lists the position `i`.
pub open spec fn occurs(order: Seq<int>, i: int) -> bool {
    exists|k: int| 0 <= k < order.len() && #[trigger] order[k] == i
}

/// Whether `order` lists each of the positions `0..n` once: it has `n`
/// entries, each a position below `n`, and every such position occurs.
pub open spec fn is_permutation(order: Seq<int>, n: int) -> bool {
    &&& order.len() == n
    &&& forall|k: int| 0 <= k < order.len() ==> 0 <= #[trigger] order[k] < n
    &&& forall|i: int| 0 <= i < n ==> #[trigger] occurs(order, i)
}

/// Whether every plain field is set.
pub open spec fn plain_fields_set(d: BuilderDescriptorView, slots: Seq<Option<ValueView>>) -> bool {
    forall|j: int|
        0 <= j < d.fields.len() && (#[trigger] d.fields[j]).wrapper_kind == WrapperKind::Plain
            ==> slots[j] is Some
}

/// The calls that set the fields in the order `order`, each to its value
/// in `values`.
pub open spec fn setter_calls(
    fields: Seq<FieldDescriptorView>,
    order: Seq<int>,
    values: Seq<ValueView>,
) -> Seq<Call> {
    Seq::new(order.len(), |k: int| Call { name: fields[order[k]].name, arg: values[order[k]] })
}

/// The record whose fields hold `values`, field by field.
pub open spec fn record_of(d: BuilderDescriptorView, values: Seq<ValueView>) -> RecordView {
    RecordView {
        name: d.record,
        fields: Seq::new(
            d.fields.len(),
            |i: int| RecordFieldView { name: d.fields[i].name, value: Some(values[i]) },
        ),
    }
}

/// The slots once the first `k` calls of `order` are made: set where a call
/// went, unset elsewhere.
spec fn filled(order: Seq<int>, values: Seq<ValueView>, n: int, k: int) -> Seq<Option<ValueView>> {
    Seq::new(
        n as nat,
        |i: int|
            if exists|j: int| 0 <= j < k && order[j] == i {
                Some(values[i])
            } else {
                None
            },
    )
}

/// Where no field has an alias, each field has its setter and nothing else.
proof fn lemma_setters_only(fields: Seq<FieldDescriptorView>, n: int)
    requires
        0 <= n <= fields.len(),
        forall|i: int| 0 <= i < fields.len() ==> (#[trigger] fields[i]).accumulator_alias is None,
    ensures
        methods_upto(fields, n) == Seq::new(n as nat, |i: int| setter_of(fields[i], i)),
    decreases n,
{
    if n > 0 {
        lemma_setters_only(fields, n - 1);
    }
}

/// On a record of plain fields the call of a field's name reaches the
/// field's setter.
proof fn lemma_plain_lookup(d: BuilderDescriptorView, i: int)
    requires
        d.wf(),
        all_plain(d.fields),
        distinct_field_names(d.fields),
        0 <= i < d.fields.len(),
    ensures
        emit_spec(d).methods.len() == d.fields.len(),
        lookup(emit_spec(d), d.fields[i].name) == Some(i),
        emit_spec(d).methods[i] == setter_of(d.fields[i], i),
{
    lemma_setters_only(d.fields, d.fields.len() as int);
    lemma_first_true_is(named(emit_spec(d).methods, d.fields[i].name), i);
}

/// The slots after the first `k` setter calls.
proof fn lemma_setters_fill(
    d: BuilderDescriptorView,
    order: Seq<int>,
    values: Seq<ValueView>,
    k: int,
)
    requires
        d.wf(),
        all_plain(d.fields),
        distinct_field_names(d.fields),
        values.len() == d.fields.len(),
        forall|j: int| 0 <= j < order.len() ==> 0 <= #[trigger] order[j] < d.fields.len(),
        0 <= k <= order.len(),
    ensures
        run(
            emit_spec(d),
            initial_slots(emit_spec(d)),
            setter_calls(d.fields, order, values).take(k),
        ) == Ok::<_, CallError>(filled(order, values, d.fields.len() as int, k)),
    decreases k,
{
    let layout = emit_spec(d);
    let n = d.fields.len() as int;
    let calls = setter_calls(d.fields, order, values);
    if k == 0 {
        assert(initial_slots(layout) =~= filled(order, values, n, 0));
    } else {
        lemma_setters_fill(d, order, values, k - 1);
        assert(calls.take(k).drop_last() =~= calls.take(k - 1));
        let at = order[k - 1];
        lemma_plain_lookup(d, at);
        let before = filled(order, values, n, k - 1);
        let after = filled(order, values, n, k);
        assert(before.update(at, Some(values[at])) =~= after);
    }
}

/// The slot of an optional field holds the element type, so that the slot,
/// optional once, has the field's declared type: nothing is optional twice
/// over. The slots of the other fields hold the declared type.
pub proof fn lemma_slot_is_optional_once(f: FieldDescriptorView)
    requires
        f == classified(f),
    ensures
        f.wrapper_kind == WrapperKind::Optional ==> f.declared_type == (TypeExprView::Named {
            name: optional_wrapper(),
            args: seq![TypeArgView::Type(slot_of(f).holds)],
        }),
        f.wrapper_kind != WrapperKind::Optional ==> slot_of(f).holds == f.declared_type,
{
    lemma_wrapper_shape(f.declared_type);
}

/// On a record whose fields are all plain, calling every setter once and
/// then `build` succeeds, and each field of the record holds the value that
/// was passed to its setter, whatever the order of the calls.
pub proof fn lemma_plain_setters_commute(
    d: BuilderDescriptorView,
    order: Seq<int>,
    values: Seq<ValueView>,
)
    requires
        d.wf(),
        all_plain(d.fields),
        distinct_field_names(d.fields),
        values.len() == d.fields.len(),
        is_permutation(order, d.fields.len() as int),
    ensures
        run(emit_spec(d), initial_slots(emit_spec(d)), setter_calls(d.fields, order, values))
            == Ok::<_, CallError>(values.map_values(|v: ValueView| Some(v))),
        build_spec(emit_spec(d), values.map_values(|v: ValueView| Some(v))) == Ok::<
            _,
            BuildErrorView,
        >(record_of(d, values)),
{
    let layout = emit_spec(d);
    let n = d.fields.len() as int;
    let calls = setter_calls(d.fields, order, values);
    let slots = values.map_values(|v: ValueView| Some(v));
    lemma_setters_fill(d, order, values, n);
    assert(calls.take(n) =~= calls);
    assert(filled(order, values, n, n) =~= slots) by {
        assert forall|i: int| 0 <= i < n implies filled(order, values, n, n)[i] == slots[i] by {
            assert(occurs(order, i));
        }
    }
    lemma_build_succeeds(layout, slots);
    assert(built_record(layout, slots).fields =~= record_of(d, values).fields);
}

/// Two calls that write different slots can be made in either order: the
/// slots end up the same, and where one of the calls fails, the pair fails
/// in the same way.
pub proof fn lemma_calls_on_different_slots_commute(
    layout: GeneratedBuilderView,
    slots: Seq<Option<ValueView>>,
    a: Call,
    b: Call,
)
    requires
        layout.wf(),
        slots.len() == layout.slots.len(),
        lookup(layout, a.name) is Some,
        lookup(layout, b.name) is Some,
        layout.methods[lookup(layout, a.name)->0].slot != layout.methods[lookup(
            layout,
            b.name,
        )->0].slot,
    ensures
        run(layout, slots, seq![a, b]) == run(layout, slots, seq![b, a]),
{
    lemma_lookup(layout, a.name);
    lemma_lookup(layout, b.name);
    let none = Seq::<Call>::empty();
    assert(seq![a, b] =~= none.push(a).push(b));
    assert(seq![b, a] =~= none.push(b).push(a));
    lemma_run_push(layout, slots, none, a);
    lemma_run_push(layout, slots, none, b);
    lemma_run_push(layout, slots, none.push(a), b);
    lemma_run_push(layout, slots, none.push(b), a);
    let first_a = applied(layout, slots, a.name, a.arg);
    let first_b = applied(layout, slots, b.name, b.arg);
    if first_a is Ok && first_b is Ok {
        let ab = applied(layout, first_a->Ok_0, b.name, b.arg);
        let ba = applied(layout, first_b->Ok_0, a.name, a.arg);
        assert(ab->Ok_0 =~= ba->Ok_0);
    }
}

/// Where at least one plain field is unset, `build` fails and names the
/// first such field in declaration order.
pub proof fn lemma_build_names_first_unset(
    d: BuilderDescriptorView,
    slots: Seq<Option<ValueView>>,
    i: int,
)
    requires
        slots.len() == d.fields.len(),
        0 <= i < d.fields.len(),
        d.fields[i].wrapper_kind == WrapperKind::Plain,
        slots[i] is None,
        forall|j: int|
            0 <= j < i && (#[trigger] d.fields[j]).wrapper_kind == WrapperKind::Plain
                ==> slots[j] is Some,
    ensures
        build_spec(emit_spec(d), slots) == Err::<RecordView, _>(
            BuildErrorView::MissingField(d.fields[i].name),
        ),
{
    lemma_build_fails(emit_spec(d), slots, i);
}

/// `build` fails exactly when a plain field is unset: no optional field
/// and no collection ever makes it fail.
pub proof fn lemma_build_fails_only_on_plain(
    d: BuilderDescriptorView,
    slots: Seq<Option<ValueView>>,
)
    requires
        slots.len() == d.fields.len(),
    ensures
        build_spec(emit_spec(d), slots) is Err <==> exists|i: int|
            0 <= i < d.fields.len() && (#[trigger] d.fields[i]).wrapper_kind == WrapperKind::Plain
                && slots[i] is None,
        build_spec(emit_spec(d), slots) is Ok <==> plain_fields_set(d, slots),
{
    let layout = emit_spec(d);
    lemma_build_succeeds(layout, slots);
    if build_spec(layout, slots) is Ok {
        assert forall|i: int|
            0 <= i < d.fields.len() && (#[trigger] d.fields[i]).wrapper_kind
                == WrapperKind::Plain implies slots[i] is Some by {
            assert(layout.slots[i] == slot_of(d.fields[i]));
        }
    }
}

/// A collection that no call has written is still the empty collection.
/// It never makes `build` fail: `build` succeeds as soon as the plain fields
/// are set, and the collection is then the empty collection in the record.
pub proof fn lemma_untouched_collection_is_empty(
    d: BuilderDescriptorView,
    calls: Seq<Call>,
    i: int,
)
    requires
        0 <= i < d.fields.len(),
        d.fields[i].wrapper_kind == WrapperKind::Collection,
        forall|k: int|
            0 <= k < calls.len() ==> !writes(emit_spec(d), (#[trigger] calls[k]).name, i),
        run(emit_spec(d), initial_slots(emit_spec(d)), calls) is Ok,
    ensures
        ({
            let slots = run(emit_spec(d), initial_slots(emit_spec(d)), calls)->Ok_0;
            &&& slots.len() == d.fields.len()
            &&& slots[i] == Some(empty_list())
            &&& build_spec(emit_spec(d), slots) is Ok <==> plain_fields_set(d, slots)
            &&& build_spec(emit_spec(d), slots) matches Ok(record) ==> record.fields[i]
                == RecordFieldView { name: d.fields[i].name, value: Some(empty_list()) }
        }),
{
    let layout = emit_spec(d);
    lemma_emit_wf(d);
    lemma_run_frame(layout, initial_slots(layout), calls, i);
    let slots = run(layout, initial_slots(layout), calls)->Ok_0;
    lemma_build_succeeds(layout, slots);
    lemma_build_fails_only_on_plain(d, slots);
}

/// A collection builds to the empty collection even where its slot holds
/// nothing at all.
pub proof fn lemma_absent_collection_is_empty(
    d: BuilderDescriptorView,
    slots: Seq<Option<ValueView>>,
    i: int,
)
    requires
        slots.len() == d.fields.len(),
        0 <= i < d.fields.len(),
        d.fields[i].wrapper_kind == WrapperKind::Collection,
        slots[i] is None,
    ensures
        build_spec(emit_spec(d), slots) matches Ok(record) ==> record.fields[i]
            == (RecordFieldView { name: d.fields[i].name, value: Some(empty_list()) }),
{
    lemma_build_succeeds(emit_spec(d), slots);
}

/// A collection whose alias differs from its name has both methods: the
/// accumulator under the alias, then the setter under the field's name.
/// Where no two methods share a name, each is reached by its own name, and
/// calling the accumulator on a new builder with one value after the other
/// leaves the collection of these values in the order of the calls.
pub proof fn lemma_accumulator_beside_setter(
    d: BuilderDescriptorView,
    i: int,
    items: Seq<ValueView>,
)
    requires
        d.wf(),
        0 <= i < d.fields.len(),
        d.fields[i].accumulator_alias is Some,
        d.fields[i].accumulator_alias->0 != d.fields[i].name,
        distinct_method_names(emit_spec(d)),
    ensures
        ({
            let layout = emit_spec(d);
            let f = d.fields[i];
            let at = offset(d.fields, i);
            &&& 0 <= at && at + 1 < layout.methods.len()
            &&& layout.methods[at] == accumulator_of(f, i)
            &&& layout.methods[at + 1] == setter_of(f, i)
            &&& lookup(layout, f.accumulator_alias->0) == Some(at)
            &&& lookup(layout, f.name) == Some(at + 1)
            &&& run(layout, initial_slots(layout), calls_of(f.accumulator_alias->0, items)) == Ok::<
                _,
                CallError,
            >(initial_slots(layout).update(i, Some(ValueView::List(items))))
        }),
{
    let layout = emit_spec(d);
    let f = d.fields[i];
    let n = d.fields.len() as int;
    let at = offset(d.fields, i);
    lemma_emit_wf(d);
    lemma_methods_at(d.fields, n, i, 0);
    lemma_methods_at(d.fields, n, i, 1);
    lemma_lookup_distinct(layout, at);
    lemma_lookup_distinct(layout, at + 1);
    lemma_run_accumulates(
        layout,
        initial_slots(layout),
        f.accumulator_alias->0,
        Seq::<ValueView>::empty(),
        items,
    );
}

/// On a collection whose alias differs from its name, and where no two
/// methods share a name, either method can be called whatever the slots
/// hold: the setter replaces the collection by the value given, and the
/// accumulator appends the value given to the collection, or starts one
/// where the slot holds nothing.
pub proof fn lemma_setter_and_accumulator_apply(
    d: BuilderDescriptorView,
    i: int,
    slots: Seq<Option<ValueView>>,
    arg: ValueView,
)
    requires
        d.wf(),
        0 <= i < d.fields.len(),
        d.fields[i].accumulator_alias is Some,
        d.fields[i].accumulator_alias->0 != d.fields[i].name,
        distinct_method_names(emit_spec(d)),
        slots.len() == d.fields.len(),
    ensures
        ({
            let layout = emit_spec(d);
            let f = d.fields[i];
            let alias = f.accumulator_alias->0;
            &&& applied(layout, slots, f.name, arg) == Ok::<_, CallError>(
                slots.update(i, Some(arg)),
            )
            &&& slots[i] matches Some(ValueView::List(base)) ==> applied(layout, slots, alias, arg)
                == Ok::<_, CallError>(slots.update(i, Some(ValueView::List(base.push(arg)))))
            &&& slots[i] is None ==> applied(layout, slots, alias, arg) == Ok::<_, CallError>(
                slots.update(i, Some(ValueView::List(seq![arg]))),
            )
        }),
{
    lemma_accumulator_beside_setter(d, i, Seq::empty());
}

/// A collection whose alias is its own name has the accumulator and no
/// setter: one method writes its slot, and that method appends.
pub proof fn lemma_alias_as_name_suppresses_setter(d: BuilderDescriptorView, i: int)
    requires
        0 <= i < d.fields.len(),
        d.fields[i].accumulator_alias == Some(d.fields[i].name),
    ensures
        ({
            let layout = emit_spec(d);
            let f = d.fields[i];
            let at = offset(d.fields, i);
            &&& methods_of(f, i) == seq![accumulator_of(f, i)]
            &&& 0 <= at < layout.methods.len()
            &&& layout.methods[at] == accumulator_of(f, i)
            &&& layout.methods[at].name == f.name
            &&& layout.methods[at].action == Action::Append
            &&& forall|m: int|
                0 <= m < layout.methods.len() && (#[trigger] layout.methods[m]).slot == i
                    ==> m == at
        }),
{
    let layout = emit_spec(d);
    let n = d.fields.len() as int;
    let at = offset(d.fields, i);
    lemma_methods_at(d.fields, n, i, 0);
    lemma_offset_step(d.fields, i);
    assert forall|m: int|
        0 <= m < layout.methods.len() && (#[trigger] layout.methods[m]).slot
            == i implies m == at by {
        lemma_methods_origin(d.fields, n, m);
    }
}

} // verus!
