//! What a generated builder does when it runs: its slots, the effect of
//! calling one of its methods, and the record that `build` constructs.

use vstd::prelude::*;
use crate::emit::{
    Action, BuildRule, GeneratedBuilder, GeneratedBuilderView, Initial, MethodView, SlotView,
};
use crate::error::{outcome, BuildError, BuildErrorView, CallError};
use crate::search::{first_true, lemma_first_true, lemma_first_true_is};
use crate::value::{
    lemma_list_view, Record, RecordField, RecordFieldView, RecordView, Value, ValueView,
};

verus! {

/// A generated builder at work: its layout and what each slot holds.
#[derive(Debug, PartialEq, Eq)]
pub struct Builder {
    /// The layout that the builder was generated with.
    pub layout: GeneratedBuilder,
    /// What each slot holds, in the order of the layout's slots.
    pub slots: Vec<Option<Value>>,
}

/// Mathematical model of a [`Builder`].
pub struct BuilderView {
    pub layout: GeneratedBuilderView,
    pub slots: Seq<Option<ValueView>>,
}

impl BuilderView {
    /// The layout is well formed and the builder has one slot for each slot
    /// of the layout.
    pub open spec fn wf(self) -> bool {
        &&& self.layout.wf()
        &&& self.slots.len() == self.layout.slots.len()
    }
}

impl View for Builder {
    type V = BuilderView;

    open spec fn view(&self) -> BuilderView {
        BuilderView { layout: self.layout@, slots: self.slots.deep_view() }
    }
}

impl DeepView for Builder {
    type V = BuilderView;

    open spec fn deep_view(&self) -> BuilderView {
        self@
    }
}

impl Clone for Builder {
    fn clone(&self) -> (res: Self)
        ensures
            res@ == self@,
    {
        let mut slots: Vec<Option<Value>> = Vec::new();
        let mut i: usize = 0;
        while i < self.slots.len()
            invariant
                i <= self.slots.len(),
                slots.len() == i,
                forall|j: int| 0 <= j < i ==> slots@[j].deep_view() == self.slots@[j].deep_view(),
            decreases self.slots.len() - i,
        {
            slots.push(
                match &self.slots[i] {
                    Some(v) => Some(v.clone()),
                    None => None,
                },
            );
            i += 1;
        }
        assert(slots.deep_view() =~= self.slots.deep_view());
        Builder { layout: self.layout.clone(), slots }
    }
}

/// The empty collection.
pub open spec fn empty_list() -> ValueView {
    ValueView::List(Seq::empty())
}

/// What a slot holds in a new builder: nothing, or for a collection the
/// empty collection.
pub open spec fn initial_slot(s: SlotView) -> Option<ValueView> {
    match s.initial {
        Initial::Absent => None,
        Initial::Empty => Some(empty_list()),
    }
}

/// The slots of a new builder.
pub open spec fn initial_slots(layout: GeneratedBuilderView) -> Seq<Option<ValueView>> {
    layout.slots.map_values(|s: SlotView| initial_slot(s))
}

/// For each method, whether it bears the name `name`.
pub open spec fn named(methods: Seq<MethodView>, name: Seq<char>) -> Seq<bool> {
    methods.map_values(|m: MethodView| m.name == name)
}

/// The position of the method that a call of `name` reaches: the first one
/// of that name.
pub open spec fn lookup(layout: GeneratedBuilderView, name: Seq<char>) -> Option<int> {
    first_true(named(layout.methods, name))
}

/// A slot after one value is appended to it. An absent slot becomes the
/// collection of that one value; a collection grows at its end.
pub open spec fn appended(slot: Option<ValueView>, arg: ValueView) -> Result<
    Option<ValueView>,
    CallError,
> {
    match slot {
        None => Ok(Some(ValueView::List(seq![arg]))),
        Some(ValueView::List(items)) => Ok(Some(ValueView::List(items.push(arg)))),
        Some(ValueView::Atom(_)) => Err(CallError::NotACollection),
    }
}

/// The slots after the method `name` is called with `arg`, or why the call
/// fails. A setter replaces its slot by `arg`; an accumulator appends `arg`
/// to its slot. No other slot changes.
pub open spec fn applied(
    layout: GeneratedBuilderView,
    slots: Seq<Option<ValueView>>,
    name: Seq<char>,
    arg: ValueView,
) -> Result<Seq<Option<ValueView>>, CallError> {
    match lookup(layout, name) {
        None => Err(CallError::NoSuchMethod),
        Some(m) => {
            let at = layout.methods[m].slot;
            match layout.methods[m].action {
                Action::Replace => Ok(slots.update(at, Some(arg))),
                Action::Append => match appended(slots[at], arg) {
                    Ok(slot) => Ok(slots.update(at, slot)),
                    Err(e) => Err(e),
                },
            }
        },
    }
}

/// For each slot, whether `build` requires it and finds it unset.
pub open spec fn missing(layout: GeneratedBuilderView, slots: Seq<Option<ValueView>>) -> Seq<bool> {
    Seq::new(
        layout.slots.len(),
        |i: int| layout.slots[i].on_build == BuildRule::Require && slots[i] is None,
    )
}

/// What `build` puts into the record for a slot.
pub open spec fn built_value(rule: BuildRule, slot: Option<ValueView>) -> Option<ValueView> {
    match rule {
        BuildRule::Require => slot,
        BuildRule::PassThrough => slot,
        BuildRule::OrEmpty => match slot {
            Some(v) => Some(v),
            None => Some(empty_list()),
        },
    }
}

/// The record that `build` constructs from the slots when none is missing.
pub open spec fn built_record(layout: GeneratedBuilderView, slots: Seq<Option<ValueView>>)
    -> RecordView {
    RecordView {
        name: layout.record,
        fields: Seq::new(
            layout.slots.len(),
            |i: int|
                RecordFieldView {
                    name: layout.slots[i].name,
                    value: built_value(layout.slots[i].on_build, slots[i]),
                },
        ),
    }
}

/// What `build` returns: the error that names the first slot, in field
/// order, that is required and unset; the record when there is none.
pub open spec fn build_spec(layout: GeneratedBuilderView, slots: Seq<Option<ValueView>>) -> Result<
    RecordView,
    BuildErrorView,
> {
    match first_true(missing(layout, slots)) {
        Some(i) => Err(BuildErrorView::MissingField(layout.slots[i].name)),
        None => Ok(built_record(layout, slots)),
    }
}

/// One call on a builder: the method's name and the value handed to it.
pub struct Call {
    pub name: Seq<char>,
    pub arg: ValueView,
}

/// The slots after a sequence of calls, made one after the other from
/// `slots`; the first call that fails gives the error.
pub open spec fn run(
    layout: GeneratedBuilderView,
    slots: Seq<Option<ValueView>>,
    calls: Seq<Call>,
) -> Result<Seq<Option<ValueView>>, CallError>
    decreases calls.len(),
{
    if calls.len() == 0 {
        Ok(slots)
    } else {
        match run(layout, slots, calls.drop_last()) {
            Ok(before) => applied(layout, before, calls.last().name, calls.last().arg),
            Err(e) => Err(e),
        }
    }
}

/// One more call is made on the slots that the calls before it leave.
pub proof fn lemma_run_push(
    layout: GeneratedBuilderView,
    slots: Seq<Option<ValueView>>,
    calls: Seq<Call>,
    next: Call,
)
    ensures
        run(layout, slots, calls.push(next)) == match run(layout, slots, calls) {
            Ok(before) => applied(layout, before, next.name, next.arg),
            Err(e) => Err(e),
        },
{
    assert(calls.push(next).drop_last() =~= calls);
}

/// Whether a call of `name` writes the slot at position `i`.
pub open spec fn writes(layout: GeneratedBuilderView, name: Seq<char>, i: int) -> bool {
    lookup(layout, name) matches Some(m) && layout.methods[m].slot == i
}

/// Whether no two methods bear the same name.
pub open spec fn distinct_method_names(layout: GeneratedBuilderView) -> bool {
    forall|a: int, b: int|
        0 <= a < b < layout.methods.len() ==> (#[trigger] layout.methods[a]).name != (
        #[trigger] layout.methods[b]).name
}

/// A call reaches a method of the builder, and that method bears the name
/// called.
pub proof fn lemma_lookup(layout: GeneratedBuilderView, name: Seq<char>)
    ensures
        lookup(layout, name) matches Some(m) ==> 0 <= m < layout.methods.len()
            && layout.methods[m].name == name,
{
    lemma_first_true(named(layout.methods, name));
}

/// Where no two methods share a name, a call of a method's name reaches
/// that method.
pub proof fn lemma_lookup_distinct(layout: GeneratedBuilderView, m: int)
    requires
        distinct_method_names(layout),
        0 <= m < layout.methods.len(),
    ensures
        lookup(layout, layout.methods[m].name) == Some(m),
{
    lemma_first_true_is(named(layout.methods, layout.methods[m].name), m);
}

/// A call that succeeds keeps the number of slots, and changes no slot but
/// the one it writes.
pub proof fn lemma_applied_frame(
    layout: GeneratedBuilderView,
    slots: Seq<Option<ValueView>>,
    name: Seq<char>,
    arg: ValueView,
)
    requires
        layout.wf(),
        slots.len() == layout.slots.len(),
        applied(layout, slots, name, arg) is Ok,
    ensures
        applied(layout, slots, name, arg)->Ok_0.len() == slots.len(),
        forall|j: int|
            0 <= j < slots.len() && !writes(layout, name, j) ==> applied(
                layout,
                slots,
                name,
                arg,
            )->Ok_0[j] == slots[j],
{
    lemma_lookup(layout, name);
}

/// A sequence of calls that succeeds keeps the number of slots, and leaves
/// a slot as it was when no call writes it.
pub proof fn lemma_run_frame(
    layout: GeneratedBuilderView,
    slots: Seq<Option<ValueView>>,
    calls: Seq<Call>,
    i: int,
)
    requires
        layout.wf(),
        slots.len() == layout.slots.len(),
        0 <= i < slots.len(),
        forall|k: int| 0 <= k < calls.len() ==> !writes(layout, (#[trigger] calls[k]).name, i),
        run(layout, slots, calls) is Ok,
    ensures
        run(layout, slots, calls)->Ok_0.len() == slots.len(),
        run(layout, slots, calls)->Ok_0[i] == slots[i],
    decreases calls.len(),
{
    if calls.len() > 0 {
        let front = calls.drop_last();
        lemma_run_frame(layout, slots, front, i);
        let before = run(layout, slots, front)->Ok_0;
        lemma_applied_frame(layout, before, calls.last().name, calls.last().arg);
    }
}

/// The calls that hand `items`, one after the other, to the method `name`.
pub open spec fn calls_of(name: Seq<char>, items: Seq<ValueView>) -> Seq<Call> {
    items.map_values(|item: ValueView| Call { name, arg: item })
}

/// Calling an accumulator with one value after the other appends the
/// values to its collection in the order of the calls.
pub proof fn lemma_run_accumulates(
    layout: GeneratedBuilderView,
    slots: Seq<Option<ValueView>>,
    name: Seq<char>,
    base: Seq<ValueView>,
    items: Seq<ValueView>,
)
    requires
        layout.wf(),
        slots.len() == layout.slots.len(),
        lookup(layout, name) is Some,
        layout.methods[lookup(layout, name)->0].action == Action::Append,
        slots[layout.methods[lookup(layout, name)->0].slot] == Some(ValueView::List(base)),
    ensures
        run(layout, slots, calls_of(name, items)) == Ok::<_, CallError>(
            slots.update(
                layout.methods[lookup(layout, name)->0].slot,
                Some(ValueView::List(base + items)),
            ),
        ),
    decreases items.len(),
{
    lemma_lookup(layout, name);
    let at = layout.methods[lookup(layout, name)->0].slot;
    if items.len() == 0 {
        assert(slots.update(at, Some(ValueView::List(base))) =~= slots);
    } else {
        let front = items.drop_last();
        lemma_run_accumulates(layout, slots, name, base, front);
        assert(calls_of(name, items).drop_last() =~= calls_of(name, front));
        let before = slots.update(at, Some(ValueView::List(base + front)));
        assert((base + front).push(items.last()) =~= base + items);
        assert(before.update(at, Some(ValueView::List(base + items))) =~= slots.update(
            at,
            Some(ValueView::List(base + items)),
        ));
    }
}

/// `build` succeeds exactly when every required slot is set.
pub proof fn lemma_build_succeeds(layout: GeneratedBuilderView, slots: Seq<Option<ValueView>>)
    ensures
        build_spec(layout, slots) is Ok <==> forall|i: int|
            0 <= i < layout.slots.len() && (#[trigger] layout.slots[i]).on_build
                == BuildRule::Require ==> slots[i] is Some,
        build_spec(layout, slots) matches Ok(record) ==> record == built_record(layout, slots),
{
    let flags = missing(layout, slots);
    lemma_first_true(flags);
    if first_true(flags) is None {
        assert forall|i: int|
            0 <= i < layout.slots.len() && (#[trigger] layout.slots[i]).on_build
                == BuildRule::Require implies slots[i] is Some by {
            assert(!flags[i]);
        }
    }
}

/// `build` fails on the first slot, in field order, that is required and
/// unset, and names it.
pub proof fn lemma_build_fails(layout: GeneratedBuilderView, slots: Seq<Option<ValueView>>, i: int)
    requires
        0 <= i < layout.slots.len(),
        layout.slots[i].on_build == BuildRule::Require,
        slots[i] is None,
        forall|j: int|
            0 <= j < i && (#[trigger] layout.slots[j]).on_build == BuildRule::Require
                ==> slots[j] is Some,
    ensures
        build_spec(layout, slots) == Err::<RecordView, _>(
            BuildErrorView::MissingField(layout.slots[i].name),
        ),
{
    lemma_first_true_is(missing(layout, slots), i);
}

/// Appends one value to a slot.
fn append(slot: &mut Option<Value>, arg: Value) -> (res: Result<(), CallError>)
    ensures
        match appended(old(slot).deep_view(), arg@) {
            Ok(after) => res is Ok && final(slot).deep_view() == after,
            Err(e) => res == Err::<(), _>(e) && final(slot).deep_view() == old(slot).deep_view(),
        },
{
    match slot {
        None => {
            let mut items: Vec<Value> = Vec::new();
            items.push(arg);
            proof {
                lemma_list_view(items);
                assert(items.deep_view() =~= seq![arg@]);
            }
            *slot = Some(Value::List(items));
            Ok(())
        },
        Some(Value::List(items)) => {
            proof {
                lemma_list_view(*items);
            }
            let ghost before = items.deep_view();
            items.push(arg);
            proof {
                lemma_list_view(*items);
                assert(items.deep_view() =~= before.push(arg@));
            }
            Ok(())
        },
        Some(Value::Atom(_)) => Err(CallError::NotACollection),
    }
}

impl Builder {
    /// Makes the builder of a layout, as the generated constructor does:
    /// every collection empty, every other slot unset.
    pub fn new(layout: GeneratedBuilder) -> (res: Builder)
        ensures
            res@.layout == layout@,
            res@.slots == initial_slots(layout@),
            layout@.wf() ==> res@.wf(),
    {
        let mut slots: Vec<Option<Value>> = Vec::new();
        let mut i: usize = 0;
        while i < layout.slots.len()
            invariant
                i <= layout.slots.len(),
                slots.len() == i,
                forall|j: int|
                    0 <= j < i ==> slots@[j].deep_view() == initial_slot(layout.slots@[j]@),
            decreases layout.slots.len() - i,
        {
            match layout.slots[i].initial {
                Initial::Absent => {
                    slots.push(None);
                },
                Initial::Empty => {
                    let items: Vec<Value> = Vec::new();
                    proof {
                        lemma_list_view(items);
                        assert(items.deep_view() =~= Seq::<ValueView>::empty());
                    }
                    slots.push(Some(Value::List(items)));
                },
            }
            i += 1;
        }
        Builder { layout, slots }
    }

    /// Finds the method that a call of `name` reaches.
    fn find(&self, name: &str) -> (res: Option<usize>)
        ensures
            match res {
                Some(m) => lookup(self@.layout, name@) == Some(m as int) && m
                    < self.layout.methods.len(),
                None => lookup(self@.layout, name@) is None,
            },
    {
        let wanted = String::from_str(name);
        let ghost flags = named(self@.layout.methods, name@);
        let mut i: usize = 0;
        while i < self.layout.methods.len()
            invariant
                i <= self.layout.methods.len(),
                wanted@ == name@,
                flags == named(self@.layout.methods, name@),
                forall|j: int| 0 <= j < i ==> !flags[j],
            decreases self.layout.methods.len() - i,
        {
            if self.layout.methods[i].name == wanted {
                proof {
                    lemma_first_true_is(flags, i as int);
                }
                return Some(i);
            }
            i += 1;
        }
        proof {
            lemma_first_true(flags);
        }
        None
    }

    /// Calls the method `name` with `arg`. A call that fails changes nothing.
    pub fn call(&mut self, name: &str, arg: Value) -> (res: Result<(), CallError>)
        requires
            old(self)@.wf(),
        ensures
            final(self)@.layout == old(self)@.layout,
            final(self)@.wf(),
            match applied(old(self)@.layout, old(self)@.slots, name@, arg@) {
                Ok(slots) => res is Ok && final(self)@.slots == slots,
                Err(e) => res == Err::<(), _>(e) && final(self)@.slots == old(self)@.slots,
            },
    {
        match self.find(name) {
            None => Err(CallError::NoSuchMethod),
            Some(m) => {
                let at = self.layout.methods[m].slot;
                match self.layout.methods[m].action {
                    Action::Replace => {
                        self.slots.set(at, Some(arg));
                        Ok(())
                    },
                    Action::Append => {
                        let ghost before = self.slots.deep_view();
                        let res = append(&mut self.slots[at], arg);
                        assert(self.slots.deep_view() =~= before.update(
                            at as int,
                            self.slots@[at as int].deep_view(),
                        ));
                        res
                    },
                }
            },
        }
    }

    /// Constructs the record from what the slots hold. The builder is left
    /// as it is and can be filled further and built again.
    pub fn build(&self) -> (res: Result<Record, BuildError>)
        requires
            self@.wf(),
        ensures
            outcome(res) == build_spec(self@.layout, self@.slots),
    {
        let ghost flags = missing(self@.layout, self@.slots);
        let ghost target = built_record(self@.layout, self@.slots);
        let mut fields: Vec<RecordField> = Vec::new();
        let mut i: usize = 0;
        while i < self.layout.slots.len()
            invariant
                i <= self.layout.slots.len(),
                self@.wf(),
                flags == missing(self@.layout, self@.slots),
                target == built_record(self@.layout, self@.slots),
                fields.len() == i,
                forall|j: int| 0 <= j < i ==> !flags[j],
                forall|j: int| 0 <= j < i ==> fields@[j]@ == target.fields[j],
            decreases self.layout.slots.len() - i,
        {
            let slot = &self.layout.slots[i];
            let value = match &self.slots[i] {
                Some(v) => Some(v.clone()),
                None => match slot.on_build {
                    BuildRule::Require => {
                        proof {
                            lemma_first_true_is(flags, i as int);
                        }
                        return Err(BuildError::MissingField(slot.name.clone()));
                    },
                    BuildRule::PassThrough => None,
                    BuildRule::OrEmpty => {
                        let items: Vec<Value> = Vec::new();
                        proof {
                            lemma_list_view(items);
                            assert(items.deep_view() =~= Seq::<ValueView>::empty());
                        }
                        Some(Value::List(items))
                    },
                },
            };
            fields.push(RecordField { name: slot.name.clone(), value });
            i += 1;
        }
        proof {
            lemma_first_true(flags);
            assert(fields.deep_view() =~= target.fields);
        }
        Ok(Record { name: self.layout.record.clone(), fields })
    }
}

} // verus!
