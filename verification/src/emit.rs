//! The code emitter: lays out the generated builder, one storage slot per
//! field and the methods that fill the slots.

use vstd::prelude::*;
use crate::classify::WrapperKind;
use crate::descriptor::{
    BuilderDescriptor, BuilderDescriptorView, FieldDescriptor, FieldDescriptorView,
};
use crate::types::{TypeExpr, TypeExprView};

verus! {

/// What a slot holds in a builder that was just made.
#[derive(Clone, Copy, Debug, PartialEq, Eq, Structural)]
pub enum Initial {
    /// Nothing.
    Absent,
    /// An empty collection.
    Empty,
}

/// What `build` does with a slot.
#[derive(Clone, Copy, Debug, PartialEq, Eq, Structural)]
pub enum BuildRule {
    /// The slot must hold a value; without one `build` fails.
    Require,
    /// The slot goes into the record as it is, set or not.
    PassThrough,
    /// The slot's collection goes into the record, an empty one if the slot
    /// holds none.
    OrEmpty,
}

/// What a generated method does to its slot.
#[derive(Clone, Copy, Debug, PartialEq, Eq, Structural)]
pub enum Action {
    /// Replaces the slot by the value given.
    Replace,
    /// Appends the value given to the slot's collection.
    Append,
}

/// One storage slot of the generated builder.
#[derive(Debug, PartialEq, Eq)]
pub struct Slot {
    /// The name of the field that the slot stands for.
    pub name: String,
    /// The type that the slot holds optionally.
    pub holds: TypeExpr,
    /// What the slot holds in a new builder.
    pub initial: Initial,
    /// What `build` does with the slot.
    pub on_build: BuildRule,
}

/// Mathematical model of a [`Slot`].
pub struct SlotView {
    pub name: Seq<char>,
    pub holds: TypeExprView,
    pub initial: Initial,
    pub on_build: BuildRule,
}

impl View for Slot {
    type V = SlotView;

    open spec fn view(&self) -> SlotView {
        SlotView {
            name: self.name@,
            holds: self.holds@,
            initial: self.initial,
            on_build: self.on_build,
        }
    }
}

impl DeepView for Slot {
    type V = SlotView;

    open spec fn deep_view(&self) -> SlotView {
        self@
    }
}

impl Clone for Slot {
    fn clone(&self) -> (res: Self)
        ensures
            res@ == self@,
    {
        Slot {
            name: self.name.clone(),
            holds: self.holds.clone(),
            initial: self.initial,
            on_build: self.on_build,
        }
    }
}

/// One method of the generated builder.
#[derive(Debug, PartialEq, Eq)]
pub struct Method {
    /// The method's name.
    pub name: String,
    /// The position of the slot that the method writes.
    pub slot: usize,
    /// What the method does to the slot.
    pub action: Action,
    /// The type of the method's one parameter.
    pub param: TypeExpr,
}

/// Mathematical model of a [`Method`].
pub struct MethodView {
    pub name: Seq<char>,
    pub slot: int,
    pub action: Action,
    pub param: TypeExprView,
}

impl View for Method {
    type V = MethodView;

    open spec fn view(&self) -> MethodView {
        MethodView {
            name: self.name@,
            slot: self.slot as int,
            action: self.action,
            param: self.param@,
        }
    }
}

impl DeepView for Method {
    type V = MethodView;

    open spec fn deep_view(&self) -> MethodView {
        self@
    }
}

impl Clone for Method {
    fn clone(&self) -> (res: Self)
        ensures
            res@ == self@,
    {
        Method {
            name: self.name.clone(),
            slot: self.slot,
            action: self.action,
            param: self.param.clone(),
        }
    }
}

/// The generated builder: its name, the record it constructs, its slots in
/// the record's field order, and its methods in the order of emission.
#[derive(Debug, PartialEq, Eq)]
pub struct GeneratedBuilder {
    pub name: String,
    pub record: String,
    pub slots: Vec<Slot>,
    pub methods: Vec<Method>,
}

/// Mathematical model of a [`GeneratedBuilder`].
pub struct GeneratedBuilderView {
    pub name: Seq<char>,
    pub record: Seq<char>,
    pub slots: Seq<SlotView>,
    pub methods: Seq<MethodView>,
}

impl GeneratedBuilderView {
    /// Every method writes a slot that the builder has.
    pub open spec fn wf(self) -> bool {
        forall|m: int|
            0 <= m < self.methods.len() ==> 0 <= (#[trigger] self.methods[m]).slot
                < self.slots.len()
    }
}

impl View for GeneratedBuilder {
    type V = GeneratedBuilderView;

    open spec fn view(&self) -> GeneratedBuilderView {
        GeneratedBuilderView {
            name: self.name@,
            record: self.record@,
            slots: self.slots.deep_view(),
            methods: self.methods.deep_view(),
        }
    }
}

impl DeepView for GeneratedBuilder {
    type V = GeneratedBuilderView;

    open spec fn deep_view(&self) -> GeneratedBuilderView {
        self@
    }
}

impl Clone for GeneratedBuilder {
    fn clone(&self) -> (res: Self)
        ensures
            res@ == self@,
    {
        let slots = self.slots.clone();
        let methods = self.methods.clone();
        GeneratedBuilder {
            name: self.name.clone(),
            record: self.record.clone(),
            slots,
            methods,
        }
    }
}

/// The slot of a field. A plain field is stored under its declared type and
/// required at `build`; an optional field is stored under its element type,
/// so that the slot is not optional twice over; a collection is stored under
/// its declared type and starts out empty.
pub open spec fn slot_of(f: FieldDescriptorView) -> SlotView {
    match f.wrapper_kind {
        WrapperKind::Plain => SlotView {
            name: f.name,
            holds: f.declared_type,
            initial: Initial::Absent,
            on_build: BuildRule::Require,
        },
        WrapperKind::Optional => SlotView {
            name: f.name,
            holds: f.element_type->0,
            initial: Initial::Absent,
            on_build: BuildRule::PassThrough,
        },
        WrapperKind::Collection => SlotView {
            name: f.name,
            holds: f.declared_type,
            initial: Initial::Empty,
            on_build: BuildRule::OrEmpty,
        },
    }
}

/// The whole-value setter of the field at position `i`: named after the
/// field, it replaces the slot by a value of the type that the slot holds.
pub open spec fn setter_of(f: FieldDescriptorView, i: int) -> MethodView {
    MethodView { name: f.name, slot: i, action: Action::Replace, param: slot_of(f).holds }
}

/// The accumulator of the field at position `i`: named by the field's alias,
/// it appends one value of the element type.
pub open spec fn accumulator_of(f: FieldDescriptorView, i: int) -> MethodView {
    MethodView {
        name: f.accumulator_alias->0,
        slot: i,
        action: Action::Append,
        param: f.element_type->0,
    }
}

/// The methods of the field at position `i`. Without an alias: the setter.
/// With an alias: the accumulator, then the setter; but where the alias is
/// the field's own name, the accumulator alone.
pub open spec fn methods_of(f: FieldDescriptorView, i: int) -> Seq<MethodView> {
    if f.accumulator_alias is None {
        seq![setter_of(f, i)]
    } else if f.accumulator_alias->0 == f.name {
        seq![accumulator_of(f, i)]
    } else {
        seq![accumulator_of(f, i), setter_of(f, i)]
    }
}

/// The methods of the first `n` fields, field after field.
pub open spec fn methods_upto(fields: Seq<FieldDescriptorView>, n: int) -> Seq<MethodView>
    decreases n,
{
    if n <= 0 {
        Seq::empty()
    } else {
        methods_upto(fields, n - 1) + methods_of(fields[n - 1], n - 1)
    }
}

/// The builder generated for a descriptor.
pub open spec fn emit_spec(d: BuilderDescriptorView) -> GeneratedBuilderView {
    GeneratedBuilderView {
        name: d.name,
        record: d.record,
        slots: d.fields.map_values(|f: FieldDescriptorView| slot_of(f)),
        methods: methods_upto(d.fields, d.fields.len() as int),
    }
}

/// Every method of the first `n` fields writes the slot of one of them.
pub proof fn lemma_methods_upto_slots(fields: Seq<FieldDescriptorView>, n: int)
    requires
        0 <= n <= fields.len(),
    ensures
        forall|m: int|
            0 <= m < methods_upto(fields, n).len() ==> 0 <= (#[trigger] methods_upto(
                fields,
                n,
            )[m]).slot < n,
    decreases n,
{
    if n > 0 {
        lemma_methods_upto_slots(fields, n - 1);
    }
}

/// The generated builder is well formed.
pub proof fn lemma_emit_wf(d: BuilderDescriptorView)
    ensures
        emit_spec(d).wf(),
{
    lemma_methods_upto_slots(d.fields, d.fields.len() as int);
}

/// The position, among the generated methods, of the first method of the
/// field at position `i`: the number of methods of the fields before it.
pub open spec fn offset(fields: Seq<FieldDescriptorView>, i: int) -> int {
    methods_upto(fields, i).len() as int
}

/// A field has one method or two, and each writes the field's own slot.
pub proof fn lemma_methods_of(f: FieldDescriptorView, i: int)
    ensures
        1 <= methods_of(f, i).len() <= 2,
        forall|k: int|
            0 <= k < methods_of(f, i).len() ==> (#[trigger] methods_of(f, i)[k]).slot == i,
{
}

/// The methods of a field follow those of the fields before it.
pub proof fn lemma_offset_step(fields: Seq<FieldDescriptorView>, i: int)
    requires
        0 <= i,
    ensures
        offset(fields, i + 1) == offset(fields, i) + methods_of(fields[i], i).len(),
        offset(fields, i) < offset(fields, i + 1),
{
    lemma_methods_of(fields[i], i);
}

/// A later field's methods start no earlier than an earlier field's.
pub proof fn lemma_offset_monotone(fields: Seq<FieldDescriptorView>, a: int, b: int)
    requires
        0 <= a <= b,
    ensures
        offset(fields, a) <= offset(fields, b),
    decreases b - a,
{
    if a < b {
        lemma_offset_monotone(fields, a, b - 1);
        lemma_offset_step(fields, b - 1);
    }
}

/// The methods of the first `a` fields stay where they are when more
/// fields follow.
pub proof fn lemma_methods_prefix(fields: Seq<FieldDescriptorView>, a: int, b: int, m: int)
    requires
        0 <= a <= b,
        0 <= m < offset(fields, a),
    ensures
        m < offset(fields, b),
        methods_upto(fields, b)[m] == methods_upto(fields, a)[m],
    decreases b - a,
{
    if a < b {
        lemma_methods_prefix(fields, a, b - 1, m);
    }
}

/// Where the methods of the field at position `i` stand among the methods
/// of the first `n` fields: from the field's offset on, in their own order.
pub proof fn lemma_methods_at(fields: Seq<FieldDescriptorView>, n: int, i: int, k: int)
    requires
        0 <= i < n,
        0 <= k < methods_of(fields[i], i).len(),
    ensures
        offset(fields, i) + k < offset(fields, i + 1) <= offset(fields, n),
        methods_upto(fields, n)[offset(fields, i) + k] == methods_of(fields[i], i)[k],
{
    lemma_offset_step(fields, i);
    lemma_offset_monotone(fields, i + 1, n);
    lemma_methods_prefix(fields, i + 1, n, offset(fields, i) + k);
}

/// Every generated method stands among the methods of the field whose slot
/// it writes.
pub proof fn lemma_methods_origin(fields: Seq<FieldDescriptorView>, n: int, m: int)
    requires
        0 <= n,
        0 <= m < offset(fields, n),
    ensures
        0 <= methods_upto(fields, n)[m].slot < n,
        offset(fields, methods_upto(fields, n)[m].slot) <= m < offset(
            fields,
            methods_upto(fields, n)[m].slot + 1,
        ),
    decreases n,
{
    if m < offset(fields, n - 1) {
        lemma_methods_origin(fields, n - 1, m);
    } else {
        lemma_methods_of(fields[n - 1], n - 1);
    }
}

/// Lays out the slot of one field.
fn emit_slot(f: &FieldDescriptor) -> (res: Slot)
    requires
        f@.wf(),
    ensures
        res@ == slot_of(f@),
{
    match f.wrapper_kind {
        WrapperKind::Plain => Slot {
            name: f.name.clone(),
            holds: f.declared_type.clone(),
            initial: Initial::Absent,
            on_build: BuildRule::Require,
        },
        WrapperKind::Optional => Slot {
            name: f.name.clone(),
            holds: match &f.element_type {
                Some(element) => element.clone(),
                None => f.declared_type.clone(),
            },
            initial: Initial::Absent,
            on_build: BuildRule::PassThrough,
        },
        WrapperKind::Collection => Slot {
            name: f.name.clone(),
            holds: f.declared_type.clone(),
            initial: Initial::Empty,
            on_build: BuildRule::OrEmpty,
        },
    }
}

/// Lays out the whole-value setter of the field at position `i`.
fn emit_setter(f: &FieldDescriptor, i: usize) -> (res: Method)
    requires
        f@.wf(),
    ensures
        res@ == setter_of(f@, i as int),
{
    let slot = emit_slot(f);
    Method { name: f.name.clone(), slot: i, action: Action::Replace, param: slot.holds }
}

/// Appends to `methods` the methods of the field at position `i`.
fn emit_methods(f: &FieldDescriptor, i: usize, methods: &mut Vec<Method>)
    requires
        f@.wf(),
    ensures
        final(methods).deep_view() == old(methods).deep_view() + methods_of(f@, i as int),
{
    match (&f.accumulator_alias, &f.element_type) {
        (Some(alias), Some(element)) => {
            methods.push(
                Method {
                    name: alias.clone(),
                    slot: i,
                    action: Action::Append,
                    param: element.clone(),
                },
            );
            if *alias != f.name {
                methods.push(emit_setter(f, i));
            }
        },
        _ => {
            methods.push(emit_setter(f, i));
        },
    }
}

/// Emits the builder of a descriptor: one slot per field in declaration
/// order, and each field's methods in the same order.
pub fn emit(d: &BuilderDescriptor) -> (res: GeneratedBuilder)
    requires
        d@.wf(),
    ensures
        res@ == emit_spec(d@),
        res@.wf(),
{
    let mut slots: Vec<Slot> = Vec::new();
    let mut methods: Vec<Method> = Vec::new();
    let mut i: usize = 0;
    while i < d.fields.len()
        invariant
            i <= d.fields.len(),
            d@.wf(),
            slots.len() == i,
            forall|j: int| 0 <= j < i ==> slots@[j]@ == slot_of(d@.fields[j]),
            methods.deep_view() == methods_upto(d@.fields, i as int),
        decreases d.fields.len() - i,
    {
        let f = &d.fields[i];
        assert(f@ == d@.fields[i as int]);
        slots.push(emit_slot(f));
        emit_methods(f, i, &mut methods);
        i += 1;
    }
    proof {
        assert(slots.deep_view() =~= d@.fields.map_values(|f: FieldDescriptorView| slot_of(f)));
        lemma_emit_wf(d@);
    }
    GeneratedBuilder { name: d.name.clone(), record: d.record.clone(), slots, methods }
}

} // verus!
