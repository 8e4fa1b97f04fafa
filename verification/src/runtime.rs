//! The dynamic semantics of a generated builder.
//!
//! The synthesizer emits one storage slot per field, one setter or
//! appender per field, and a finalization method. This module states
//! that behaviour directly: a builder state holds one slot per field,
//! assignment replaces a slot's value, appending extends it, and
//! finalization checks the required fields and produces the record —
//! without consuming the builder. The guarantees of the generated code
//! (a missing required field fails with "<name> parameter is not set",
//! an unset optional field resolves to no value, an untouched
//! accumulating field resolves to the empty list, appends keep their
//! order, finalization is repeatable) are proved here.

use vstd::prelude::*;
use vstd::string::StringExecFns;
use crate::classify::{ClassifiedField, FieldMode};

verus! {

/// A runtime value held by a builder slot: enough shapes to populate
/// a record's fields in the semantic model.
#[derive(Debug)]
pub enum Value {
    Str { s: String },
    Int { i: i64 },
}

impl Clone for Value {
    fn clone(&self) -> (r: Self)
        ensures
            r == *self,
    {
        match self {
            Value::Str { s } => Value::Str { s: s.clone() },
            Value::Int { i } => Value::Int { i: *i },
        }
    }
}

impl PartialEq for Value {
    fn eq(&self, other: &Self) -> (r: bool) {
        match (self, other) {
            (Value::Str { s }, Value::Str { s: t }) => *s == *t,
            (Value::Int { i }, Value::Int { i: j }) => *i == *j,
            _ => false,
        }
    }
}

impl vstd::std_specs::cmp::PartialEqSpecImpl for Value {
    open spec fn obeys_eq_spec() -> bool {
        true
    }

    open spec fn eq_spec(&self, other: &Self) -> bool {
        match (self, other) {
            (Value::Str { s }, Value::Str { s: t }) => s@ == t@,
            (Value::Int { i }, Value::Int { i: j }) => i == j,
            _ => false,
        }
    }
}

/// One storage slot of a builder. A required or optional field's slot
/// is absent until assigned; an accumulating field's slot is absent
/// until the first append.
pub enum Slot {
    Absent,
    Assigned { value: Value },
    Accumulated { items: Vec<Value> },
}

/// The ghost counterpart of `Slot`.
#[verifier::ext_equal]
pub enum SpecSlot {
    Absent,
    Assigned { value: Value },
    Accumulated { items: Seq<Value> },
}

impl View for Slot {
    type V = SpecSlot;

    open spec fn view(&self) -> SpecSlot {
        match self {
            Slot::Absent => SpecSlot::Absent,
            Slot::Assigned { value } => SpecSlot::Assigned { value: *value },
            Slot::Accumulated { items } => SpecSlot::Accumulated { items: items@ },
        }
    }
}

/// One field of a live builder: its name, its construction mode, and
/// its current slot.
pub struct BuilderField {
    pub name: String,
    pub mode: FieldMode,
    pub slot: Slot,
}

/// The ghost counterpart of `BuilderField`.
#[verifier::ext_equal]
pub struct SpecBuilderField {
    pub name: Seq<char>,
    pub mode: FieldMode,
    pub slot: SpecSlot,
}

impl View for BuilderField {
    type V = SpecBuilderField;

    open spec fn view(&self) -> SpecBuilderField {
        SpecBuilderField { name: self.name@, mode: self.mode, slot: self.slot@ }
    }
}

impl DeepView for BuilderField {
    type V = SpecBuilderField;

    open spec fn deep_view(&self) -> SpecBuilderField {
        self.view()
    }
}

/// A live builder: the record's name and one field per declared field,
/// in declaration order.
pub struct BuilderState {
    pub record_name: String,
    pub fields: Vec<BuilderField>,
}

/// The ghost counterpart of `BuilderState`.
#[verifier::ext_equal]
pub struct SpecBuilderState {
    pub name: Seq<char>,
    pub fields: Seq<SpecBuilderField>,
}

impl View for BuilderState {
    type V = SpecBuilderState;

    open spec fn view(&self) -> SpecBuilderState {
        SpecBuilderState { name: self.record_name@, fields: self.fields.deep_view() }
    }
}

/// A slot's shape agrees with its field's mode: only an accumulating
/// field ever accumulates, and an accumulating field is never assigned
/// wholesale (it has no bulk setter).
pub open spec fn spec_slot_fits(f: SpecBuilderField) -> bool {
    match f.slot {
        SpecSlot::Absent => true,
        SpecSlot::Assigned { .. } => f.mode != FieldMode::Accumulating,
        SpecSlot::Accumulated { .. } => f.mode == FieldMode::Accumulating,
    }
}

impl SpecBuilderState {
    /// Every slot agrees with its field's mode.
    pub open spec fn wf(self) -> bool {
        forall|i: int| 0 <= i < self.fields.len() ==> spec_slot_fits(#[trigger] self.fields[i])
    }
}

/// The state after assigning `v` to the field at `i`: that slot holds
/// `v`, every other field is untouched.
pub open spec fn spec_assign(s: SpecBuilderState, i: int, v: Value) -> SpecBuilderState {
    SpecBuilderState {
        name: s.name,
        fields: s.fields.update(
            i,
            SpecBuilderField {
                name: s.fields[i].name,
                mode: s.fields[i].mode,
                slot: SpecSlot::Assigned { value: v },
            },
        ),
    }
}

/// What a slot holds after appending `v`: the old elements, in order,
/// then `v`; an absent slot starts as the empty list.
pub open spec fn spec_appended(slot: SpecSlot, v: Value) -> Seq<Value> {
    match slot {
        SpecSlot::Accumulated { items } => items.push(v),
        _ => seq![v],
    }
}

/// The elements an accumulating slot holds; an absent slot holds none.
pub open spec fn spec_items_of(slot: SpecSlot) -> Seq<Value> {
    match slot {
        SpecSlot::Accumulated { items } => items,
        _ => Seq::empty(),
    }
}

/// The state after appending `v` to the field at `i`.
pub open spec fn spec_append(s: SpecBuilderState, i: int, v: Value) -> SpecBuilderState {
    SpecBuilderState {
        name: s.name,
        fields: s.fields.update(
            i,
            SpecBuilderField {
                name: s.fields[i].name,
                mode: s.fields[i].mode,
                slot: SpecSlot::Accumulated { items: spec_appended(s.fields[i].slot, v) },
            },
        ),
    }
}

/// A field that blocks finalization: required, but never set.
pub open spec fn spec_missing(f: SpecBuilderField) -> bool {
    f.mode == FieldMode::Required && f.slot is Absent
}

/// What a field resolves to at finalization, provided it is not a
/// missing required field: a required or assigned optional field hands
/// out its value, an unset optional field resolves to no value, an
/// accumulating field to its elements — the empty list if untouched.
pub open spec fn spec_resolve(f: SpecBuilderField) -> SpecResolved {
    match f.mode {
        FieldMode::Required => match f.slot {
            SpecSlot::Assigned { value } => SpecResolved::Present { value },
            _ => SpecResolved::NoValue,
        },
        FieldMode::Optional => match f.slot {
            SpecSlot::Assigned { value } => SpecResolved::Present { value },
            _ => SpecResolved::NoValue,
        },
        FieldMode::Accumulating => match f.slot {
            SpecSlot::Accumulated { items } => SpecResolved::Items { items },
            _ => SpecResolved::Items { items: Seq::empty() },
        },
    }
}

/// A finalized field's content.
#[derive(Debug)]
pub enum Resolved {
    /// The field was set to this value.
    Present { value: Value },
    /// An optional field left unset: a valid final state.
    NoValue,
    /// An accumulating field's elements, in append order.
    Items { items: Vec<Value> },
}

/// The ghost counterpart of `Resolved`.
#[verifier::ext_equal]
pub enum SpecResolved {
    Present { value: Value },
    NoValue,
    Items { items: Seq<Value> },
}

impl View for Resolved {
    type V = SpecResolved;

    open spec fn view(&self) -> SpecResolved {
        match self {
            Resolved::Present { value } => SpecResolved::Present { value: *value },
            Resolved::NoValue => SpecResolved::NoValue,
            Resolved::Items { items } => SpecResolved::Items { items: items@ },
        }
    }
}

/// One finalized field: its name and its resolved content.
#[derive(Debug)]
pub struct FieldValue {
    pub name: String,
    pub content: Resolved,
}

/// The ghost counterpart of `FieldValue`.
#[verifier::ext_equal]
pub struct SpecFieldValue {
    pub name: Seq<char>,
    pub content: SpecResolved,
}

impl View for FieldValue {
    type V = SpecFieldValue;

    open spec fn view(&self) -> SpecFieldValue {
        SpecFieldValue { name: self.name@, content: self.content@ }
    }
}

impl DeepView for FieldValue {
    type V = SpecFieldValue;

    open spec fn deep_view(&self) -> SpecFieldValue {
        self.view()
    }
}

/// A fully constructed record: the record's name and every field's
/// resolved content, in declaration order.
#[derive(Debug)]
pub struct RecordValue {
    pub name: String,
    pub fields: Vec<FieldValue>,
}

/// The ghost counterpart of `RecordValue`.
#[verifier::ext_equal]
pub struct SpecRecordValue {
    pub name: Seq<char>,
    pub fields: Seq<SpecFieldValue>,
}

impl View for RecordValue {
    type V = SpecRecordValue;

    open spec fn view(&self) -> SpecRecordValue {
        SpecRecordValue { name: self.name@, fields: self.fields.deep_view() }
    }
}

/// The error finalization returns for a missing required field.
#[derive(Debug)]
pub struct BuildError {
    /// The name of the first required field that was never set.
    pub field: String,
}

/// The exact text a finalization failure carries.
pub open spec fn spec_missing_message(name: Seq<char>) -> Seq<char> {
    name + " parameter is not set"@
}

impl BuildError {
    /// The error's message: "<field name> parameter is not set".
    pub fn message(&self) -> (r: String)
        ensures
            r@ == spec_missing_message(self.field@),
    {
        let mut r = self.field.clone();
        r.append(" parameter is not set");
        r
    }
}

/// The first required field that was never set, if any.
pub open spec fn spec_first_missing(fields: Seq<SpecBuilderField>) -> Option<int>
    decreases fields.len(),
{
    if fields.len() == 0 {
        None
    } else if spec_missing(fields.first()) {
        Some(0)
    } else {
        match spec_first_missing(fields.drop_first()) {
            Some(j) => Some(j + 1),
            None => None,
        }
    }
}

/// `spec_first_missing` names the least blocked field: nothing before
/// it is blocked, and if it is absent, nothing is blocked at all.
pub proof fn lemma_first_missing(fields: Seq<SpecBuilderField>)
    ensures
        match spec_first_missing(fields) {
            None => forall|i: int|
                0 <= i < fields.len() ==> !spec_missing(#[trigger] fields[i]),
            Some(j) => 0 <= j < fields.len() && spec_missing(fields[j]) && forall|k: int|
                0 <= k < j ==> !spec_missing(#[trigger] fields[k]),
        },
    decreases fields.len(),
{
    if fields.len() == 0 {
    } else if spec_missing(fields.first()) {
        assert(fields[0] == fields.first());
    } else {
        lemma_first_missing(fields.drop_first());
        let rest = fields.drop_first();
        match spec_first_missing(rest) {
            None => {
                assert forall|i: int| 0 <= i < fields.len() implies !spec_missing(fields[i]) by {
                    if i == 0 {
                        assert(fields[0] == fields.first());
                    } else {
                        assert(rest[i - 1] == fields[i]);
                        assert(!spec_missing(rest[i - 1]));
                    }
                }
            },
            Some(j) => {
                assert(rest[j] == fields[j + 1]);
                assert forall|k: int| 0 <= k < j + 1 implies !spec_missing(fields[k]) by {
                    if k == 0 {
                        assert(fields[0] == fields.first());
                    } else {
                        assert(rest[k - 1] == fields[k]);
                        assert(!spec_missing(rest[k - 1]));
                    }
                }
            },
        }
    }
}

/// What finalization yields: the record, or the name of the first
/// missing required field.
pub open spec fn spec_finalize(s: SpecBuilderState) -> Result<SpecRecordValue, Seq<char>> {
    match spec_first_missing(s.fields) {
        Some(j) => Err(s.fields[j].name),
        None => Ok(
            SpecRecordValue {
                name: s.name,
                fields: Seq::new(
                    s.fields.len(),
                    |i: int| SpecFieldValue { name: s.fields[i].name, content: spec_resolve(s.fields[i]) },
                ),
            },
        ),
    }
}

/// Clone a slot's accumulated elements.
fn clone_values(v: &Vec<Value>) -> (r: Vec<Value>)
    ensures
        r@ == v@,
{
    let mut r: Vec<Value> = Vec::new();
    let mut i: usize = 0;
    while i < v.len()
        invariant
            0 <= i <= v@.len(),
            r@.len() == i,
            forall|j: int| 0 <= j < i ==> r@[j] == v@[j],
        decreases v@.len() - i,
    {
        r.push(v[i].clone());
        i = i + 1;
    }
    proof {
        assert(r@ =~= v@);
    }
    r
}

impl BuilderState {
    /// A fresh builder for the classified fields of a record: every
    /// slot starts absent.
    pub fn start(record_name: &String, fields: &Vec<ClassifiedField>) -> (r: BuilderState)
        ensures
            r@.name == record_name@,
            r@.fields.len() == fields@.len(),
            forall|i: int|
                0 <= i < fields@.len() ==> r@.fields[i] == (SpecBuilderField {
                    name: fields.deep_view()[i].name,
                    mode: fields.deep_view()[i].kind.spec_mode(),
                    slot: SpecSlot::Absent,
                }),
            r@.wf(),
    {
        let mut out: Vec<BuilderField> = Vec::new();
        let mut i: usize = 0;
        while i < fields.len()
            invariant
                0 <= i <= fields@.len(),
                out@.len() == i,
                forall|j: int|
                    0 <= j < i ==> out.deep_view()[j] == (SpecBuilderField {
                        name: fields.deep_view()[j].name,
                        mode: fields.deep_view()[j].kind.spec_mode(),
                        slot: SpecSlot::Absent,
                    }),
            decreases fields@.len() - i,
        {
            let f = &fields[i];
            let nf = BuilderField { name: f.name.clone(), mode: f.kind.mode(), slot: Slot::Absent };
            let ghost nfv = nf@;
            let ghost pre = out.deep_view();
            out.push(nf);
            proof {
                assert(fields.deep_view()[i as int] == f@);
                assert forall|j: int| 0 <= j < i + 1 implies out.deep_view()[j] == (SpecBuilderField {
                    name: fields.deep_view()[j].name,
                    mode: fields.deep_view()[j].kind.spec_mode(),
                    slot: SpecSlot::Absent,
                }) by {
                    if j < i {
                        assert(out.deep_view()[j] == pre[j]);
                    } else {
                        assert(out.deep_view()[j] == nfv);
                    }
                }
            }
            i = i + 1;
        }
        BuilderState { record_name: record_name.clone(), fields: out }
    }

    /// Assign a value to the required or optional field at `idx`: the
    /// slot now holds this value — a later assignment fully replaces an
    /// earlier one — and every other field is untouched.
    pub fn assign(&mut self, idx: usize, value: Value)
        requires
            old(self)@.wf(),
            idx < old(self)@.fields.len(),
            old(self)@.fields[idx as int].mode != FieldMode::Accumulating,
        ensures
            final(self)@ == spec_assign(old(self)@, idx as int, value),
            final(self)@.wf(),
    {
        let f = self.fields.remove(idx);
        let nf = BuilderField { name: f.name, mode: f.mode, slot: Slot::Assigned { value } };
        self.fields.insert(idx, nf);
        proof {
            assert(self@.fields =~= spec_assign(old(self)@, idx as int, value).fields);
            assert(self@ =~= spec_assign(old(self)@, idx as int, value));
        }
    }

    /// Append one element to the accumulating field at `idx`: the slot
    /// now holds its earlier elements, in order, followed by this one —
    /// an untouched slot starts from the empty list — and every other
    /// field is untouched.
    pub fn append_item(&mut self, idx: usize, value: Value)
        requires
            old(self)@.wf(),
            idx < old(self)@.fields.len(),
            old(self)@.fields[idx as int].mode == FieldMode::Accumulating,
        ensures
            final(self)@ == spec_append(old(self)@, idx as int, value),
            final(self)@.wf(),
    {
        let f = self.fields.remove(idx);
        let nf = match f.slot {
            Slot::Absent => {
                let mut items: Vec<Value> = Vec::new();
                items.push(value);
                proof {
                    assert(items@ =~= spec_appended(old(self)@.fields[idx as int].slot, value));
                }
                BuilderField { name: f.name, mode: f.mode, slot: Slot::Accumulated { items } }
            },
            Slot::Accumulated { items } => {
                let mut items = items;
                items.push(value);
                BuilderField { name: f.name, mode: f.mode, slot: Slot::Accumulated { items } }
            },
            Slot::Assigned { .. } => unreached(),
        };
        self.fields.insert(idx, nf);
        proof {
            assert(self@.fields =~= spec_append(old(self)@, idx as int, value).fields);
            assert(self@ =~= spec_append(old(self)@, idx as int, value));
        }
    }

    /// Finalize the builder without consuming or changing it: check
    /// every required field, then hand out the record. A required field
    /// never set fails with the first such field's name; an unset
    /// optional field resolves to no value; an untouched accumulating
    /// field resolves to the empty list.
    pub fn finalize(&self) -> (r: Result<RecordValue, BuildError>)
        requires
            self@.wf(),
        ensures
            match r {
                Ok(rec) => spec_finalize(self@) == Ok::<SpecRecordValue, Seq<char>>(rec@),
                Err(e) => spec_finalize(self@) == Err::<SpecRecordValue, Seq<char>>(e.field@),
            },
    {
        let ghost s = self@;
        let mut out: Vec<FieldValue> = Vec::new();
        let mut i: usize = 0;
        while i < self.fields.len()
            invariant
                self@ == s,
                s.wf(),
                0 <= i <= s.fields.len(),
                self.fields.deep_view() == s.fields,
                self.fields@.len() == s.fields.len(),
                out@.len() == i,
                forall|k: int| 0 <= k < i ==> !spec_missing(#[trigger] s.fields[k]),
                forall|k: int|
                    0 <= k < i ==> out.deep_view()[k] == (SpecFieldValue {
                        name: s.fields[k].name,
                        content: spec_resolve(s.fields[k]),
                    }),
            decreases s.fields.len() - i,
        {
            let f = &self.fields[i];
            proof {
                assert(self.fields.deep_view()[i as int] == f@);
                assert(s.fields[i as int] == f@);
                assert(spec_slot_fits(s.fields[i as int]));
            }
            let content: Resolved = match f.mode {
                FieldMode::Required => match &f.slot {
                    Slot::Assigned { value } => Resolved::Present { value: value.clone() },
                    Slot::Absent => {
                        proof {
                            assert(spec_missing(s.fields[i as int]));
                            lemma_first_missing(s.fields);
                            assert(spec_first_missing(s.fields) == Some(i as int));
                        }
                        return Err(BuildError { field: f.name.clone() });
                    },
                    Slot::Accumulated { .. } => unreached(),
                },
                FieldMode::Optional => match &f.slot {
                    Slot::Assigned { value } => Resolved::Present { value: value.clone() },
                    Slot::Absent => Resolved::NoValue,
                    Slot::Accumulated { .. } => unreached(),
                },
                FieldMode::Accumulating => match &f.slot {
                    Slot::Accumulated { items } => Resolved::Items { items: clone_values(items) },
                    Slot::Absent => Resolved::Items { items: Vec::new() },
                    Slot::Assigned { .. } => unreached(),
                },
            };
            let nfv = FieldValue { name: f.name.clone(), content };
            let ghost nfvv = nfv@;
            let ghost pre = out.deep_view();
            out.push(nfv);
            proof {
                assert forall|k: int| 0 <= k < i + 1 implies out.deep_view()[k] == (SpecFieldValue {
                    name: s.fields[k].name,
                    content: spec_resolve(s.fields[k]),
                }) by {
                    if k < i {
                        assert(out.deep_view()[k] == pre[k]);
                    } else {
                        assert(out.deep_view()[k] == nfvv);
                    }
                }
            }
            i = i + 1;
        }
        proof {
            lemma_first_missing(s.fields);
            assert(spec_first_missing(s.fields) is None);
        }
        let rec = RecordValue { name: self.record_name.clone(), fields: out };
        proof {
            assert(rec@.fields =~= spec_finalize(s)->Ok_0.fields);
            assert(rec@ =~= spec_finalize(s)->Ok_0);
        }
        Ok(rec)
    }
}

/// A later assignment to a field fully replaces an earlier one: for a
/// required or optional field, the last full assignment wins.
pub proof fn lemma_assign_last_wins(s: SpecBuilderState, i: int, v: Value, w: Value)
    requires
        0 <= i < s.fields.len(),
    ensures
        spec_assign(spec_assign(s, i, v), i, w) == spec_assign(s, i, w),
{
    assert(spec_assign(spec_assign(s, i, v), i, w).fields =~= spec_assign(s, i, w).fields);
    assert(spec_assign(spec_assign(s, i, v), i, w) =~= spec_assign(s, i, w));
}

/// Appending never discards earlier elements: after an append, the slot
/// holds exactly the elements it held before, in their order, followed
/// by the new one. Accumulation is monotone — an append never resets.
pub proof fn lemma_append_monotone(s: SpecBuilderState, i: int, v: Value)
    requires
        0 <= i < s.fields.len(),
    ensures
        spec_items_of(spec_append(s, i, v).fields[i].slot) == spec_items_of(s.fields[i].slot).push(
            v,
        ),
{
    assert(spec_items_of(spec_append(s, i, v).fields[i].slot) =~= spec_items_of(
        s.fields[i].slot,
    ).push(v));
}

/// Appending `a`, `b`, `c` in order to an untouched accumulating field
/// yields exactly the list `[a, b, c]`: strictly ordered, no
/// reordering, no deduplication.
pub proof fn lemma_append_in_order(s: SpecBuilderState, i: int, a: Value, b: Value, c: Value)
    requires
        0 <= i < s.fields.len(),
        s.fields[i].slot is Absent,
    ensures
        spec_items_of(
            spec_append(spec_append(spec_append(s, i, a), i, b), i, c).fields[i].slot,
        ) == seq![a, b, c],
{
    assert(spec_items_of(
        spec_append(spec_append(spec_append(s, i, a), i, b), i, c).fields[i].slot,
    ) =~= seq![a, b, c]);
}

/// A required field left unset makes finalization fail — no record is
/// produced — and the error names the first such field, whose message
/// reads "<name> parameter is not set".
pub proof fn lemma_missing_required_fails(s: SpecBuilderState, i: int)
    requires
        0 <= i < s.fields.len(),
        spec_missing(s.fields[i]),
    ensures
        spec_finalize(s) is Err,
        exists|j: int|
            {
                &&& 0 <= j < s.fields.len()
                &&& spec_missing(#[trigger] s.fields[j])
                &&& (forall|k: int| 0 <= k < j ==> !spec_missing(#[trigger] s.fields[k]))
                &&& spec_finalize(s) == Err::<SpecRecordValue, Seq<char>>(s.fields[j].name)
            },
{
    lemma_first_missing(s.fields);
    let j = spec_first_missing(s.fields)->Some_0;
    assert(spec_first_missing(s.fields) is Some);
    assert(spec_missing(s.fields[j]) && (forall|k: int|
        0 <= k < j ==> !spec_missing(#[trigger] s.fields[k])) && spec_finalize(s) == Err::<
        SpecRecordValue,
        Seq<char>,
    >(s.fields[j].name));
}

/// With every required field set, finalization succeeds, and an
/// optional field left unset resolves to "no value" — never an error.
pub proof fn lemma_optional_unset_resolves_no_value(s: SpecBuilderState)
    requires
        s.wf(),
        forall|i: int| 0 <= i < s.fields.len() ==> !spec_missing(#[trigger] s.fields[i]),
    ensures
        spec_finalize(s) is Ok,
        forall|i: int|
            0 <= i < s.fields.len() && s.fields[i].mode == FieldMode::Optional
                && s.fields[i].slot is Absent ==> spec_finalize(s)->Ok_0.fields[i].content
                == SpecResolved::NoValue,
{
    lemma_first_missing(s.fields);
    if spec_first_missing(s.fields) is Some {
        let j = spec_first_missing(s.fields)->Some_0;
        assert(spec_missing(s.fields[j]));
        assert(false);
    }
}

/// An accumulating field never appended to finalizes to the empty
/// list — never an error, provided every required field is set.
pub proof fn lemma_accumulating_untouched_resolves_empty(s: SpecBuilderState)
    requires
        s.wf(),
        forall|i: int| 0 <= i < s.fields.len() ==> !spec_missing(#[trigger] s.fields[i]),
    ensures
        spec_finalize(s) is Ok,
        forall|i: int|
            0 <= i < s.fields.len() && s.fields[i].mode == FieldMode::Accumulating
                && s.fields[i].slot is Absent ==> spec_finalize(s)->Ok_0.fields[i].content
                == (SpecResolved::Items { items: Seq::empty() }),
{
    lemma_first_missing(s.fields);
    if spec_first_missing(s.fields) is Some {
        let j = spec_first_missing(s.fields)->Some_0;
        assert(spec_missing(s.fields[j]));
        assert(false);
    }
}

/// Finalization is non-destructive and repeatable: it borrows the
/// builder without changing it, and its outcome is a function of the
/// builder's state alone — two finalizations with no setter call in
/// between yield equal results, both successful or both failing.
pub proof fn lemma_finalize_repeatable(
    s: SpecBuilderState,
    r1: Result<SpecRecordValue, Seq<char>>,
    r2: Result<SpecRecordValue, Seq<char>>,
)
    requires
        r1 == spec_finalize(s),
        r2 == spec_finalize(s),
    ensures
        r1 == r2,
{
}

} // verus!
