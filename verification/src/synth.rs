//! The code synthesizer.
//!
//! From a record's name and its classified fields it first builds the
//! builder model — the builder type's name, one storage slot per field,
//! one setter or appender per field — and then renders the model as the
//! generated code unit: the builder type, its methods, its finalization
//! method `build`, and the `builder()` factory on the record type. The
//! exact text of the generated unit is pinned down, piece by piece, by
//! spec functions.

use vstd::prelude::*;
use vstd::string::StringExecFns;
use crate::classify::{ClassifiedField, FieldKind, FieldMode, SpecClassifiedField};
use crate::model::{SpecSegment, SpecTypeExpr, TypeExpr};
use crate::runtime::spec_missing_message;

verus! {

/// Render a segment's generic arguments, separated by ", ".
pub open spec fn spec_render_args(args: Seq<Seq<char>>) -> Seq<char>
    decreases args.len(),
{
    if args.len() == 0 {
        Seq::empty()
    } else {
        spec_render_args(args.drop_last()) + (if args.len() == 1 {
            Seq::<char>::empty()
        } else {
            ", "@
        }) + args.last()
    }
}

/// Render one path segment: its name, then its generic arguments in
/// angle brackets, if it has any.
pub open spec fn spec_render_segment(s: SpecSegment) -> Seq<char> {
    if s.args.len() == 0 {
        s.name
    } else {
        s.name + "<"@ + spec_render_args(s.args) + ">"@
    }
}

/// Render a type path: its segments, separated by "::".
pub open spec fn spec_render_segments(segs: Seq<SpecSegment>) -> Seq<char>
    decreases segs.len(),
{
    if segs.len() == 0 {
        Seq::empty()
    } else {
        spec_render_segments(segs.drop_last()) + (if segs.len() == 1 {
            Seq::<char>::empty()
        } else {
            "::"@
        }) + spec_render_segment(segs.last())
    }
}

/// Render a declared type back to source text.
pub open spec fn spec_render_type(t: SpecTypeExpr) -> Seq<char> {
    spec_render_segments(t.segments)
}

/// Render a declared type back to source text: the path segments joined
/// by "::", each segment's generic arguments in angle brackets.
#[verifier::loop_isolation(false)]
pub fn render_type(ty: &TypeExpr) -> (r: String)
    ensures
        r@ == spec_render_type(ty@),
{
    let mut r = String::new();
    let ghost segsv = ty@.segments;
    proof {
        assert(segsv.take(0) =~= Seq::<SpecSegment>::empty());
    }
    let mut i: usize = 0;
    while i < ty.segments.len()
        invariant
            0 <= i <= ty.segments@.len(),
            r@ == spec_render_segments(segsv.take(i as int)),
        decreases ty.segments@.len() - i,
    {
        let seg = &ty.segments[i];
        proof {
            assert(segsv[i as int] == seg@);
        }
        if i > 0 {
            r.append("::");
        }
        let ghost base = r@;
        proof {
            assert(base =~= spec_render_segments(segsv.take(i as int)) + (if i == 0 {
                Seq::<char>::empty()
            } else {
                "::"@
            }));
        }
        r.append(seg.name.as_str());
        if seg.args.len() > 0 {
            r.append("<");
            let ghost abase = r@;
            proof {
                assert(abase =~= base + seg@.name + "<"@);
                assert(seg@.args.take(0) =~= Seq::<Seq<char>>::empty());
                assert(r@ =~= abase + spec_render_args(seg@.args.take(0)));
            }
            let mut j: usize = 0;
            while j < seg.args.len()
                invariant
                    0 <= j <= seg.args@.len(),
                    r@ == abase + spec_render_args(seg@.args.take(j as int)),
                decreases seg.args@.len() - j,
            {
                if j > 0 {
                    r.append(", ");
                }
                r.append(seg.args[j].as_str());
                proof {
                    assert(seg@.args[j as int] == seg.args@[j as int]@);
                    assert(seg@.args.take(j + 1).drop_last() =~= seg@.args.take(j as int));
                    assert(seg@.args.take(j + 1).last() == seg@.args[j as int]);
                    assert(r@ =~= abase + spec_render_args(seg@.args.take(j + 1)));
                }
                j = j + 1;
            }
            r.append(">");
            proof {
                assert(seg@.args.take(seg.args@.len() as int) =~= seg@.args);
                assert(r@ =~= base + spec_render_segment(seg@));
            }
        } else {
            proof {
                assert(seg@.args.len() == 0);
                assert(r@ =~= base + spec_render_segment(seg@));
            }
        }
        proof {
            assert(segsv.take(i + 1).drop_last() =~= segsv.take(i as int));
            assert(segsv.take(i + 1).last() == seg@);
            assert(r@ =~= spec_render_segments(segsv.take(i + 1)));
        }
        i = i + 1;
    }
    proof {
        assert(segsv.take(ty.segments@.len() as int) =~= segsv);
    }
    r
}

/// One slot of the builder model: the field it stores, its mode, the
/// storage slot's type text, the setter's (or appender's) parameter
/// type text, and the generated method's name.
pub struct SlotModel {
    pub field_name: String,
    pub mode: FieldMode,
    pub storage_ty: String,
    pub param_ty: String,
    pub method_name: String,
}

/// The ghost counterpart of `SlotModel`.
#[verifier::ext_equal]
pub struct SpecSlotModel {
    pub field_name: Seq<char>,
    pub mode: FieldMode,
    pub storage_ty: Seq<char>,
    pub param_ty: Seq<char>,
    pub method_name: Seq<char>,
}

impl View for SlotModel {
    type V = SpecSlotModel;

    open spec fn view(&self) -> SpecSlotModel {
        SpecSlotModel {
            field_name: self.field_name@,
            mode: self.mode,
            storage_ty: self.storage_ty@,
            param_ty: self.param_ty@,
            method_name: self.method_name@,
        }
    }
}

impl DeepView for SlotModel {
    type V = SpecSlotModel;

    open spec fn deep_view(&self) -> SpecSlotModel {
        self.view()
    }
}

/// The builder model: the record's name, the builder type's name, and
/// one slot per field, in declaration order.
pub struct BuilderModel {
    pub record_name: String,
    pub builder_name: String,
    pub slots: Vec<SlotModel>,
}

/// The ghost counterpart of `BuilderModel`.
#[verifier::ext_equal]
pub struct SpecBuilderModel {
    pub record_name: Seq<char>,
    pub builder_name: Seq<char>,
    pub slots: Seq<SpecSlotModel>,
}

impl View for BuilderModel {
    type V = SpecBuilderModel;

    open spec fn view(&self) -> SpecBuilderModel {
        SpecBuilderModel {
            record_name: self.record_name@,
            builder_name: self.builder_name@,
            slots: self.slots.deep_view(),
        }
    }
}

/// The storage type of a slot that wraps the declared type in the
/// optional container.
pub open spec fn spec_opt_wrapped(ty_text: Seq<char>) -> Seq<char> {
    "std::option::Option<"@ + ty_text + ">"@
}

/// The slot a classified field receives. A field already declared
/// optional keeps its declared type as the storage type — no double
/// wrapping; every other field is stored wrapped in the optional
/// container. A required field's setter takes the full declared type,
/// an optional field's setter takes the wrapper's argument, and an
/// accumulating field's single method — named by its annotation —
/// takes one list element.
pub open spec fn spec_slot_model(f: SpecClassifiedField) -> SpecSlotModel {
    match f.kind {
        crate::classify::SpecFieldKind::Required => SpecSlotModel {
            field_name: f.name,
            mode: FieldMode::Required,
            storage_ty: spec_opt_wrapped(spec_render_type(f.ty)),
            param_ty: spec_render_type(f.ty),
            method_name: f.name,
        },
        crate::classify::SpecFieldKind::Optional { inner } => SpecSlotModel {
            field_name: f.name,
            mode: FieldMode::Optional,
            storage_ty: spec_render_type(f.ty),
            param_ty: inner,
            method_name: f.name,
        },
        crate::classify::SpecFieldKind::Accumulating { elem, method } => SpecSlotModel {
            field_name: f.name,
            mode: FieldMode::Accumulating,
            storage_ty: spec_opt_wrapped(spec_render_type(f.ty)),
            param_ty: elem,
            method_name: method,
        },
    }
}

/// The whole builder model of a record: builder name = record name +
/// "Builder", one slot per classified field, in order.
pub open spec fn spec_builder_model(name: Seq<char>, fs: Seq<SpecClassifiedField>) -> SpecBuilderModel {
    SpecBuilderModel {
        record_name: name,
        builder_name: name + crate::builder_suffix(),
        slots: Seq::new(fs.len(), |i: int| spec_slot_model(fs[i])),
    }
}

/// Wrap a rendered type in the optional container.
fn opt_wrapped(ty_text: &String) -> (r: String)
    ensures
        r@ == spec_opt_wrapped(ty_text@),
{
    let mut r = String::from_str("std::option::Option<");
    r.append(ty_text.as_str());
    r.append(">");
    proof {
        assert(r@ =~= spec_opt_wrapped(ty_text@));
    }
    r
}

/// Build the builder model for a record's classified fields.
#[verifier::loop_isolation(false)]
pub fn synthesize(record_name: &String, fields: &Vec<ClassifiedField>) -> (m: BuilderModel)
    ensures
        m@ == spec_builder_model(record_name@, fields.deep_view()),
{
    let builder_name = crate::builder_name_of(record_name);
    let mut slots: Vec<SlotModel> = Vec::new();
    let mut i: usize = 0;
    while i < fields.len()
        invariant
            0 <= i <= fields@.len(),
            slots@.len() == i,
            forall|k: int|
                0 <= k < i ==> slots.deep_view()[k] == spec_slot_model(fields.deep_view()[k]),
        decreases fields@.len() - i,
    {
        let f = &fields[i];
        proof {
            assert(fields.deep_view()[i as int] == f@);
        }
        let slot = match &f.kind {
            FieldKind::Required => {
                let ty_text = render_type(&f.ty);
                SlotModel {
                    field_name: f.name.clone(),
                    mode: FieldMode::Required,
                    storage_ty: opt_wrapped(&ty_text),
                    param_ty: ty_text,
                    method_name: f.name.clone(),
                }
            },
            FieldKind::Optional { inner } => SlotModel {
                field_name: f.name.clone(),
                mode: FieldMode::Optional,
                storage_ty: render_type(&f.ty),
                param_ty: inner.clone(),
                method_name: f.name.clone(),
            },
            FieldKind::Accumulating { elem, method } => {
                let ty_text = render_type(&f.ty);
                SlotModel {
                    field_name: f.name.clone(),
                    mode: FieldMode::Accumulating,
                    storage_ty: opt_wrapped(&ty_text),
                    param_ty: elem.clone(),
                    method_name: method.clone(),
                }
            },
        };
        let ghost slotv = slot@;
        let ghost pre = slots.deep_view();
        slots.push(slot);
        proof {
            assert(slotv == spec_slot_model(f@));
            assert forall|k: int| 0 <= k < i + 1 implies slots.deep_view()[k] == spec_slot_model(
                fields.deep_view()[k],
            ) by {
                if k < i {
                    assert(slots.deep_view()[k] == pre[k]);
                } else {
                    assert(slots.deep_view()[k] == slotv);
                }
            }
        }
        i = i + 1;
    }
    let m = BuilderModel { record_name: record_name.clone(), builder_name, slots };
    proof {
        assert(m@.slots =~= spec_builder_model(record_name@, fields.deep_view()).slots);
        assert(m@ =~= spec_builder_model(record_name@, fields.deep_view()));
    }
    m
}

/// The builder struct's storage line for one slot.
pub open spec fn spec_field_line(m: SpecSlotModel) -> Seq<char> {
    "    "@ + m.field_name + ": "@ + m.storage_ty + ",\n"@
}

/// The generated setter for a required or optional field: it takes the
/// parameter type by value, stores it wrapped in the present state, and
/// returns the builder for chaining.
pub open spec fn spec_setter_text(m: SpecSlotModel) -> Seq<char> {
    "    pub fn "@ + m.method_name + "(&mut self, "@ + m.method_name + ": "@ + m.param_ty
        + ") -> &mut Self { self."@ + m.field_name + " = std::option::Option::Some("@
        + m.method_name + "); self }\n"@
}

/// The generated appender for an accumulating field: on each call it
/// initializes an absent slot to the empty list, then appends the one
/// element. It replaces the bulk setter entirely.
pub open spec fn spec_appender_text(m: SpecSlotModel) -> Seq<char> {
    "    pub fn "@ + m.method_name + "(&mut self, "@ + m.method_name + ": "@ + m.param_ty
        + ") -> &mut Self { if self."@ + m.field_name
        + ".is_none() { self."@ + m.field_name + " = std::option::Option::Some(std::vec::Vec::<"@
        + m.param_ty + ">::new()); } if let std::option::Option::Some(items) = self."@
        + m.field_name + ".as_mut() { items.push("@ + m.method_name + "); } self }\n"@
}

/// The one generated method of a slot: an accumulating field gets only
/// the per-element appender, every other field its setter.
pub open spec fn spec_method_text(m: SpecSlotModel) -> Seq<char> {
    if m.mode == FieldMode::Accumulating {
        spec_appender_text(m)
    } else {
        spec_setter_text(m)
    }
}

/// One slot's line in the generated finalization method: a required
/// slot unwraps or fails with "<name> parameter is not set", an
/// optional slot passes through unchanged, an accumulating slot
/// substitutes the empty list when absent.
pub open spec fn spec_build_arm(m: SpecSlotModel) -> Seq<char> {
    match m.mode {
        FieldMode::Required => "            "@ + m.field_name + ": self."@ + m.field_name
            + ".clone().ok_or(\""@ + spec_missing_message(m.field_name) + "\")?,\n"@,
        FieldMode::Optional => "            "@ + m.field_name + ": self."@ + m.field_name
            + ".clone(),\n"@,
        FieldMode::Accumulating => "            "@ + m.field_name + ": self."@ + m.field_name
            + ".clone().unwrap_or_default(),\n"@,
    }
}

/// One slot's line in the generated factory: every slot starts absent.
pub open spec fn spec_factory_arm(m: SpecSlotModel) -> Seq<char> {
    "            "@ + m.field_name + ": std::option::Option::None,\n"@
}

/// The builder struct's storage lines, one per slot, in order.
pub open spec fn spec_field_lines(ms: Seq<SpecSlotModel>) -> Seq<char>
    decreases ms.len(),
{
    if ms.len() == 0 {
        Seq::empty()
    } else {
        spec_field_lines(ms.drop_last()) + spec_field_line(ms.last())
    }
}

/// The generated methods, one per slot, in order.
pub open spec fn spec_method_texts(ms: Seq<SpecSlotModel>) -> Seq<char>
    decreases ms.len(),
{
    if ms.len() == 0 {
        Seq::empty()
    } else {
        spec_method_texts(ms.drop_last()) + spec_method_text(ms.last())
    }
}

/// The finalization lines, one per slot, in order.
pub open spec fn spec_build_arms(ms: Seq<SpecSlotModel>) -> Seq<char>
    decreases ms.len(),
{
    if ms.len() == 0 {
        Seq::empty()
    } else {
        spec_build_arms(ms.drop_last()) + spec_build_arm(ms.last())
    }
}

/// The factory lines, one per slot, in order.
pub open spec fn spec_factory_arms(ms: Seq<SpecSlotModel>) -> Seq<char>
    decreases ms.len(),
{
    if ms.len() == 0 {
        Seq::empty()
    } else {
        spec_factory_arms(ms.drop_last()) + spec_factory_arm(ms.last())
    }
}

/// The whole generated code unit: the builder struct, its methods and
/// its `build` finalization, and the `builder()` factory on the record.
pub open spec fn spec_render_unit(m: SpecBuilderModel) -> Seq<char> {
    "pub struct "@ + m.builder_name + " {\n"@ + spec_field_lines(m.slots) + "}\nimpl "@
        + m.builder_name + " {\n"@ + spec_method_texts(m.slots)
        + "    pub fn build(&mut self) -> std::result::Result<"@ + m.record_name
        + ", std::boxed::Box<dyn std::error::Error>> {\n        std::result::Result::Ok("@
        + m.record_name + " {\n"@ + spec_build_arms(m.slots) + "        })\n    }\n}\nimpl "@
        + m.record_name + " {\n    pub fn builder() -> "@ + m.builder_name + " {\n        "@
        + m.builder_name + " {\n"@ + spec_factory_arms(m.slots) + "        }\n    }\n}\n"@
}

/// Render one slot's storage line.
fn render_field_line(m: &SlotModel) -> (r: String)
    ensures
        r@ == spec_field_line(m@),
{
    let mut r = String::from_str("    ");
    r.append(m.field_name.as_str());
    r.append(": ");
    r.append(m.storage_ty.as_str());
    r.append(",\n");
    proof {
        assert(r@ =~= spec_field_line(m@));
    }
    r
}

/// Render one slot's generated method.
fn render_method(m: &SlotModel) -> (r: String)
    ensures
        r@ == spec_method_text(m@),
{
    match m.mode {
        FieldMode::Accumulating => {
            let mut r = String::from_str("    pub fn ");
            r.append(m.method_name.as_str());
            r.append("(&mut self, ");
            r.append(m.method_name.as_str());
            r.append(": ");
            r.append(m.param_ty.as_str());
            r.append(") -> &mut Self { if self.");
            r.append(m.field_name.as_str());
            r.append(".is_none() { self.");
            r.append(m.field_name.as_str());
            r.append(" = std::option::Option::Some(std::vec::Vec::<");
            r.append(m.param_ty.as_str());
            r.append(">::new()); } if let std::option::Option::Some(items) = self.");
            r.append(m.field_name.as_str());
            r.append(".as_mut() { items.push(");
            r.append(m.method_name.as_str());
            r.append("); } self }\n");
            proof {
                assert(r@ =~= spec_appender_text(m@));
            }
            r
        },
        _ => {
            let mut r = String::from_str("    pub fn ");
            r.append(m.method_name.as_str());
            r.append("(&mut self, ");
            r.append(m.method_name.as_str());
            r.append(": ");
            r.append(m.param_ty.as_str());
            r.append(") -> &mut Self { self.");
            r.append(m.field_name.as_str());
            r.append(" = std::option::Option::Some(");
            r.append(m.method_name.as_str());
            r.append("); self }\n");
            proof {
                assert(r@ =~= spec_setter_text(m@));
            }
            r
        },
    }
}

/// Render one slot's finalization line.
fn render_build_arm(m: &SlotModel) -> (r: String)
    ensures
        r@ == spec_build_arm(m@),
{
    let mut r = String::from_str("            ");
    r.append(m.field_name.as_str());
    r.append(": self.");
    r.append(m.field_name.as_str());
    match m.mode {
        FieldMode::Required => {
            r.append(".clone().ok_or(\"");
            r.append(m.field_name.as_str());
            r.append(" parameter is not set");
            r.append("\")?,\n");
        },
        FieldMode::Optional => {
            r.append(".clone(),\n");
        },
        FieldMode::Accumulating => {
            r.append(".clone().unwrap_or_default(),\n");
        },
    }
    proof {
        assert(r@ =~= spec_build_arm(m@));
    }
    r
}

/// Render one slot's factory line.
fn render_factory_arm(m: &SlotModel) -> (r: String)
    ensures
        r@ == spec_factory_arm(m@),
{
    let mut r = String::from_str("            ");
    r.append(m.field_name.as_str());
    r.append(": std::option::Option::None,\n");
    proof {
        assert(r@ =~= spec_factory_arm(m@));
    }
    r
}

/// Render the whole generated code unit for a builder model.
#[verifier::loop_isolation(false)]
#[verifier::rlimit(60)]
pub fn render_unit(m: &BuilderModel) -> (r: String)
    ensures
        r@ == spec_render_unit(m@),
{
    let ghost ms = m@.slots;
    let mut fields_txt = String::new();
    let mut methods_txt = String::new();
    let mut build_txt = String::new();
    let mut factory_txt = String::new();
    let mut i: usize = 0;
    proof {
        assert(ms.take(0) =~= Seq::<SpecSlotModel>::empty());
    }
    while i < m.slots.len()
        invariant
            0 <= i <= m.slots@.len(),
            fields_txt@ == spec_field_lines(ms.take(i as int)),
            methods_txt@ == spec_method_texts(ms.take(i as int)),
            build_txt@ == spec_build_arms(ms.take(i as int)),
            factory_txt@ == spec_factory_arms(ms.take(i as int)),
        decreases m.slots@.len() - i,
    {
        let s = &m.slots[i];
        proof {
            assert(ms[i as int] == s@);
            assert(ms.take(i + 1).drop_last() =~= ms.take(i as int));
            assert(ms.take(i + 1).last() == s@);
        }
        let line = render_field_line(s);
        fields_txt.append(line.as_str());
        let method = render_method(s);
        methods_txt.append(method.as_str());
        let arm = render_build_arm(s);
        build_txt.append(arm.as_str());
        let factory = render_factory_arm(s);
        factory_txt.append(factory.as_str());
        i = i + 1;
    }
    proof {
        assert(ms.take(m.slots@.len() as int) =~= ms);
    }
    let mut r = String::from_str("pub struct ");
    r.append(m.builder_name.as_str());
    r.append(" {\n");
    r.append(fields_txt.as_str());
    let ghost part1 = "pub struct "@ + m@.builder_name + " {\n"@ + spec_field_lines(ms);
    proof {
        assert(r@ =~= part1);
    }
    r.append("}\nimpl ");
    r.append(m.builder_name.as_str());
    r.append(" {\n");
    r.append(methods_txt.as_str());
    let ghost part2 = part1 + "}\nimpl "@ + m@.builder_name + " {\n"@ + spec_method_texts(ms);
    proof {
        assert(r@ =~= part2);
    }
    r.append("    pub fn build(&mut self) -> std::result::Result<");
    r.append(m.record_name.as_str());
    r.append(", std::boxed::Box<dyn std::error::Error>> {\n        std::result::Result::Ok(");
    r.append(m.record_name.as_str());
    r.append(" {\n");
    r.append(build_txt.as_str());
    let ghost part3 = part2 + "    pub fn build(&mut self) -> std::result::Result<"@
        + m@.record_name + ", std::boxed::Box<dyn std::error::Error>> {\n        std::result::Result::Ok("@
        + m@.record_name + " {\n"@ + spec_build_arms(ms);
    proof {
        assert(r@ =~= part3);
    }
    r.append("        })\n    }\n}\nimpl ");
    r.append(m.record_name.as_str());
    r.append(" {\n    pub fn builder() -> ");
    r.append(m.builder_name.as_str());
    r.append(" {\n        ");
    r.append(m.builder_name.as_str());
    r.append(" {\n");
    r.append(factory_txt.as_str());
    r.append("        }\n    }\n}\n");
    let ghost part4 = part3 + "        })\n    }\n}\nimpl "@ + m@.record_name
        + " {\n    pub fn builder() -> "@ + m@.builder_name + " {\n        "@ + m@.builder_name
        + " {\n"@ + spec_factory_arms(ms) + "        }\n    }\n}\n"@;
    proof {
        assert(r@ =~= part4);
        assert(part4 =~= spec_render_unit(m@));
    }
    r
}

} // verus!
