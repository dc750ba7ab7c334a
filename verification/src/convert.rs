//! Reading DEX instructions as the instruction records patches work with:
//! each operation maps to its opcode and record shape, registers widen to
//! 16 bits, and constant pool references are spelled out as text.

use vstd::prelude::*;
use crate::instruction::{
    Branch0Insn, Branch2Insn, BranchInsn, FieldRef, FieldRefView, FillArrayInsn, FilledArrayInsn, FilledArrayRangeInsn,
    Instruction, InstructionView, InvokeInsn, InvokeRangeInsn, MethodRef, MethodRefView, PackedSwitchInsn, Reg1Insn,
    Reg2Insn, Reg3Insn, RegFieldInsn, RegLiteralInsn, RegStringInsn, RegTypeInsn, SimpleInsn, SparseSwitchInsn,
};
use crate::text::{chars_of, decimal, decimal_chars, extend, string_of};

verus! {

/// A DEX instruction as decoded: the operation with its operands. Index
/// operands point into the file's constant pools.
#[derive(Debug, Clone, PartialEq)]
pub enum DexInsn {
    Nop,
    ReturnVoid,
    MoveResult { dest: u8 },
    MoveResultWide { dest: u8 },
    MoveResultObject { dest: u8 },
    MoveException { dest: u8 },
    Return { src: u8 },
    ReturnWide { src: u8 },
    ReturnObject { src: u8 },
    MonitorEnter { ref_: u8 },
    MonitorExit { ref_: u8 },
    Throw { exception: u8 },
    Move { dest: u8, src: u8 },
    MoveFrom16 { dest: u8, src: u16 },
    Move16 { dest: u16, src: u16 },
    MoveWide { dest: u8, src: u8 },
    MoveWideFrom16 { dest: u8, src: u16 },
    MoveWide16 { dest: u16, src: u16 },
    MoveObject { dest: u8, src: u8 },
    MoveObjectFrom16 { dest: u8, src: u16 },
    MoveObject16 { dest: u16, src: u16 },
    ArrayLength { dest: u8, array: u8 },
    NegInt { dest: u8, src: u8 },
    NotInt { dest: u8, src: u8 },
    NegLong { dest: u8, src: u8 },
    NotLong { dest: u8, src: u8 },
    NegFloat { dest: u8, src: u8 },
    NegDouble { dest: u8, src: u8 },
    IntToLong { dest: u8, src: u8 },
    IntToFloat { dest: u8, src: u8 },
    IntToDouble { dest: u8, src: u8 },
    LongToInt { dest: u8, src: u8 },
    LongToFloat { dest: u8, src: u8 },
    LongToDouble { dest: u8, src: u8 },
    FloatToInt { dest: u8, src: u8 },
    FloatToLong { dest: u8, src: u8 },
    FloatToDouble { dest: u8, src: u8 },
    DoubleToInt { dest: u8, src: u8 },
    DoubleToLong { dest: u8, src: u8 },
    DoubleToFloat { dest: u8, src: u8 },
    IntToByte { dest: u8, src: u8 },
    IntToChar { dest: u8, src: u8 },
    IntToShort { dest: u8, src: u8 },
    AddInt2Addr { dest_a: u8, b: u8 },
    SubInt2Addr { dest_a: u8, b: u8 },
    MulInt2Addr { dest_a: u8, b: u8 },
    DivInt2Addr { dest_a: u8, b: u8 },
    RemInt2Addr { dest_a: u8, b: u8 },
    AndInt2Addr { dest_a: u8, b: u8 },
    OrInt2Addr { dest_a: u8, b: u8 },
    XorInt2Addr { dest_a: u8, b: u8 },
    ShlInt2Addr { dest_a: u8, b: u8 },
    ShrInt2Addr { dest_a: u8, b: u8 },
    UshrInt2Addr { dest_a: u8, b: u8 },
    AddLong2Addr { dest_a: u8, b: u8 },
    SubLong2Addr { dest_a: u8, b: u8 },
    MulLong2Addr { dest_a: u8, b: u8 },
    DivLong2Addr { dest_a: u8, b: u8 },
    RemLong2Addr { dest_a: u8, b: u8 },
    AndLong2Addr { dest_a: u8, b: u8 },
    OrLong2Addr { dest_a: u8, b: u8 },
    XorLong2Addr { dest_a: u8, b: u8 },
    ShlLong2Addr { dest_a: u8, b: u8 },
    ShrLong2Addr { dest_a: u8, b: u8 },
    UshrLong2Addr { dest_a: u8, b: u8 },
    AddFloat2Addr { dest_a: u8, b: u8 },
    SubFloat2Addr { dest_a: u8, b: u8 },
    MulFloat2Addr { dest_a: u8, b: u8 },
    DivFloat2Addr { dest_a: u8, b: u8 },
    RemFloat2Addr { dest_a: u8, b: u8 },
    AddDouble2Addr { dest_a: u8, b: u8 },
    SubDouble2Addr { dest_a: u8, b: u8 },
    MulDouble2Addr { dest_a: u8, b: u8 },
    DivDouble2Addr { dest_a: u8, b: u8 },
    RemDouble2Addr { dest_a: u8, b: u8 },
    CmpLFloat { dest: u8, a: u8, b: u8 },
    CmpGFloat { dest: u8, a: u8, b: u8 },
    CmpLDouble { dest: u8, a: u8, b: u8 },
    CmpGDouble { dest: u8, a: u8, b: u8 },
    CmpLong { dest: u8, a: u8, b: u8 },
    Aget { dest: u8, array: u8, index: u8 },
    AgetWide { dest: u8, array: u8, index: u8 },
    AgetObject { dest: u8, array: u8, index: u8 },
    AgetBoolean { dest: u8, array: u8, index: u8 },
    AgetByte { dest: u8, array: u8, index: u8 },
    AgetChar { dest: u8, array: u8, index: u8 },
    AgetShort { dest: u8, array: u8, index: u8 },
    Aput { src: u8, array: u8, index: u8 },
    AputWide { src: u8, array: u8, index: u8 },
    AputObject { src: u8, array: u8, index: u8 },
    AputBoolean { src: u8, array: u8, index: u8 },
    AputByte { src: u8, array: u8, index: u8 },
    AputChar { src: u8, array: u8, index: u8 },
    AputShort { src: u8, array: u8, index: u8 },
    AddInt { dest: u8, a: u8, b: u8 },
    SubInt { dest: u8, a: u8, b: u8 },
    MulInt { dest: u8, a: u8, b: u8 },
    DivInt { dest: u8, a: u8, b: u8 },
    RemInt { dest: u8, a: u8, b: u8 },
    AndInt { dest: u8, a: u8, b: u8 },
    OrInt { dest: u8, a: u8, b: u8 },
    XorInt { dest: u8, a: u8, b: u8 },
    ShlInt { dest: u8, a: u8, b: u8 },
    ShrInt { dest: u8, a: u8, b: u8 },
    UshrInt { dest: u8, a: u8, b: u8 },
    AddLong { dest: u8, a: u8, b: u8 },
    SubLong { dest: u8, a: u8, b: u8 },
    MulLong { dest: u8, a: u8, b: u8 },
    DivLong { dest: u8, a: u8, b: u8 },
    RemLong { dest: u8, a: u8, b: u8 },
    AndLong { dest: u8, a: u8, b: u8 },
    OrLong { dest: u8, a: u8, b: u8 },
    XorLong { dest: u8, a: u8, b: u8 },
    ShlLong { dest: u8, a: u8, b: u8 },
    ShrLong { dest: u8, a: u8, b: u8 },
    UshrLong { dest: u8, a: u8, b: u8 },
    AddFloat { dest: u8, a: u8, b: u8 },
    SubFloat { dest: u8, a: u8, b: u8 },
    MulFloat { dest: u8, a: u8, b: u8 },
    DivFloat { dest: u8, a: u8, b: u8 },
    RemFloat { dest: u8, a: u8, b: u8 },
    AddDouble { dest: u8, a: u8, b: u8 },
    SubDouble { dest: u8, a: u8, b: u8 },
    MulDouble { dest: u8, a: u8, b: u8 },
    DivDouble { dest: u8, a: u8, b: u8 },
    RemDouble { dest: u8, a: u8, b: u8 },
    Const4 { dest: u8, value: i8 },
    Const16 { dest: u8, value: i16 },
    Const { dest: u8, value: i32 },
    ConstHigh16 { dest: u8, value: i16 },
    ConstWide16 { dest: u8, value: i16 },
    ConstWide32 { dest: u8, value: i32 },
    ConstWide { dest: u8, value: i64 },
    ConstWideHigh16 { dest: u8, value: i16 },
    AddIntLit16 { dest: u8, src: u8, literal: i16 },
    RsubIntLit16 { dest: u8, src: u8, literal: i16 },
    MulIntLit16 { dest: u8, src: u8, literal: i16 },
    DivIntLit16 { dest: u8, src: u8, literal: i16 },
    RemIntLit16 { dest: u8, src: u8, literal: i16 },
    AndIntLit16 { dest: u8, src: u8, literal: i16 },
    OrIntLit16 { dest: u8, src: u8, literal: i16 },
    XorIntLit16 { dest: u8, src: u8, literal: i16 },
    AddIntLit8 { dest: u8, src: u8, literal: i8 },
    RsubIntLit8 { dest: u8, src: u8, literal: i8 },
    MulIntLit8 { dest: u8, src: u8, literal: i8 },
    DivIntLit8 { dest: u8, src: u8, literal: i8 },
    RemIntLit8 { dest: u8, src: u8, literal: i8 },
    AndIntLit8 { dest: u8, src: u8, literal: i8 },
    OrIntLit8 { dest: u8, src: u8, literal: i8 },
    XorIntLit8 { dest: u8, src: u8, literal: i8 },
    ShlIntLit8 { dest: u8, src: u8, literal: i8 },
    ShrIntLit8 { dest: u8, src: u8, literal: i8 },
    UshrIntLit8 { dest: u8, src: u8, literal: i8 },
    ConstString { dest: u8, string: u32 },
    ConstStringJumbo { dest: u8, string: u32 },
    ConstClass { dest: u8, type_: u32 },
    CheckCast { ref_: u8, type_: u32 },
    InstanceOf { dest: u8, ref_: u8, type_: u32 },
    NewInstance { dest: u8, type_: u32 },
    NewArray { dest: u8, size: u8, type_: u32 },
    Iget { dest: u8, obj: u8, field: u32 },
    IgetWide { dest: u8, obj: u8, field: u32 },
    IgetObject { dest: u8, obj: u8, field: u32 },
    IgetBoolean { dest: u8, obj: u8, field: u32 },
    IgetByte { dest: u8, obj: u8, field: u32 },
    IgetChar { dest: u8, obj: u8, field: u32 },
    IgetShort { dest: u8, obj: u8, field: u32 },
    Iput { src: u8, obj: u8, field: u32 },
    IputWide { src: u8, obj: u8, field: u32 },
    IputObject { src: u8, obj: u8, field: u32 },
    IputBoolean { src: u8, obj: u8, field: u32 },
    IputByte { src: u8, obj: u8, field: u32 },
    IputChar { src: u8, obj: u8, field: u32 },
    IputShort { src: u8, obj: u8, field: u32 },
    Sget { dest: u8, field: u32 },
    SgetWide { dest: u8, field: u32 },
    SgetObject { dest: u8, field: u32 },
    SgetBoolean { dest: u8, field: u32 },
    SgetByte { dest: u8, field: u32 },
    SgetChar { dest: u8, field: u32 },
    SgetShort { dest: u8, field: u32 },
    Sput { src: u8, field: u32 },
    SputWide { src: u8, field: u32 },
    SputObject { src: u8, field: u32 },
    SputBoolean { src: u8, field: u32 },
    SputByte { src: u8, field: u32 },
    SputChar { src: u8, field: u32 },
    SputShort { src: u8, field: u32 },
    InvokeVirtual { method: u32, args: Vec<u8> },
    InvokeSuper { method: u32, args: Vec<u8> },
    InvokeDirect { method: u32, args: Vec<u8> },
    InvokeStatic { method: u32, args: Vec<u8> },
    InvokeInterface { method: u32, args: Vec<u8> },
    InvokePolymorphic { method: u32, proto: u16, args: Vec<u8> },
    InvokeCustom { call_site: u32, args: Vec<u8> },
    InvokeVirtualRange { method: u32, first_reg: u16, count: u8 },
    InvokeSuperRange { method: u32, first_reg: u16, count: u8 },
    InvokeDirectRange { method: u32, first_reg: u16, count: u8 },
    InvokeStaticRange { method: u32, first_reg: u16, count: u8 },
    InvokeInterfaceRange { method: u32, first_reg: u16, count: u8 },
    InvokePolymorphicRange { method: u32, proto: u16, first_reg: u16, count: u8 },
    InvokeCustomRange { call_site: u32, first_reg: u16, count: u8 },
    ConstMethodHandle { dest: u8, method_handle: u32 },
    ConstMethodType { dest: u8, proto: u16 },
    Goto { offset: i8 },
    Goto16 { offset: i16 },
    Goto32 { offset: i32 },
    IfEqz { a: u8, offset: i16 },
    IfNez { a: u8, offset: i16 },
    IfLtz { a: u8, offset: i16 },
    IfGez { a: u8, offset: i16 },
    IfGtz { a: u8, offset: i16 },
    IfLez { a: u8, offset: i16 },
    PackedSwitch { test: u8, payload_offset: i32 },
    SparseSwitch { test: u8, payload_offset: i32 },
    FillArrayData { array: u8, payload_offset: i32 },
    IfEq { a: u8, b: u8, offset: i16 },
    IfNe { a: u8, b: u8, offset: i16 },
    IfLt { a: u8, b: u8, offset: i16 },
    IfGe { a: u8, b: u8, offset: i16 },
    IfGt { a: u8, b: u8, offset: i16 },
    IfLe { a: u8, b: u8, offset: i16 },
    FilledNewArray { type_: u32, args: Vec<u8> },
    FilledNewArrayRange { type_: u32, first_reg: u16, count: u8 },
    PackedSwitchPayload { first_key: i32, targets: Vec<i32> },
    SparseSwitchPayload { keys_and_targets: Vec<(i32, i32)> },
    FillArrayDataPayload { element_width: u16, data: Vec<u8> },
    RawInstruction { code_units: Vec<u16> },
}

/// A prototype: its return type and parameter types, as type indices.
pub struct ProtoId {
    pub return_type: u32,
    pub parameters: Vec<u32>,
}

/// A field: its class, name and type, as type and string indices.
pub struct FieldId {
    pub class: u32,
    pub name: u32,
    pub field_type: u32,
}

/// A method: its class, name and prototype, as type, string and
/// prototype indices.
pub struct MethodId {
    pub class: u32,
    pub name: u32,
    pub proto: u16,
}

/// The constant pools of a DEX file that instructions refer into: strings,
/// types (each the index of its descriptor string), prototypes, fields and
/// methods.
pub struct DexPools {
    pub strings: Vec<String>,
    pub types: Vec<u32>,
    pub protos: Vec<ProtoId>,
    pub fields: Vec<FieldId>,
    pub methods: Vec<MethodId>,
}

/// What the pools hold.
pub struct PoolsView {
    pub strings: Seq<Seq<char>>,
    pub types: Seq<u32>,
    pub protos: Seq<(u32, Seq<u32>)>,
    pub fields: Seq<(u32, u32, u32)>,
    pub methods: Seq<(u32, u32, u16)>,
}

impl View for DexPools {
    type V = PoolsView;

    open spec fn view(&self) -> PoolsView {
        PoolsView {
            strings: self.strings@.map_values(|s: String| s@),
            types: self.types@,
            protos: self.protos@.map_values(|p: ProtoId| (p.return_type, p.parameters@)),
            fields: self.fields@.map_values(|f: FieldId| (f.class, f.name, f.field_type)),
            methods: self.methods@.map_values(|m: MethodId| (m.class, m.name, m.proto)),
        }
    }
}

/// Every index a pool entry holds points into the pool it names.
pub open spec fn pools_wf(p: PoolsView) -> bool {
    &&& forall|t: int| 0 <= t < p.types.len() ==> (#[trigger] p.types[t]) < p.strings.len()
    &&& forall|q: int| 0 <= q < p.protos.len() ==> (#[trigger] p.protos[q]).0 < p.types.len()
    &&& forall|q: int, k: int| 0 <= q < p.protos.len() && 0 <= k < p.protos[q].1.len() ==> (#[trigger] p.protos[q].1[k]) < p.types.len()
    &&& forall|f: int| 0 <= f < p.fields.len() ==> (#[trigger] p.fields[f]).0 < p.types.len() && p.fields[f].1 < p.strings.len() && p.fields[f].2 < p.types.len()
    &&& forall|m: int| 0 <= m < p.methods.len() ==> (#[trigger] p.methods[m]).0 < p.types.len() && p.methods[m].1 < p.strings.len() && (p.methods[m].2 as int) < p.protos.len()
}

/// The descriptor of type `t`.
pub open spec fn type_desc(p: PoolsView, t: u32) -> Seq<char> {
    p.strings[p.types[t as int] as int]
}

/// The descriptors of `types`, one after another.
pub open spec fn descs_text(p: PoolsView, types: Seq<u32>) -> Seq<char>
    decreases types.len(),
{
    if types.len() == 0 {
        Seq::empty()
    } else {
        descs_text(p, types.drop_last()) + type_desc(p, types.last())
    }
}

/// A prototype written out: `(` parameter descriptors `)` return descriptor.
pub open spec fn proto_text(p: PoolsView, q: u16) -> Seq<char> {
    "("@ + descs_text(p, p.protos[q as int].1) + ")"@ + type_desc(p, p.protos[q as int].0)
}

/// Method `m` spelled out.
pub open spec fn method_ref_of(p: PoolsView, m: u32) -> MethodRefView {
    MethodRefView {
        defining_class: type_desc(p, p.methods[m as int].0),
        name: p.strings[p.methods[m as int].1 as int],
        proto: proto_text(p, p.methods[m as int].2),
    }
}

/// Field `f` spelled out.
pub open spec fn field_ref_of(p: PoolsView, f: u32) -> FieldRefView {
    FieldRefView {
        defining_class: type_desc(p, p.fields[f as int].0),
        name: p.strings[p.fields[f as int].1 as int],
        field_type: type_desc(p, p.fields[f as int].2),
    }
}

/// The method a call site stands for: no class or prototype, and the name
/// `call_site_` with the site's index.
pub open spec fn call_site_ref_of(c: u32) -> MethodRefView {
    MethodRefView { defining_class: Seq::empty(), name: "call_site_"@ + decimal(c as nat), proto: Seq::empty() }
}

/// Code units as little-endian bytes.
pub open spec fn le_bytes(units: Seq<u16>) -> Seq<u8>
    decreases units.len(),
{
    if units.len() == 0 {
        Seq::empty()
    } else {
        le_bytes(units.drop_last()) + seq![(units.last() % 256) as u8, (units.last() / 256) as u8]
    }
}

/// Every pool reference `insn` makes points into the pools.
pub open spec fn refs_in(insn: DexInsn, p: PoolsView) -> bool {
    match insn {
        DexInsn::ConstString { dest, string } => string < p.strings.len(),
        DexInsn::ConstStringJumbo { dest, string } => string < p.strings.len(),
        DexInsn::ConstClass { dest, type_ } => type_ < p.types.len(),
        DexInsn::CheckCast { ref_, type_ } => type_ < p.types.len(),
        DexInsn::InstanceOf { dest, ref_, type_ } => type_ < p.types.len(),
        DexInsn::NewInstance { dest, type_ } => type_ < p.types.len(),
        DexInsn::NewArray { dest, size, type_ } => type_ < p.types.len(),
        DexInsn::Iget { dest, obj, field } => field < p.fields.len(),
        DexInsn::IgetWide { dest, obj, field } => field < p.fields.len(),
        DexInsn::IgetObject { dest, obj, field } => field < p.fields.len(),
        DexInsn::IgetBoolean { dest, obj, field } => field < p.fields.len(),
        DexInsn::IgetByte { dest, obj, field } => field < p.fields.len(),
        DexInsn::IgetChar { dest, obj, field } => field < p.fields.len(),
        DexInsn::IgetShort { dest, obj, field } => field < p.fields.len(),
        DexInsn::Iput { src, obj, field } => field < p.fields.len(),
        DexInsn::IputWide { src, obj, field } => field < p.fields.len(),
        DexInsn::IputObject { src, obj, field } => field < p.fields.len(),
        DexInsn::IputBoolean { src, obj, field } => field < p.fields.len(),
        DexInsn::IputByte { src, obj, field } => field < p.fields.len(),
        DexInsn::IputChar { src, obj, field } => field < p.fields.len(),
        DexInsn::IputShort { src, obj, field } => field < p.fields.len(),
        DexInsn::Sget { dest, field } => field < p.fields.len(),
        DexInsn::SgetWide { dest, field } => field < p.fields.len(),
        DexInsn::SgetObject { dest, field } => field < p.fields.len(),
        DexInsn::SgetBoolean { dest, field } => field < p.fields.len(),
        DexInsn::SgetByte { dest, field } => field < p.fields.len(),
        DexInsn::SgetChar { dest, field } => field < p.fields.len(),
        DexInsn::SgetShort { dest, field } => field < p.fields.len(),
        DexInsn::Sput { src, field } => field < p.fields.len(),
        DexInsn::SputWide { src, field } => field < p.fields.len(),
        DexInsn::SputObject { src, field } => field < p.fields.len(),
        DexInsn::SputBoolean { src, field } => field < p.fields.len(),
        DexInsn::SputByte { src, field } => field < p.fields.len(),
        DexInsn::SputChar { src, field } => field < p.fields.len(),
        DexInsn::SputShort { src, field } => field < p.fields.len(),
        DexInsn::InvokeVirtual { method, args } => method < p.methods.len(),
        DexInsn::InvokeSuper { method, args } => method < p.methods.len(),
        DexInsn::InvokeDirect { method, args } => method < p.methods.len(),
        DexInsn::InvokeStatic { method, args } => method < p.methods.len(),
        DexInsn::InvokeInterface { method, args } => method < p.methods.len(),
        DexInsn::InvokePolymorphic { method, proto: _, args } => method < p.methods.len(),
        DexInsn::InvokeVirtualRange { method, first_reg, count } => method < p.methods.len(),
        DexInsn::InvokeSuperRange { method, first_reg, count } => method < p.methods.len(),
        DexInsn::InvokeDirectRange { method, first_reg, count } => method < p.methods.len(),
        DexInsn::InvokeStaticRange { method, first_reg, count } => method < p.methods.len(),
        DexInsn::InvokeInterfaceRange { method, first_reg, count } => method < p.methods.len(),
        DexInsn::InvokePolymorphicRange { method, proto: _, first_reg, count } => method < p.methods.len(),
        DexInsn::FilledNewArray { type_, args } => type_ < p.types.len(),
        DexInsn::FilledNewArrayRange { type_, first_reg, count } => type_ < p.types.len(),
        _ => true,
    }
}

/// The record an instruction reads as, given the pools it refers into.
pub open spec fn kotlin_of(insn: DexInsn, p: PoolsView) -> InstructionView {
    match insn {
        DexInsn::Nop => InstructionView::Simple { opcode: 0x00 },
        DexInsn::ReturnVoid => InstructionView::Simple { opcode: 0x0e },
        DexInsn::MoveResult { dest } => InstructionView::Reg1 { opcode: 0x0a, reg_a: dest as u16 },
        DexInsn::MoveResultWide { dest } => InstructionView::Reg1 { opcode: 0x0b, reg_a: dest as u16 },
        DexInsn::MoveResultObject { dest } => InstructionView::Reg1 { opcode: 0x0c, reg_a: dest as u16 },
        DexInsn::MoveException { dest } => InstructionView::Reg1 { opcode: 0x0d, reg_a: dest as u16 },
        DexInsn::Return { src } => InstructionView::Reg1 { opcode: 0x0f, reg_a: src as u16 },
        DexInsn::ReturnWide { src } => InstructionView::Reg1 { opcode: 0x10, reg_a: src as u16 },
        DexInsn::ReturnObject { src } => InstructionView::Reg1 { opcode: 0x11, reg_a: src as u16 },
        DexInsn::MonitorEnter { ref_ } => InstructionView::Reg1 { opcode: 0x1d, reg_a: ref_ as u16 },
        DexInsn::MonitorExit { ref_ } => InstructionView::Reg1 { opcode: 0x1e, reg_a: ref_ as u16 },
        DexInsn::Throw { exception } => InstructionView::Reg1 { opcode: 0x27, reg_a: exception as u16 },
        DexInsn::Move { dest, src } => InstructionView::Reg2 { opcode: 0x01, reg_a: dest as u16, reg_b: src as u16 },
        DexInsn::MoveFrom16 { dest, src } => InstructionView::Reg2 { opcode: 0x02, reg_a: dest as u16, reg_b: src },
        DexInsn::Move16 { dest, src } => InstructionView::Reg2 { opcode: 0x03, reg_a: dest, reg_b: src },
        DexInsn::MoveWide { dest, src } => InstructionView::Reg2 { opcode: 0x04, reg_a: dest as u16, reg_b: src as u16 },
        DexInsn::MoveWideFrom16 { dest, src } => InstructionView::Reg2 { opcode: 0x05, reg_a: dest as u16, reg_b: src },
        DexInsn::MoveWide16 { dest, src } => InstructionView::Reg2 { opcode: 0x06, reg_a: dest, reg_b: src },
        DexInsn::MoveObject { dest, src } => InstructionView::Reg2 { opcode: 0x07, reg_a: dest as u16, reg_b: src as u16 },
        DexInsn::MoveObjectFrom16 { dest, src } => InstructionView::Reg2 { opcode: 0x08, reg_a: dest as u16, reg_b: src },
        DexInsn::MoveObject16 { dest, src } => InstructionView::Reg2 { opcode: 0x09, reg_a: dest, reg_b: src },
        DexInsn::ArrayLength { dest, array } => InstructionView::Reg2 { opcode: 0x21, reg_a: dest as u16, reg_b: array as u16 },
        DexInsn::NegInt { dest, src } => InstructionView::Reg2 { opcode: 0x7b, reg_a: dest as u16, reg_b: src as u16 },
        DexInsn::NotInt { dest, src } => InstructionView::Reg2 { opcode: 0x7c, reg_a: dest as u16, reg_b: src as u16 },
        DexInsn::NegLong { dest, src } => InstructionView::Reg2 { opcode: 0x7d, reg_a: dest as u16, reg_b: src as u16 },
        DexInsn::NotLong { dest, src } => InstructionView::Reg2 { opcode: 0x7e, reg_a: dest as u16, reg_b: src as u16 },
        DexInsn::NegFloat { dest, src } => InstructionView::Reg2 { opcode: 0x7f, reg_a: dest as u16, reg_b: src as u16 },
        DexInsn::NegDouble { dest, src } => InstructionView::Reg2 { opcode: 0x80, reg_a: dest as u16, reg_b: src as u16 },
        DexInsn::IntToLong { dest, src } => InstructionView::Reg2 { opcode: 0x81, reg_a: dest as u16, reg_b: src as u16 },
        DexInsn::IntToFloat { dest, src } => InstructionView::Reg2 { opcode: 0x82, reg_a: dest as u16, reg_b: src as u16 },
        DexInsn::IntToDouble { dest, src } => InstructionView::Reg2 { opcode: 0x83, reg_a: dest as u16, reg_b: src as u16 },
        DexInsn::LongToInt { dest, src } => InstructionView::Reg2 { opcode: 0x84, reg_a: dest as u16, reg_b: src as u16 },
        DexInsn::LongToFloat { dest, src } => InstructionView::Reg2 { opcode: 0x85, reg_a: dest as u16, reg_b: src as u16 },
        DexInsn::LongToDouble { dest, src } => InstructionView::Reg2 { opcode: 0x86, reg_a: dest as u16, reg_b: src as u16 },
        DexInsn::FloatToInt { dest, src } => InstructionView::Reg2 { opcode: 0x87, reg_a: dest as u16, reg_b: src as u16 },
        DexInsn::FloatToLong { dest, src } => InstructionView::Reg2 { opcode: 0x88, reg_a: dest as u16, reg_b: src as u16 },
        DexInsn::FloatToDouble { dest, src } => InstructionView::Reg2 { opcode: 0x89, reg_a: dest as u16, reg_b: src as u16 },
        DexInsn::DoubleToInt { dest, src } => InstructionView::Reg2 { opcode: 0x8a, reg_a: dest as u16, reg_b: src as u16 },
        DexInsn::DoubleToLong { dest, src } => InstructionView::Reg2 { opcode: 0x8b, reg_a: dest as u16, reg_b: src as u16 },
        DexInsn::DoubleToFloat { dest, src } => InstructionView::Reg2 { opcode: 0x8c, reg_a: dest as u16, reg_b: src as u16 },
        DexInsn::IntToByte { dest, src } => InstructionView::Reg2 { opcode: 0x8d, reg_a: dest as u16, reg_b: src as u16 },
        DexInsn::IntToChar { dest, src } => InstructionView::Reg2 { opcode: 0x8e, reg_a: dest as u16, reg_b: src as u16 },
        DexInsn::IntToShort { dest, src } => InstructionView::Reg2 { opcode: 0x8f, reg_a: dest as u16, reg_b: src as u16 },
        DexInsn::AddInt2Addr { dest_a, b } => InstructionView::Reg2 { opcode: 0xb0, reg_a: dest_a as u16, reg_b: b as u16 },
        DexInsn::SubInt2Addr { dest_a, b } => InstructionView::Reg2 { opcode: 0xb1, reg_a: dest_a as u16, reg_b: b as u16 },
        DexInsn::MulInt2Addr { dest_a, b } => InstructionView::Reg2 { opcode: 0xb2, reg_a: dest_a as u16, reg_b: b as u16 },
        DexInsn::DivInt2Addr { dest_a, b } => InstructionView::Reg2 { opcode: 0xb3, reg_a: dest_a as u16, reg_b: b as u16 },
        DexInsn::RemInt2Addr { dest_a, b } => InstructionView::Reg2 { opcode: 0xb4, reg_a: dest_a as u16, reg_b: b as u16 },
        DexInsn::AndInt2Addr { dest_a, b } => InstructionView::Reg2 { opcode: 0xb5, reg_a: dest_a as u16, reg_b: b as u16 },
        DexInsn::OrInt2Addr { dest_a, b } => InstructionView::Reg2 { opcode: 0xb6, reg_a: dest_a as u16, reg_b: b as u16 },
        DexInsn::XorInt2Addr { dest_a, b } => InstructionView::Reg2 { opcode: 0xb7, reg_a: dest_a as u16, reg_b: b as u16 },
        DexInsn::ShlInt2Addr { dest_a, b } => InstructionView::Reg2 { opcode: 0xb8, reg_a: dest_a as u16, reg_b: b as u16 },
        DexInsn::ShrInt2Addr { dest_a, b } => InstructionView::Reg2 { opcode: 0xb9, reg_a: dest_a as u16, reg_b: b as u16 },
        DexInsn::UshrInt2Addr { dest_a, b } => InstructionView::Reg2 { opcode: 0xba, reg_a: dest_a as u16, reg_b: b as u16 },
        DexInsn::AddLong2Addr { dest_a, b } => InstructionView::Reg2 { opcode: 0xbb, reg_a: dest_a as u16, reg_b: b as u16 },
        DexInsn::SubLong2Addr { dest_a, b } => InstructionView::Reg2 { opcode: 0xbc, reg_a: dest_a as u16, reg_b: b as u16 },
        DexInsn::MulLong2Addr { dest_a, b } => InstructionView::Reg2 { opcode: 0xbd, reg_a: dest_a as u16, reg_b: b as u16 },
        DexInsn::DivLong2Addr { dest_a, b } => InstructionView::Reg2 { opcode: 0xbe, reg_a: dest_a as u16, reg_b: b as u16 },
        DexInsn::RemLong2Addr { dest_a, b } => InstructionView::Reg2 { opcode: 0xbf, reg_a: dest_a as u16, reg_b: b as u16 },
        DexInsn::AndLong2Addr { dest_a, b } => InstructionView::Reg2 { opcode: 0xc0, reg_a: dest_a as u16, reg_b: b as u16 },
        DexInsn::OrLong2Addr { dest_a, b } => InstructionView::Reg2 { opcode: 0xc1, reg_a: dest_a as u16, reg_b: b as u16 },
        DexInsn::XorLong2Addr { dest_a, b } => InstructionView::Reg2 { opcode: 0xc2, reg_a: dest_a as u16, reg_b: b as u16 },
        DexInsn::ShlLong2Addr { dest_a, b } => InstructionView::Reg2 { opcode: 0xc3, reg_a: dest_a as u16, reg_b: b as u16 },
        DexInsn::ShrLong2Addr { dest_a, b } => InstructionView::Reg2 { opcode: 0xc4, reg_a: dest_a as u16, reg_b: b as u16 },
        DexInsn::UshrLong2Addr { dest_a, b } => InstructionView::Reg2 { opcode: 0xc5, reg_a: dest_a as u16, reg_b: b as u16 },
        DexInsn::AddFloat2Addr { dest_a, b } => InstructionView::Reg2 { opcode: 0xc6, reg_a: dest_a as u16, reg_b: b as u16 },
        DexInsn::SubFloat2Addr { dest_a, b } => InstructionView::Reg2 { opcode: 0xc7, reg_a: dest_a as u16, reg_b: b as u16 },
        DexInsn::MulFloat2Addr { dest_a, b } => InstructionView::Reg2 { opcode: 0xc8, reg_a: dest_a as u16, reg_b: b as u16 },
        DexInsn::DivFloat2Addr { dest_a, b } => InstructionView::Reg2 { opcode: 0xc9, reg_a: dest_a as u16, reg_b: b as u16 },
        DexInsn::RemFloat2Addr { dest_a, b } => InstructionView::Reg2 { opcode: 0xca, reg_a: dest_a as u16, reg_b: b as u16 },
        DexInsn::AddDouble2Addr { dest_a, b } => InstructionView::Reg2 { opcode: 0xcb, reg_a: dest_a as u16, reg_b: b as u16 },
        DexInsn::SubDouble2Addr { dest_a, b } => InstructionView::Reg2 { opcode: 0xcc, reg_a: dest_a as u16, reg_b: b as u16 },
        DexInsn::MulDouble2Addr { dest_a, b } => InstructionView::Reg2 { opcode: 0xcd, reg_a: dest_a as u16, reg_b: b as u16 },
        DexInsn::DivDouble2Addr { dest_a, b } => InstructionView::Reg2 { opcode: 0xce, reg_a: dest_a as u16, reg_b: b as u16 },
        DexInsn::RemDouble2Addr { dest_a, b } => InstructionView::Reg2 { opcode: 0xcf, reg_a: dest_a as u16, reg_b: b as u16 },
        DexInsn::CmpLFloat { dest, a, b } => InstructionView::Reg3 { opcode: 0x2d, reg_a: dest as u16, reg_b: a as u16, reg_c: b as u16 },
        DexInsn::CmpGFloat { dest, a, b } => InstructionView::Reg3 { opcode: 0x2e, reg_a: dest as u16, reg_b: a as u16, reg_c: b as u16 },
        DexInsn::CmpLDouble { dest, a, b } => InstructionView::Reg3 { opcode: 0x2f, reg_a: dest as u16, reg_b: a as u16, reg_c: b as u16 },
        DexInsn::CmpGDouble { dest, a, b } => InstructionView::Reg3 { opcode: 0x30, reg_a: dest as u16, reg_b: a as u16, reg_c: b as u16 },
        DexInsn::CmpLong { dest, a, b } => InstructionView::Reg3 { opcode: 0x31, reg_a: dest as u16, reg_b: a as u16, reg_c: b as u16 },
        DexInsn::Aget { dest, array, index } => InstructionView::Reg3 { opcode: 0x44, reg_a: dest as u16, reg_b: array as u16, reg_c: index as u16 },
        DexInsn::AgetWide { dest, array, index } => InstructionView::Reg3 { opcode: 0x45, reg_a: dest as u16, reg_b: array as u16, reg_c: index as u16 },
        DexInsn::AgetObject { dest, array, index } => InstructionView::Reg3 { opcode: 0x46, reg_a: dest as u16, reg_b: array as u16, reg_c: index as u16 },
        DexInsn::AgetBoolean { dest, array, index } => InstructionView::Reg3 { opcode: 0x47, reg_a: dest as u16, reg_b: array as u16, reg_c: index as u16 },
        DexInsn::AgetByte { dest, array, index } => InstructionView::Reg3 { opcode: 0x48, reg_a: dest as u16, reg_b: array as u16, reg_c: index as u16 },
        DexInsn::AgetChar { dest, array, index } => InstructionView::Reg3 { opcode: 0x49, reg_a: dest as u16, reg_b: array as u16, reg_c: index as u16 },
        DexInsn::AgetShort { dest, array, index } => InstructionView::Reg3 { opcode: 0x4a, reg_a: dest as u16, reg_b: array as u16, reg_c: index as u16 },
        DexInsn::Aput { src, array, index } => InstructionView::Reg3 { opcode: 0x4b, reg_a: src as u16, reg_b: array as u16, reg_c: index as u16 },
        DexInsn::AputWide { src, array, index } => InstructionView::Reg3 { opcode: 0x4c, reg_a: src as u16, reg_b: array as u16, reg_c: index as u16 },
        DexInsn::AputObject { src, array, index } => InstructionView::Reg3 { opcode: 0x4d, reg_a: src as u16, reg_b: array as u16, reg_c: index as u16 },
        DexInsn::AputBoolean { src, array, index } => InstructionView::Reg3 { opcode: 0x4e, reg_a: src as u16, reg_b: array as u16, reg_c: index as u16 },
        DexInsn::AputByte { src, array, index } => InstructionView::Reg3 { opcode: 0x4f, reg_a: src as u16, reg_b: array as u16, reg_c: index as u16 },
        DexInsn::AputChar { src, array, index } => InstructionView::Reg3 { opcode: 0x50, reg_a: src as u16, reg_b: array as u16, reg_c: index as u16 },
        DexInsn::AputShort { src, array, index } => InstructionView::Reg3 { opcode: 0x51, reg_a: src as u16, reg_b: array as u16, reg_c: index as u16 },
        DexInsn::AddInt { dest, a, b } => InstructionView::Reg3 { opcode: 0x90, reg_a: dest as u16, reg_b: a as u16, reg_c: b as u16 },
        DexInsn::SubInt { dest, a, b } => InstructionView::Reg3 { opcode: 0x91, reg_a: dest as u16, reg_b: a as u16, reg_c: b as u16 },
        DexInsn::MulInt { dest, a, b } => InstructionView::Reg3 { opcode: 0x92, reg_a: dest as u16, reg_b: a as u16, reg_c: b as u16 },
        DexInsn::DivInt { dest, a, b } => InstructionView::Reg3 { opcode: 0x93, reg_a: dest as u16, reg_b: a as u16, reg_c: b as u16 },
        DexInsn::RemInt { dest, a, b } => InstructionView::Reg3 { opcode: 0x94, reg_a: dest as u16, reg_b: a as u16, reg_c: b as u16 },
        DexInsn::AndInt { dest, a, b } => InstructionView::Reg3 { opcode: 0x95, reg_a: dest as u16, reg_b: a as u16, reg_c: b as u16 },
        DexInsn::OrInt { dest, a, b } => InstructionView::Reg3 { opcode: 0x96, reg_a: dest as u16, reg_b: a as u16, reg_c: b as u16 },
        DexInsn::XorInt { dest, a, b } => InstructionView::Reg3 { opcode: 0x97, reg_a: dest as u16, reg_b: a as u16, reg_c: b as u16 },
        DexInsn::ShlInt { dest, a, b } => InstructionView::Reg3 { opcode: 0x98, reg_a: dest as u16, reg_b: a as u16, reg_c: b as u16 },
        DexInsn::ShrInt { dest, a, b } => InstructionView::Reg3 { opcode: 0x99, reg_a: dest as u16, reg_b: a as u16, reg_c: b as u16 },
        DexInsn::UshrInt { dest, a, b } => InstructionView::Reg3 { opcode: 0x9a, reg_a: dest as u16, reg_b: a as u16, reg_c: b as u16 },
        DexInsn::AddLong { dest, a, b } => InstructionView::Reg3 { opcode: 0x9b, reg_a: dest as u16, reg_b: a as u16, reg_c: b as u16 },
        DexInsn::SubLong { dest, a, b } => InstructionView::Reg3 { opcode: 0x9c, reg_a: dest as u16, reg_b: a as u16, reg_c: b as u16 },
        DexInsn::MulLong { dest, a, b } => InstructionView::Reg3 { opcode: 0x9d, reg_a: dest as u16, reg_b: a as u16, reg_c: b as u16 },
        DexInsn::DivLong { dest, a, b } => InstructionView::Reg3 { opcode: 0x9e, reg_a: dest as u16, reg_b: a as u16, reg_c: b as u16 },
        DexInsn::RemLong { dest, a, b } => InstructionView::Reg3 { opcode: 0x9f, reg_a: dest as u16, reg_b: a as u16, reg_c: b as u16 },
        DexInsn::AndLong { dest, a, b } => InstructionView::Reg3 { opcode: 0xa0, reg_a: dest as u16, reg_b: a as u16, reg_c: b as u16 },
        DexInsn::OrLong { dest, a, b } => InstructionView::Reg3 { opcode: 0xa1, reg_a: dest as u16, reg_b: a as u16, reg_c: b as u16 },
        DexInsn::XorLong { dest, a, b } => InstructionView::Reg3 { opcode: 0xa2, reg_a: dest as u16, reg_b: a as u16, reg_c: b as u16 },
        DexInsn::ShlLong { dest, a, b } => InstructionView::Reg3 { opcode: 0xa3, reg_a: dest as u16, reg_b: a as u16, reg_c: b as u16 },
        DexInsn::ShrLong { dest, a, b } => InstructionView::Reg3 { opcode: 0xa4, reg_a: dest as u16, reg_b: a as u16, reg_c: b as u16 },
        DexInsn::UshrLong { dest, a, b } => InstructionView::Reg3 { opcode: 0xa5, reg_a: dest as u16, reg_b: a as u16, reg_c: b as u16 },
        DexInsn::AddFloat { dest, a, b } => InstructionView::Reg3 { opcode: 0xa6, reg_a: dest as u16, reg_b: a as u16, reg_c: b as u16 },
        DexInsn::SubFloat { dest, a, b } => InstructionView::Reg3 { opcode: 0xa7, reg_a: dest as u16, reg_b: a as u16, reg_c: b as u16 },
        DexInsn::MulFloat { dest, a, b } => InstructionView::Reg3 { opcode: 0xa8, reg_a: dest as u16, reg_b: a as u16, reg_c: b as u16 },
        DexInsn::DivFloat { dest, a, b } => InstructionView::Reg3 { opcode: 0xa9, reg_a: dest as u16, reg_b: a as u16, reg_c: b as u16 },
        DexInsn::RemFloat { dest, a, b } => InstructionView::Reg3 { opcode: 0xaa, reg_a: dest as u16, reg_b: a as u16, reg_c: b as u16 },
        DexInsn::AddDouble { dest, a, b } => InstructionView::Reg3 { opcode: 0xab, reg_a: dest as u16, reg_b: a as u16, reg_c: b as u16 },
        DexInsn::SubDouble { dest, a, b } => InstructionView::Reg3 { opcode: 0xac, reg_a: dest as u16, reg_b: a as u16, reg_c: b as u16 },
        DexInsn::MulDouble { dest, a, b } => InstructionView::Reg3 { opcode: 0xad, reg_a: dest as u16, reg_b: a as u16, reg_c: b as u16 },
        DexInsn::DivDouble { dest, a, b } => InstructionView::Reg3 { opcode: 0xae, reg_a: dest as u16, reg_b: a as u16, reg_c: b as u16 },
        DexInsn::RemDouble { dest, a, b } => InstructionView::Reg3 { opcode: 0xaf, reg_a: dest as u16, reg_b: a as u16, reg_c: b as u16 },
        DexInsn::Const4 { dest, value } => InstructionView::RegLiteral { opcode: 0x12, reg_a: dest as u16, reg_b: 0, literal: value as i64 },
        DexInsn::Const16 { dest, value } => InstructionView::RegLiteral { opcode: 0x13, reg_a: dest as u16, reg_b: 0, literal: value as i64 },
        DexInsn::Const { dest, value } => InstructionView::RegLiteral { opcode: 0x14, reg_a: dest as u16, reg_b: 0, literal: value as i64 },
        DexInsn::ConstHigh16 { dest, value } => InstructionView::RegLiteral { opcode: 0x15, reg_a: dest as u16, reg_b: 0, literal: value as i64 },
        DexInsn::ConstWide16 { dest, value } => InstructionView::RegLiteral { opcode: 0x16, reg_a: dest as u16, reg_b: 0, literal: value as i64 },
        DexInsn::ConstWide32 { dest, value } => InstructionView::RegLiteral { opcode: 0x17, reg_a: dest as u16, reg_b: 0, literal: value as i64 },
        DexInsn::ConstWide { dest, value } => InstructionView::RegLiteral { opcode: 0x18, reg_a: dest as u16, reg_b: 0, literal: value },
        DexInsn::ConstWideHigh16 { dest, value } => InstructionView::RegLiteral { opcode: 0x19, reg_a: dest as u16, reg_b: 0, literal: value as i64 },
        DexInsn::AddIntLit16 { dest, src, literal } => InstructionView::RegLiteral { opcode: 0xd0, reg_a: dest as u16, reg_b: src as u16, literal: literal as i64 },
        DexInsn::RsubIntLit16 { dest, src, literal } => InstructionView::RegLiteral { opcode: 0xd1, reg_a: dest as u16, reg_b: src as u16, literal: literal as i64 },
        DexInsn::MulIntLit16 { dest, src, literal } => InstructionView::RegLiteral { opcode: 0xd2, reg_a: dest as u16, reg_b: src as u16, literal: literal as i64 },
        DexInsn::DivIntLit16 { dest, src, literal } => InstructionView::RegLiteral { opcode: 0xd3, reg_a: dest as u16, reg_b: src as u16, literal: literal as i64 },
        DexInsn::RemIntLit16 { dest, src, literal } => InstructionView::RegLiteral { opcode: 0xd4, reg_a: dest as u16, reg_b: src as u16, literal: literal as i64 },
        DexInsn::AndIntLit16 { dest, src, literal } => InstructionView::RegLiteral { opcode: 0xd5, reg_a: dest as u16, reg_b: src as u16, literal: literal as i64 },
        DexInsn::OrIntLit16 { dest, src, literal } => InstructionView::RegLiteral { opcode: 0xd6, reg_a: dest as u16, reg_b: src as u16, literal: literal as i64 },
        DexInsn::XorIntLit16 { dest, src, literal } => InstructionView::RegLiteral { opcode: 0xd7, reg_a: dest as u16, reg_b: src as u16, literal: literal as i64 },
        DexInsn::AddIntLit8 { dest, src, literal } => InstructionView::RegLiteral { opcode: 0xd8, reg_a: dest as u16, reg_b: src as u16, literal: literal as i64 },
        DexInsn::RsubIntLit8 { dest, src, literal } => InstructionView::RegLiteral { opcode: 0xd9, reg_a: dest as u16, reg_b: src as u16, literal: literal as i64 },
        DexInsn::MulIntLit8 { dest, src, literal } => InstructionView::RegLiteral { opcode: 0xda, reg_a: dest as u16, reg_b: src as u16, literal: literal as i64 },
        DexInsn::DivIntLit8 { dest, src, literal } => InstructionView::RegLiteral { opcode: 0xdb, reg_a: dest as u16, reg_b: src as u16, literal: literal as i64 },
        DexInsn::RemIntLit8 { dest, src, literal } => InstructionView::RegLiteral { opcode: 0xdc, reg_a: dest as u16, reg_b: src as u16, literal: literal as i64 },
        DexInsn::AndIntLit8 { dest, src, literal } => InstructionView::RegLiteral { opcode: 0xdd, reg_a: dest as u16, reg_b: src as u16, literal: literal as i64 },
        DexInsn::OrIntLit8 { dest, src, literal } => InstructionView::RegLiteral { opcode: 0xde, reg_a: dest as u16, reg_b: src as u16, literal: literal as i64 },
        DexInsn::XorIntLit8 { dest, src, literal } => InstructionView::RegLiteral { opcode: 0xdf, reg_a: dest as u16, reg_b: src as u16, literal: literal as i64 },
        DexInsn::ShlIntLit8 { dest, src, literal } => InstructionView::RegLiteral { opcode: 0xe0, reg_a: dest as u16, reg_b: src as u16, literal: literal as i64 },
        DexInsn::ShrIntLit8 { dest, src, literal } => InstructionView::RegLiteral { opcode: 0xe1, reg_a: dest as u16, reg_b: src as u16, literal: literal as i64 },
        DexInsn::UshrIntLit8 { dest, src, literal } => InstructionView::RegLiteral { opcode: 0xe2, reg_a: dest as u16, reg_b: src as u16, literal: literal as i64 },
        DexInsn::ConstString { dest, string } => InstructionView::RegString { opcode: 0x1a, reg_a: dest as u16, value: p.strings[string as int] },
        DexInsn::ConstStringJumbo { dest, string } => InstructionView::RegString { opcode: 0x1b, reg_a: dest as u16, value: p.strings[string as int] },
        DexInsn::ConstClass { dest, type_ } => InstructionView::RegType { opcode: 0x1c, reg_a: dest as u16, reg_b: 0, type_descriptor: type_desc(p, type_) },
        DexInsn::CheckCast { ref_, type_ } => InstructionView::RegType { opcode: 0x1f, reg_a: ref_ as u16, reg_b: 0, type_descriptor: type_desc(p, type_) },
        DexInsn::InstanceOf { dest, ref_, type_ } => InstructionView::RegType { opcode: 0x20, reg_a: dest as u16, reg_b: ref_ as u16, type_descriptor: type_desc(p, type_) },
        DexInsn::NewInstance { dest, type_ } => InstructionView::RegType { opcode: 0x22, reg_a: dest as u16, reg_b: 0, type_descriptor: type_desc(p, type_) },
        DexInsn::NewArray { dest, size, type_ } => InstructionView::RegType { opcode: 0x23, reg_a: dest as u16, reg_b: size as u16, type_descriptor: type_desc(p, type_) },
        DexInsn::Iget { dest, obj, field } => InstructionView::RegField { opcode: 0x52, reg_a: dest as u16, reg_b: obj as u16, field: field_ref_of(p, field) },
        DexInsn::IgetWide { dest, obj, field } => InstructionView::RegField { opcode: 0x53, reg_a: dest as u16, reg_b: obj as u16, field: field_ref_of(p, field) },
        DexInsn::IgetObject { dest, obj, field } => InstructionView::RegField { opcode: 0x54, reg_a: dest as u16, reg_b: obj as u16, field: field_ref_of(p, field) },
        DexInsn::IgetBoolean { dest, obj, field } => InstructionView::RegField { opcode: 0x55, reg_a: dest as u16, reg_b: obj as u16, field: field_ref_of(p, field) },
        DexInsn::IgetByte { dest, obj, field } => InstructionView::RegField { opcode: 0x56, reg_a: dest as u16, reg_b: obj as u16, field: field_ref_of(p, field) },
        DexInsn::IgetChar { dest, obj, field } => InstructionView::RegField { opcode: 0x57, reg_a: dest as u16, reg_b: obj as u16, field: field_ref_of(p, field) },
        DexInsn::IgetShort { dest, obj, field } => InstructionView::RegField { opcode: 0x58, reg_a: dest as u16, reg_b: obj as u16, field: field_ref_of(p, field) },
        DexInsn::Iput { src, obj, field } => InstructionView::RegField { opcode: 0x59, reg_a: src as u16, reg_b: obj as u16, field: field_ref_of(p, field) },
        DexInsn::IputWide { src, obj, field } => InstructionView::RegField { opcode: 0x5a, reg_a: src as u16, reg_b: obj as u16, field: field_ref_of(p, field) },
        DexInsn::IputObject { src, obj, field } => InstructionView::RegField { opcode: 0x5b, reg_a: src as u16, reg_b: obj as u16, field: field_ref_of(p, field) },
        DexInsn::IputBoolean { src, obj, field } => InstructionView::RegField { opcode: 0x5c, reg_a: src as u16, reg_b: obj as u16, field: field_ref_of(p, field) },
        DexInsn::IputByte { src, obj, field } => InstructionView::RegField { opcode: 0x5d, reg_a: src as u16, reg_b: obj as u16, field: field_ref_of(p, field) },
        DexInsn::IputChar { src, obj, field } => InstructionView::RegField { opcode: 0x5e, reg_a: src as u16, reg_b: obj as u16, field: field_ref_of(p, field) },
        DexInsn::IputShort { src, obj, field } => InstructionView::RegField { opcode: 0x5f, reg_a: src as u16, reg_b: obj as u16, field: field_ref_of(p, field) },
        DexInsn::Sget { dest, field } => InstructionView::RegField { opcode: 0x60, reg_a: dest as u16, reg_b: 0, field: field_ref_of(p, field) },
        DexInsn::SgetWide { dest, field } => InstructionView::RegField { opcode: 0x61, reg_a: dest as u16, reg_b: 0, field: field_ref_of(p, field) },
        DexInsn::SgetObject { dest, field } => InstructionView::RegField { opcode: 0x62, reg_a: dest as u16, reg_b: 0, field: field_ref_of(p, field) },
        DexInsn::SgetBoolean { dest, field } => InstructionView::RegField { opcode: 0x63, reg_a: dest as u16, reg_b: 0, field: field_ref_of(p, field) },
        DexInsn::SgetByte { dest, field } => InstructionView::RegField { opcode: 0x64, reg_a: dest as u16, reg_b: 0, field: field_ref_of(p, field) },
        DexInsn::SgetChar { dest, field } => InstructionView::RegField { opcode: 0x65, reg_a: dest as u16, reg_b: 0, field: field_ref_of(p, field) },
        DexInsn::SgetShort { dest, field } => InstructionView::RegField { opcode: 0x66, reg_a: dest as u16, reg_b: 0, field: field_ref_of(p, field) },
        DexInsn::Sput { src, field } => InstructionView::RegField { opcode: 0x67, reg_a: src as u16, reg_b: 0, field: field_ref_of(p, field) },
        DexInsn::SputWide { src, field } => InstructionView::RegField { opcode: 0x68, reg_a: src as u16, reg_b: 0, field: field_ref_of(p, field) },
        DexInsn::SputObject { src, field } => InstructionView::RegField { opcode: 0x69, reg_a: src as u16, reg_b: 0, field: field_ref_of(p, field) },
        DexInsn::SputBoolean { src, field } => InstructionView::RegField { opcode: 0x6a, reg_a: src as u16, reg_b: 0, field: field_ref_of(p, field) },
        DexInsn::SputByte { src, field } => InstructionView::RegField { opcode: 0x6b, reg_a: src as u16, reg_b: 0, field: field_ref_of(p, field) },
        DexInsn::SputChar { src, field } => InstructionView::RegField { opcode: 0x6c, reg_a: src as u16, reg_b: 0, field: field_ref_of(p, field) },
        DexInsn::SputShort { src, field } => InstructionView::RegField { opcode: 0x6d, reg_a: src as u16, reg_b: 0, field: field_ref_of(p, field) },
        DexInsn::InvokeVirtual { method, args } => InstructionView::Invoke { opcode: 0x6e, registers: args@.map_values(|r: u8| r as u16), method: method_ref_of(p, method) },
        DexInsn::InvokeSuper { method, args } => InstructionView::Invoke { opcode: 0x6f, registers: args@.map_values(|r: u8| r as u16), method: method_ref_of(p, method) },
        DexInsn::InvokeDirect { method, args } => InstructionView::Invoke { opcode: 0x70, registers: args@.map_values(|r: u8| r as u16), method: method_ref_of(p, method) },
        DexInsn::InvokeStatic { method, args } => InstructionView::Invoke { opcode: 0x71, registers: args@.map_values(|r: u8| r as u16), method: method_ref_of(p, method) },
        DexInsn::InvokeInterface { method, args } => InstructionView::Invoke { opcode: 0x72, registers: args@.map_values(|r: u8| r as u16), method: method_ref_of(p, method) },
        DexInsn::InvokePolymorphic { method, proto: _, args } => InstructionView::Invoke { opcode: 0xfa, registers: args@.map_values(|r: u8| r as u16), method: method_ref_of(p, method) },
        DexInsn::InvokeCustom { call_site, args } => InstructionView::Invoke { opcode: 0xfc, registers: args@.map_values(|r: u8| r as u16), method: call_site_ref_of(call_site) },
        DexInsn::InvokeVirtualRange { method, first_reg, count } => InstructionView::InvokeRange { opcode: 0x74, start_reg: first_reg, reg_count: count as u16, method: method_ref_of(p, method) },
        DexInsn::InvokeSuperRange { method, first_reg, count } => InstructionView::InvokeRange { opcode: 0x75, start_reg: first_reg, reg_count: count as u16, method: method_ref_of(p, method) },
        DexInsn::InvokeDirectRange { method, first_reg, count } => InstructionView::InvokeRange { opcode: 0x76, start_reg: first_reg, reg_count: count as u16, method: method_ref_of(p, method) },
        DexInsn::InvokeStaticRange { method, first_reg, count } => InstructionView::InvokeRange { opcode: 0x77, start_reg: first_reg, reg_count: count as u16, method: method_ref_of(p, method) },
        DexInsn::InvokeInterfaceRange { method, first_reg, count } => InstructionView::InvokeRange { opcode: 0x78, start_reg: first_reg, reg_count: count as u16, method: method_ref_of(p, method) },
        DexInsn::InvokePolymorphicRange { method, proto: _, first_reg, count } => InstructionView::InvokeRange { opcode: 0xfb, start_reg: first_reg, reg_count: count as u16, method: method_ref_of(p, method) },
        DexInsn::InvokeCustomRange { call_site, first_reg, count } => InstructionView::InvokeRange { opcode: 0xfd, start_reg: first_reg, reg_count: count as u16, method: call_site_ref_of(call_site) },
        DexInsn::ConstMethodHandle { dest, method_handle } => InstructionView::RegLiteral { opcode: 0xfe, reg_a: dest as u16, reg_b: 0, literal: method_handle as i64 },
        DexInsn::ConstMethodType { dest, proto } => InstructionView::RegLiteral { opcode: 0xff, reg_a: dest as u16, reg_b: 0, literal: proto as i64 },
        DexInsn::Goto { offset } => InstructionView::Branch0 { opcode: 0x28, offset: offset as i32 },
        DexInsn::Goto16 { offset } => InstructionView::Branch0 { opcode: 0x29, offset: offset as i32 },
        DexInsn::Goto32 { offset } => InstructionView::Branch0 { opcode: 0x2a, offset: offset },
        DexInsn::IfEqz { a, offset } => InstructionView::Branch { opcode: 0x38, reg_a: a as u16, offset: offset as i32 },
        DexInsn::IfNez { a, offset } => InstructionView::Branch { opcode: 0x39, reg_a: a as u16, offset: offset as i32 },
        DexInsn::IfLtz { a, offset } => InstructionView::Branch { opcode: 0x3a, reg_a: a as u16, offset: offset as i32 },
        DexInsn::IfGez { a, offset } => InstructionView::Branch { opcode: 0x3b, reg_a: a as u16, offset: offset as i32 },
        DexInsn::IfGtz { a, offset } => InstructionView::Branch { opcode: 0x3c, reg_a: a as u16, offset: offset as i32 },
        DexInsn::IfLez { a, offset } => InstructionView::Branch { opcode: 0x3d, reg_a: a as u16, offset: offset as i32 },
        DexInsn::PackedSwitch { test, payload_offset } => InstructionView::Branch { opcode: 0x2b, reg_a: test as u16, offset: payload_offset },
        DexInsn::SparseSwitch { test, payload_offset } => InstructionView::Branch { opcode: 0x2c, reg_a: test as u16, offset: payload_offset },
        DexInsn::FillArrayData { array, payload_offset } => InstructionView::Branch { opcode: 0x26, reg_a: array as u16, offset: payload_offset },
        DexInsn::IfEq { a, b, offset } => InstructionView::Branch2 { opcode: 0x32, reg_a: a as u16, reg_b: b as u16, offset: offset as i32 },
        DexInsn::IfNe { a, b, offset } => InstructionView::Branch2 { opcode: 0x33, reg_a: a as u16, reg_b: b as u16, offset: offset as i32 },
        DexInsn::IfLt { a, b, offset } => InstructionView::Branch2 { opcode: 0x34, reg_a: a as u16, reg_b: b as u16, offset: offset as i32 },
        DexInsn::IfGe { a, b, offset } => InstructionView::Branch2 { opcode: 0x35, reg_a: a as u16, reg_b: b as u16, offset: offset as i32 },
        DexInsn::IfGt { a, b, offset } => InstructionView::Branch2 { opcode: 0x36, reg_a: a as u16, reg_b: b as u16, offset: offset as i32 },
        DexInsn::IfLe { a, b, offset } => InstructionView::Branch2 { opcode: 0x37, reg_a: a as u16, reg_b: b as u16, offset: offset as i32 },
        DexInsn::FilledNewArray { type_, args } => InstructionView::FilledArray { opcode: 0x24, registers: args@.map_values(|r: u8| r as u16), type_descriptor: type_desc(p, type_) },
        DexInsn::FilledNewArrayRange { type_, first_reg, count } => InstructionView::FilledArrayRange { opcode: 0x25, start_reg: first_reg, reg_count: count as u16, type_descriptor: type_desc(p, type_) },
        DexInsn::PackedSwitchPayload { first_key, targets } => InstructionView::PackedSwitchData { first_key: first_key, targets: targets@ },
        DexInsn::SparseSwitchPayload { keys_and_targets } => InstructionView::SparseSwitchData {
            keys: keys_and_targets@.map_values(|e: (i32, i32)| e.0),
            targets: keys_and_targets@.map_values(|e: (i32, i32)| e.1),
        },
        DexInsn::FillArrayDataPayload { element_width, data } => InstructionView::FillArrayData { element_width: element_width, data: data@ },
        DexInsn::RawInstruction { code_units } => InstructionView::Raw(le_bytes(code_units@)),
    }
}

impl DexPools {
    /// The pools are consistent.
    pub open spec fn wf(&self) -> bool {
        pools_wf(self@)
    }

    /// The descriptor of type `t`.
    pub fn type_descriptor(&self, t: u32) -> (r: String)
        requires
            self.wf(),
            t < self@.types.len(),
        ensures
            r@ == type_desc(self@, t),
    {
        let s = self.types[t as usize];
        assert(self@.types[t as int] == s);
        self.strings[s as usize].clone()
    }

    /// String `s`.
    pub fn string_at(&self, s: u32) -> (r: String)
        requires
            s < self@.strings.len(),
        ensures
            r@ == self@.strings[s as int],
    {
        self.strings[s as usize].clone()
    }

    /// Method `m` spelled out.
    pub fn method_ref(&self, m: u32) -> (r: MethodRef)
        requires
            self.wf(),
            m < self@.methods.len(),
        ensures
            r@ == method_ref_of(self@, m),
    {
        let mid = &self.methods[m as usize];
        assert(self@.methods[m as int] == (mid.class, mid.name, mid.proto));
        let defining_class = self.type_descriptor(mid.class);
        let name = self.string_at(mid.name);
        let proto = &self.protos[mid.proto as usize];
        let ghost params = proto.parameters@;
        assert(self@.protos[mid.proto as int] == (proto.return_type, params));
        let mut text = chars_of("(");
        let n = proto.parameters.len();
        assert(params.take(0) =~= Seq::<u32>::empty());
        for k in 0..n
            invariant
                self.wf(),
                n == params.len(),
                params == proto.parameters@,
                (mid.proto as int) < self@.protos.len(),
                self@.protos[mid.proto as int].1 == params,
                text@ == "("@ + descs_text(self@, params.take(k as int)),
        {
            assert(params[k as int] < self@.types.len());
            let d = self.type_descriptor(proto.parameters[k]);
            let dc = chars_of(d.as_str());
            extend(&mut text, &dc);
            assert(params.take(k + 1).drop_last() =~= params.take(k as int));
        }
        assert(params.take(n as int) =~= params);
        let close = chars_of(")");
        extend(&mut text, &close);
        let ret = self.type_descriptor(proto.return_type);
        let rc = chars_of(ret.as_str());
        extend(&mut text, &rc);
        MethodRef { defining_class, name, proto: string_of(&text) }
    }

    /// Field `f` spelled out.
    pub fn field_ref(&self, f: u32) -> (r: FieldRef)
        requires
            self.wf(),
            f < self@.fields.len(),
        ensures
            r@ == field_ref_of(self@, f),
    {
        let fid = &self.fields[f as usize];
        assert(self@.fields[f as int] == (fid.class, fid.name, fid.field_type));
        FieldRef {
            defining_class: self.type_descriptor(fid.class),
            name: self.string_at(fid.name),
            field_type: self.type_descriptor(fid.field_type),
        }
    }
}

/// Registers widened to 16 bits.
fn widen(regs: &Vec<u8>) -> (r: Vec<u16>)
    ensures
        r@ == regs@.map_values(|x: u8| x as u16),
{
    let mut out: Vec<u16> = Vec::new();
    let n = regs.len();
    for k in 0..n
        invariant
            n == regs@.len(),
            out@ == regs@.take(k as int).map_values(|x: u8| x as u16),
    {
        out.push(regs[k] as u16);
        assert(regs@.take(k + 1).map_values(|x: u8| x as u16) =~= regs@.take(k as int).map_values(|x: u8| x as u16).push(
            regs@[k as int] as u16,
        ));
    }
    assert(regs@.take(n as int) =~= regs@);
    out
}

fn copy_i32s(v: &Vec<i32>) -> (r: Vec<i32>)
    ensures
        r@ == v@,
{
    let mut out: Vec<i32> = Vec::new();
    let n = v.len();
    for k in 0..n
        invariant
            n == v@.len(),
            out@ == v@.take(k as int),
    {
        out.push(v[k]);
        assert(v@.take(k + 1) =~= v@.take(k as int).push(v@[k as int]));
    }
    assert(v@.take(n as int) =~= v@);
    out
}

fn copy_bytes(v: &Vec<u8>) -> (r: Vec<u8>)
    ensures
        r@ == v@,
{
    let mut out: Vec<u8> = Vec::new();
    let n = v.len();
    for k in 0..n
        invariant
            n == v@.len(),
            out@ == v@.take(k as int),
    {
        out.push(v[k]);
        assert(v@.take(k + 1) =~= v@.take(k as int).push(v@[k as int]));
    }
    assert(v@.take(n as int) =~= v@);
    out
}

/// The keys and the targets of a sparse switch, apart.
fn split_pairs(v: &Vec<(i32, i32)>) -> (r: (Vec<i32>, Vec<i32>))
    ensures
        r.0@ == v@.map_values(|e: (i32, i32)| e.0),
        r.1@ == v@.map_values(|e: (i32, i32)| e.1),
{
    let mut keys: Vec<i32> = Vec::new();
    let mut targets: Vec<i32> = Vec::new();
    let n = v.len();
    for k in 0..n
        invariant
            n == v@.len(),
            keys@ == v@.take(k as int).map_values(|e: (i32, i32)| e.0),
            targets@ == v@.take(k as int).map_values(|e: (i32, i32)| e.1),
    {
        keys.push(v[k].0);
        targets.push(v[k].1);
        assert(v@.take(k + 1).map_values(|e: (i32, i32)| e.0) =~= v@.take(k as int).map_values(|e: (i32, i32)| e.0).push(v@[k as int].0));
        assert(v@.take(k + 1).map_values(|e: (i32, i32)| e.1) =~= v@.take(k as int).map_values(|e: (i32, i32)| e.1).push(v@[k as int].1));
    }
    assert(v@.take(n as int) =~= v@);
    (keys, targets)
}

/// Code units as little-endian bytes.
fn le_bytes_of(units: &Vec<u16>) -> (r: Vec<u8>)
    ensures
        r@ == le_bytes(units@),
{
    let mut out: Vec<u8> = Vec::new();
    let n = units.len();
    for k in 0..n
        invariant
            n == units@.len(),
            out@ == le_bytes(units@.take(k as int)),
    {
        let u = units[k];
        out.push((u % 256) as u8);
        out.push((u / 256) as u8);
        assert(units@.take(k + 1).drop_last() =~= units@.take(k as int));
        assert(out@ =~= le_bytes(units@.take(k as int)) + seq![(u % 256) as u8, (u / 256) as u8]);
    }
    assert(units@.take(n as int) =~= units@);
    out
}

/// The method a call site stands for.
fn call_site_ref(c: u32) -> (r: MethodRef)
    ensures
        r@ == call_site_ref_of(c),
{
    let mut name = chars_of("call_site_");
    let d = decimal_chars(c as u64);
    extend(&mut name, &d);
    MethodRef { defining_class: String::new(), name: string_of(&name), proto: String::new() }
}

/// The record a DEX instruction reads as: its opcode and record shape, its
/// registers widened to 16 bits, and the pool entries it refers to spelled
/// out.
#[verifier::rlimit(100)]
pub fn dex_to_kotlin(insn: &DexInsn, pools: &DexPools) -> (r: Instruction)
    requires
        pools.wf(),
        refs_in(*insn, pools@),
    ensures
        r@ == kotlin_of(*insn, pools@),
{
    match insn {
            DexInsn::Nop => Instruction::Simple(SimpleInsn { opcode: 0x00 }),
            DexInsn::ReturnVoid => Instruction::Simple(SimpleInsn { opcode: 0x0e }),
            DexInsn::MoveResult { dest } => Instruction::Reg1(Reg1Insn { opcode: 0x0a, reg_a: *dest as u16 }),
            DexInsn::MoveResultWide { dest } => Instruction::Reg1(Reg1Insn { opcode: 0x0b, reg_a: *dest as u16 }),
            DexInsn::MoveResultObject { dest } => Instruction::Reg1(Reg1Insn { opcode: 0x0c, reg_a: *dest as u16 }),
            DexInsn::MoveException { dest } => Instruction::Reg1(Reg1Insn { opcode: 0x0d, reg_a: *dest as u16 }),
            DexInsn::Return { src } => Instruction::Reg1(Reg1Insn { opcode: 0x0f, reg_a: *src as u16 }),
            DexInsn::ReturnWide { src } => Instruction::Reg1(Reg1Insn { opcode: 0x10, reg_a: *src as u16 }),
            DexInsn::ReturnObject { src } => Instruction::Reg1(Reg1Insn { opcode: 0x11, reg_a: *src as u16 }),
            DexInsn::MonitorEnter { ref_ } => Instruction::Reg1(Reg1Insn { opcode: 0x1d, reg_a: *ref_ as u16 }),
            DexInsn::MonitorExit { ref_ } => Instruction::Reg1(Reg1Insn { opcode: 0x1e, reg_a: *ref_ as u16 }),
            DexInsn::Throw { exception } => Instruction::Reg1(Reg1Insn { opcode: 0x27, reg_a: *exception as u16 }),
            DexInsn::Move { dest, src } => Instruction::Reg2(Reg2Insn { opcode: 0x01, reg_a: *dest as u16, reg_b: *src as u16 }),
            DexInsn::MoveFrom16 { dest, src } => Instruction::Reg2(Reg2Insn { opcode: 0x02, reg_a: *dest as u16, reg_b: *src }),
            DexInsn::Move16 { dest, src } => Instruction::Reg2(Reg2Insn { opcode: 0x03, reg_a: *dest, reg_b: *src }),
            DexInsn::MoveWide { dest, src } => Instruction::Reg2(Reg2Insn { opcode: 0x04, reg_a: *dest as u16, reg_b: *src as u16 }),
            DexInsn::MoveWideFrom16 { dest, src } => Instruction::Reg2(Reg2Insn { opcode: 0x05, reg_a: *dest as u16, reg_b: *src }),
            DexInsn::MoveWide16 { dest, src } => Instruction::Reg2(Reg2Insn { opcode: 0x06, reg_a: *dest, reg_b: *src }),
            DexInsn::MoveObject { dest, src } => Instruction::Reg2(Reg2Insn { opcode: 0x07, reg_a: *dest as u16, reg_b: *src as u16 }),
            DexInsn::MoveObjectFrom16 { dest, src } => Instruction::Reg2(Reg2Insn { opcode: 0x08, reg_a: *dest as u16, reg_b: *src }),
            DexInsn::MoveObject16 { dest, src } => Instruction::Reg2(Reg2Insn { opcode: 0x09, reg_a: *dest, reg_b: *src }),
            DexInsn::ArrayLength { dest, array } => Instruction::Reg2(Reg2Insn { opcode: 0x21, reg_a: *dest as u16, reg_b: *array as u16 }),
            DexInsn::NegInt { dest, src } => Instruction::Reg2(Reg2Insn { opcode: 0x7b, reg_a: *dest as u16, reg_b: *src as u16 }),
            DexInsn::NotInt { dest, src } => Instruction::Reg2(Reg2Insn { opcode: 0x7c, reg_a: *dest as u16, reg_b: *src as u16 }),
            DexInsn::NegLong { dest, src } => Instruction::Reg2(Reg2Insn { opcode: 0x7d, reg_a: *dest as u16, reg_b: *src as u16 }),
            DexInsn::NotLong { dest, src } => Instruction::Reg2(Reg2Insn { opcode: 0x7e, reg_a: *dest as u16, reg_b: *src as u16 }),
            DexInsn::NegFloat { dest, src } => Instruction::Reg2(Reg2Insn { opcode: 0x7f, reg_a: *dest as u16, reg_b: *src as u16 }),
            DexInsn::NegDouble { dest, src } => Instruction::Reg2(Reg2Insn { opcode: 0x80, reg_a: *dest as u16, reg_b: *src as u16 }),
            DexInsn::IntToLong { dest, src } => Instruction::Reg2(Reg2Insn { opcode: 0x81, reg_a: *dest as u16, reg_b: *src as u16 }),
            DexInsn::IntToFloat { dest, src } => Instruction::Reg2(Reg2Insn { opcode: 0x82, reg_a: *dest as u16, reg_b: *src as u16 }),
            DexInsn::IntToDouble { dest, src } => Instruction::Reg2(Reg2Insn { opcode: 0x83, reg_a: *dest as u16, reg_b: *src as u16 }),
            DexInsn::LongToInt { dest, src } => Instruction::Reg2(Reg2Insn { opcode: 0x84, reg_a: *dest as u16, reg_b: *src as u16 }),
            DexInsn::LongToFloat { dest, src } => Instruction::Reg2(Reg2Insn { opcode: 0x85, reg_a: *dest as u16, reg_b: *src as u16 }),
            DexInsn::LongToDouble { dest, src } => Instruction::Reg2(Reg2Insn { opcode: 0x86, reg_a: *dest as u16, reg_b: *src as u16 }),
            DexInsn::FloatToInt { dest, src } => Instruction::Reg2(Reg2Insn { opcode: 0x87, reg_a: *dest as u16, reg_b: *src as u16 }),
            DexInsn::FloatToLong { dest, src } => Instruction::Reg2(Reg2Insn { opcode: 0x88, reg_a: *dest as u16, reg_b: *src as u16 }),
            DexInsn::FloatToDouble { dest, src } => Instruction::Reg2(Reg2Insn { opcode: 0x89, reg_a: *dest as u16, reg_b: *src as u16 }),
            DexInsn::DoubleToInt { dest, src } => Instruction::Reg2(Reg2Insn { opcode: 0x8a, reg_a: *dest as u16, reg_b: *src as u16 }),
            DexInsn::DoubleToLong { dest, src } => Instruction::Reg2(Reg2Insn { opcode: 0x8b, reg_a: *dest as u16, reg_b: *src as u16 }),
            DexInsn::DoubleToFloat { dest, src } => Instruction::Reg2(Reg2Insn { opcode: 0x8c, reg_a: *dest as u16, reg_b: *src as u16 }),
            DexInsn::IntToByte { dest, src } => Instruction::Reg2(Reg2Insn { opcode: 0x8d, reg_a: *dest as u16, reg_b: *src as u16 }),
            DexInsn::IntToChar { dest, src } => Instruction::Reg2(Reg2Insn { opcode: 0x8e, reg_a: *dest as u16, reg_b: *src as u16 }),
            DexInsn::IntToShort { dest, src } => Instruction::Reg2(Reg2Insn { opcode: 0x8f, reg_a: *dest as u16, reg_b: *src as u16 }),
            DexInsn::AddInt2Addr { dest_a, b } => Instruction::Reg2(Reg2Insn { opcode: 0xb0, reg_a: *dest_a as u16, reg_b: *b as u16 }),
            DexInsn::SubInt2Addr { dest_a, b } => Instruction::Reg2(Reg2Insn { opcode: 0xb1, reg_a: *dest_a as u16, reg_b: *b as u16 }),
            DexInsn::MulInt2Addr { dest_a, b } => Instruction::Reg2(Reg2Insn { opcode: 0xb2, reg_a: *dest_a as u16, reg_b: *b as u16 }),
            DexInsn::DivInt2Addr { dest_a, b } => Instruction::Reg2(Reg2Insn { opcode: 0xb3, reg_a: *dest_a as u16, reg_b: *b as u16 }),
            DexInsn::RemInt2Addr { dest_a, b } => Instruction::Reg2(Reg2Insn { opcode: 0xb4, reg_a: *dest_a as u16, reg_b: *b as u16 }),
            DexInsn::AndInt2Addr { dest_a, b } => Instruction::Reg2(Reg2Insn { opcode: 0xb5, reg_a: *dest_a as u16, reg_b: *b as u16 }),
            DexInsn::OrInt2Addr { dest_a, b } => Instruction::Reg2(Reg2Insn { opcode: 0xb6, reg_a: *dest_a as u16, reg_b: *b as u16 }),
            DexInsn::XorInt2Addr { dest_a, b } => Instruction::Reg2(Reg2Insn { opcode: 0xb7, reg_a: *dest_a as u16, reg_b: *b as u16 }),
            DexInsn::ShlInt2Addr { dest_a, b } => Instruction::Reg2(Reg2Insn { opcode: 0xb8, reg_a: *dest_a as u16, reg_b: *b as u16 }),
            DexInsn::ShrInt2Addr { dest_a, b } => Instruction::Reg2(Reg2Insn { opcode: 0xb9, reg_a: *dest_a as u16, reg_b: *b as u16 }),
            DexInsn::UshrInt2Addr { dest_a, b } => Instruction::Reg2(Reg2Insn { opcode: 0xba, reg_a: *dest_a as u16, reg_b: *b as u16 }),
            DexInsn::AddLong2Addr { dest_a, b } => Instruction::Reg2(Reg2Insn { opcode: 0xbb, reg_a: *dest_a as u16, reg_b: *b as u16 }),
            DexInsn::SubLong2Addr { dest_a, b } => Instruction::Reg2(Reg2Insn { opcode: 0xbc, reg_a: *dest_a as u16, reg_b: *b as u16 }),
            DexInsn::MulLong2Addr { dest_a, b } => Instruction::Reg2(Reg2Insn { opcode: 0xbd, reg_a: *dest_a as u16, reg_b: *b as u16 }),
            DexInsn::DivLong2Addr { dest_a, b } => Instruction::Reg2(Reg2Insn { opcode: 0xbe, reg_a: *dest_a as u16, reg_b: *b as u16 }),
            DexInsn::RemLong2Addr { dest_a, b } => Instruction::Reg2(Reg2Insn { opcode: 0xbf, reg_a: *dest_a as u16, reg_b: *b as u16 }),
            DexInsn::AndLong2Addr { dest_a, b } => Instruction::Reg2(Reg2Insn { opcode: 0xc0, reg_a: *dest_a as u16, reg_b: *b as u16 }),
            DexInsn::OrLong2Addr { dest_a, b } => Instruction::Reg2(Reg2Insn { opcode: 0xc1, reg_a: *dest_a as u16, reg_b: *b as u16 }),
            DexInsn::XorLong2Addr { dest_a, b } => Instruction::Reg2(Reg2Insn { opcode: 0xc2, reg_a: *dest_a as u16, reg_b: *b as u16 }),
            DexInsn::ShlLong2Addr { dest_a, b } => Instruction::Reg2(Reg2Insn { opcode: 0xc3, reg_a: *dest_a as u16, reg_b: *b as u16 }),
            DexInsn::ShrLong2Addr { dest_a, b } => Instruction::Reg2(Reg2Insn { opcode: 0xc4, reg_a: *dest_a as u16, reg_b: *b as u16 }),
            DexInsn::UshrLong2Addr { dest_a, b } => Instruction::Reg2(Reg2Insn { opcode: 0xc5, reg_a: *dest_a as u16, reg_b: *b as u16 }),
            DexInsn::AddFloat2Addr { dest_a, b } => Instruction::Reg2(Reg2Insn { opcode: 0xc6, reg_a: *dest_a as u16, reg_b: *b as u16 }),
            DexInsn::SubFloat2Addr { dest_a, b } => Instruction::Reg2(Reg2Insn { opcode: 0xc7, reg_a: *dest_a as u16, reg_b: *b as u16 }),
            DexInsn::MulFloat2Addr { dest_a, b } => Instruction::Reg2(Reg2Insn { opcode: 0xc8, reg_a: *dest_a as u16, reg_b: *b as u16 }),
            DexInsn::DivFloat2Addr { dest_a, b } => Instruction::Reg2(Reg2Insn { opcode: 0xc9, reg_a: *dest_a as u16, reg_b: *b as u16 }),
            DexInsn::RemFloat2Addr { dest_a, b } => Instruction::Reg2(Reg2Insn { opcode: 0xca, reg_a: *dest_a as u16, reg_b: *b as u16 }),
            DexInsn::AddDouble2Addr { dest_a, b } => Instruction::Reg2(Reg2Insn { opcode: 0xcb, reg_a: *dest_a as u16, reg_b: *b as u16 }),
            DexInsn::SubDouble2Addr { dest_a, b } => Instruction::Reg2(Reg2Insn { opcode: 0xcc, reg_a: *dest_a as u16, reg_b: *b as u16 }),
            DexInsn::MulDouble2Addr { dest_a, b } => Instruction::Reg2(Reg2Insn { opcode: 0xcd, reg_a: *dest_a as u16, reg_b: *b as u16 }),
            DexInsn::DivDouble2Addr { dest_a, b } => Instruction::Reg2(Reg2Insn { opcode: 0xce, reg_a: *dest_a as u16, reg_b: *b as u16 }),
            DexInsn::RemDouble2Addr { dest_a, b } => Instruction::Reg2(Reg2Insn { opcode: 0xcf, reg_a: *dest_a as u16, reg_b: *b as u16 }),
            DexInsn::CmpLFloat { dest, a, b } => Instruction::Reg3(Reg3Insn { opcode: 0x2d, reg_a: *dest as u16, reg_b: *a as u16, reg_c: *b as u16 }),
            DexInsn::CmpGFloat { dest, a, b } => Instruction::Reg3(Reg3Insn { opcode: 0x2e, reg_a: *dest as u16, reg_b: *a as u16, reg_c: *b as u16 }),
            DexInsn::CmpLDouble { dest, a, b } => Instruction::Reg3(Reg3Insn { opcode: 0x2f, reg_a: *dest as u16, reg_b: *a as u16, reg_c: *b as u16 }),
            DexInsn::CmpGDouble { dest, a, b } => Instruction::Reg3(Reg3Insn { opcode: 0x30, reg_a: *dest as u16, reg_b: *a as u16, reg_c: *b as u16 }),
            DexInsn::CmpLong { dest, a, b } => Instruction::Reg3(Reg3Insn { opcode: 0x31, reg_a: *dest as u16, reg_b: *a as u16, reg_c: *b as u16 }),
            DexInsn::Aget { dest, array, index } => Instruction::Reg3(Reg3Insn { opcode: 0x44, reg_a: *dest as u16, reg_b: *array as u16, reg_c: *index as u16 }),
            DexInsn::AgetWide { dest, array, index } => Instruction::Reg3(Reg3Insn { opcode: 0x45, reg_a: *dest as u16, reg_b: *array as u16, reg_c: *index as u16 }),
            DexInsn::AgetObject { dest, array, index } => Instruction::Reg3(Reg3Insn { opcode: 0x46, reg_a: *dest as u16, reg_b: *array as u16, reg_c: *index as u16 }),
            DexInsn::AgetBoolean { dest, array, index } => Instruction::Reg3(Reg3Insn { opcode: 0x47, reg_a: *dest as u16, reg_b: *array as u16, reg_c: *index as u16 }),
            DexInsn::AgetByte { dest, array, index } => Instruction::Reg3(Reg3Insn { opcode: 0x48, reg_a: *dest as u16, reg_b: *array as u16, reg_c: *index as u16 }),
            DexInsn::AgetChar { dest, array, index } => Instruction::Reg3(Reg3Insn { opcode: 0x49, reg_a: *dest as u16, reg_b: *array as u16, reg_c: *index as u16 }),
            DexInsn::AgetShort { dest, array, index } => Instruction::Reg3(Reg3Insn { opcode: 0x4a, reg_a: *dest as u16, reg_b: *array as u16, reg_c: *index as u16 }),
            DexInsn::Aput { src, array, index } => Instruction::Reg3(Reg3Insn { opcode: 0x4b, reg_a: *src as u16, reg_b: *array as u16, reg_c: *index as u16 }),
            DexInsn::AputWide { src, array, index } => Instruction::Reg3(Reg3Insn { opcode: 0x4c, reg_a: *src as u16, reg_b: *array as u16, reg_c: *index as u16 }),
            DexInsn::AputObject { src, array, index } => Instruction::Reg3(Reg3Insn { opcode: 0x4d, reg_a: *src as u16, reg_b: *array as u16, reg_c: *index as u16 }),
            DexInsn::AputBoolean { src, array, index } => Instruction::Reg3(Reg3Insn { opcode: 0x4e, reg_a: *src as u16, reg_b: *array as u16, reg_c: *index as u16 }),
            DexInsn::AputByte { src, array, index } => Instruction::Reg3(Reg3Insn { opcode: 0x4f, reg_a: *src as u16, reg_b: *array as u16, reg_c: *index as u16 }),
            DexInsn::AputChar { src, array, index } => Instruction::Reg3(Reg3Insn { opcode: 0x50, reg_a: *src as u16, reg_b: *array as u16, reg_c: *index as u16 }),
            DexInsn::AputShort { src, array, index } => Instruction::Reg3(Reg3Insn { opcode: 0x51, reg_a: *src as u16, reg_b: *array as u16, reg_c: *index as u16 }),
            DexInsn::AddInt { dest, a, b } => Instruction::Reg3(Reg3Insn { opcode: 0x90, reg_a: *dest as u16, reg_b: *a as u16, reg_c: *b as u16 }),
            DexInsn::SubInt { dest, a, b } => Instruction::Reg3(Reg3Insn { opcode: 0x91, reg_a: *dest as u16, reg_b: *a as u16, reg_c: *b as u16 }),
            DexInsn::MulInt { dest, a, b } => Instruction::Reg3(Reg3Insn { opcode: 0x92, reg_a: *dest as u16, reg_b: *a as u16, reg_c: *b as u16 }),
            DexInsn::DivInt { dest, a, b } => Instruction::Reg3(Reg3Insn { opcode: 0x93, reg_a: *dest as u16, reg_b: *a as u16, reg_c: *b as u16 }),
            DexInsn::RemInt { dest, a, b } => Instruction::Reg3(Reg3Insn { opcode: 0x94, reg_a: *dest as u16, reg_b: *a as u16, reg_c: *b as u16 }),
            DexInsn::AndInt { dest, a, b } => Instruction::Reg3(Reg3Insn { opcode: 0x95, reg_a: *dest as u16, reg_b: *a as u16, reg_c: *b as u16 }),
            DexInsn::OrInt { dest, a, b } => Instruction::Reg3(Reg3Insn { opcode: 0x96, reg_a: *dest as u16, reg_b: *a as u16, reg_c: *b as u16 }),
            DexInsn::XorInt { dest, a, b } => Instruction::Reg3(Reg3Insn { opcode: 0x97, reg_a: *dest as u16, reg_b: *a as u16, reg_c: *b as u16 }),
            DexInsn::ShlInt { dest, a, b } => Instruction::Reg3(Reg3Insn { opcode: 0x98, reg_a: *dest as u16, reg_b: *a as u16, reg_c: *b as u16 }),
            DexInsn::ShrInt { dest, a, b } => Instruction::Reg3(Reg3Insn { opcode: 0x99, reg_a: *dest as u16, reg_b: *a as u16, reg_c: *b as u16 }),
            DexInsn::UshrInt { dest, a, b } => Instruction::Reg3(Reg3Insn { opcode: 0x9a, reg_a: *dest as u16, reg_b: *a as u16, reg_c: *b as u16 }),
            DexInsn::AddLong { dest, a, b } => Instruction::Reg3(Reg3Insn { opcode: 0x9b, reg_a: *dest as u16, reg_b: *a as u16, reg_c: *b as u16 }),
            DexInsn::SubLong { dest, a, b } => Instruction::Reg3(Reg3Insn { opcode: 0x9c, reg_a: *dest as u16, reg_b: *a as u16, reg_c: *b as u16 }),
            DexInsn::MulLong { dest, a, b } => Instruction::Reg3(Reg3Insn { opcode: 0x9d, reg_a: *dest as u16, reg_b: *a as u16, reg_c: *b as u16 }),
            DexInsn::DivLong { dest, a, b } => Instruction::Reg3(Reg3Insn { opcode: 0x9e, reg_a: *dest as u16, reg_b: *a as u16, reg_c: *b as u16 }),
            DexInsn::RemLong { dest, a, b } => Instruction::Reg3(Reg3Insn { opcode: 0x9f, reg_a: *dest as u16, reg_b: *a as u16, reg_c: *b as u16 }),
            DexInsn::AndLong { dest, a, b } => Instruction::Reg3(Reg3Insn { opcode: 0xa0, reg_a: *dest as u16, reg_b: *a as u16, reg_c: *b as u16 }),
            DexInsn::OrLong { dest, a, b } => Instruction::Reg3(Reg3Insn { opcode: 0xa1, reg_a: *dest as u16, reg_b: *a as u16, reg_c: *b as u16 }),
            DexInsn::XorLong { dest, a, b } => Instruction::Reg3(Reg3Insn { opcode: 0xa2, reg_a: *dest as u16, reg_b: *a as u16, reg_c: *b as u16 }),
            DexInsn::ShlLong { dest, a, b } => Instruction::Reg3(Reg3Insn { opcode: 0xa3, reg_a: *dest as u16, reg_b: *a as u16, reg_c: *b as u16 }),
            DexInsn::ShrLong { dest, a, b } => Instruction::Reg3(Reg3Insn { opcode: 0xa4, reg_a: *dest as u16, reg_b: *a as u16, reg_c: *b as u16 }),
            DexInsn::UshrLong { dest, a, b } => Instruction::Reg3(Reg3Insn { opcode: 0xa5, reg_a: *dest as u16, reg_b: *a as u16, reg_c: *b as u16 }),
            DexInsn::AddFloat { dest, a, b } => Instruction::Reg3(Reg3Insn { opcode: 0xa6, reg_a: *dest as u16, reg_b: *a as u16, reg_c: *b as u16 }),
            DexInsn::SubFloat { dest, a, b } => Instruction::Reg3(Reg3Insn { opcode: 0xa7, reg_a: *dest as u16, reg_b: *a as u16, reg_c: *b as u16 }),
            DexInsn::MulFloat { dest, a, b } => Instruction::Reg3(Reg3Insn { opcode: 0xa8, reg_a: *dest as u16, reg_b: *a as u16, reg_c: *b as u16 }),
            DexInsn::DivFloat { dest, a, b } => Instruction::Reg3(Reg3Insn { opcode: 0xa9, reg_a: *dest as u16, reg_b: *a as u16, reg_c: *b as u16 }),
            DexInsn::RemFloat { dest, a, b } => Instruction::Reg3(Reg3Insn { opcode: 0xaa, reg_a: *dest as u16, reg_b: *a as u16, reg_c: *b as u16 }),
            DexInsn::AddDouble { dest, a, b } => Instruction::Reg3(Reg3Insn { opcode: 0xab, reg_a: *dest as u16, reg_b: *a as u16, reg_c: *b as u16 }),
            DexInsn::SubDouble { dest, a, b } => Instruction::Reg3(Reg3Insn { opcode: 0xac, reg_a: *dest as u16, reg_b: *a as u16, reg_c: *b as u16 }),
            DexInsn::MulDouble { dest, a, b } => Instruction::Reg3(Reg3Insn { opcode: 0xad, reg_a: *dest as u16, reg_b: *a as u16, reg_c: *b as u16 }),
            DexInsn::DivDouble { dest, a, b } => Instruction::Reg3(Reg3Insn { opcode: 0xae, reg_a: *dest as u16, reg_b: *a as u16, reg_c: *b as u16 }),
            DexInsn::RemDouble { dest, a, b } => Instruction::Reg3(Reg3Insn { opcode: 0xaf, reg_a: *dest as u16, reg_b: *a as u16, reg_c: *b as u16 }),
            DexInsn::Const4 { dest, value } => Instruction::RegLiteral(RegLiteralInsn { opcode: 0x12, reg_a: *dest as u16, reg_b: 0, literal: *value as i64 }),
            DexInsn::Const16 { dest, value } => Instruction::RegLiteral(RegLiteralInsn { opcode: 0x13, reg_a: *dest as u16, reg_b: 0, literal: *value as i64 }),
            DexInsn::Const { dest, value } => Instruction::RegLiteral(RegLiteralInsn { opcode: 0x14, reg_a: *dest as u16, reg_b: 0, literal: *value as i64 }),
            DexInsn::ConstHigh16 { dest, value } => Instruction::RegLiteral(RegLiteralInsn { opcode: 0x15, reg_a: *dest as u16, reg_b: 0, literal: *value as i64 }),
            DexInsn::ConstWide16 { dest, value } => Instruction::RegLiteral(RegLiteralInsn { opcode: 0x16, reg_a: *dest as u16, reg_b: 0, literal: *value as i64 }),
            DexInsn::ConstWide32 { dest, value } => Instruction::RegLiteral(RegLiteralInsn { opcode: 0x17, reg_a: *dest as u16, reg_b: 0, literal: *value as i64 }),
            DexInsn::ConstWide { dest, value } => Instruction::RegLiteral(RegLiteralInsn { opcode: 0x18, reg_a: *dest as u16, reg_b: 0, literal: *value }),
            DexInsn::ConstWideHigh16 { dest, value } => Instruction::RegLiteral(RegLiteralInsn { opcode: 0x19, reg_a: *dest as u16, reg_b: 0, literal: *value as i64 }),
            DexInsn::AddIntLit16 { dest, src, literal } => Instruction::RegLiteral(RegLiteralInsn { opcode: 0xd0, reg_a: *dest as u16, reg_b: *src as u16, literal: *literal as i64 }),
            DexInsn::RsubIntLit16 { dest, src, literal } => Instruction::RegLiteral(RegLiteralInsn { opcode: 0xd1, reg_a: *dest as u16, reg_b: *src as u16, literal: *literal as i64 }),
            DexInsn::MulIntLit16 { dest, src, literal } => Instruction::RegLiteral(RegLiteralInsn { opcode: 0xd2, reg_a: *dest as u16, reg_b: *src as u16, literal: *literal as i64 }),
            DexInsn::DivIntLit16 { dest, src, literal } => Instruction::RegLiteral(RegLiteralInsn { opcode: 0xd3, reg_a: *dest as u16, reg_b: *src as u16, literal: *literal as i64 }),
            DexInsn::RemIntLit16 { dest, src, literal } => Instruction::RegLiteral(RegLiteralInsn { opcode: 0xd4, reg_a: *dest as u16, reg_b: *src as u16, literal: *literal as i64 }),
            DexInsn::AndIntLit16 { dest, src, literal } => Instruction::RegLiteral(RegLiteralInsn { opcode: 0xd5, reg_a: *dest as u16, reg_b: *src as u16, literal: *literal as i64 }),
            DexInsn::OrIntLit16 { dest, src, literal } => Instruction::RegLiteral(RegLiteralInsn { opcode: 0xd6, reg_a: *dest as u16, reg_b: *src as u16, literal: *literal as i64 }),
            DexInsn::XorIntLit16 { dest, src, literal } => Instruction::RegLiteral(RegLiteralInsn { opcode: 0xd7, reg_a: *dest as u16, reg_b: *src as u16, literal: *literal as i64 }),
            DexInsn::AddIntLit8 { dest, src, literal } => Instruction::RegLiteral(RegLiteralInsn { opcode: 0xd8, reg_a: *dest as u16, reg_b: *src as u16, literal: *literal as i64 }),
            DexInsn::RsubIntLit8 { dest, src, literal } => Instruction::RegLiteral(RegLiteralInsn { opcode: 0xd9, reg_a: *dest as u16, reg_b: *src as u16, literal: *literal as i64 }),
            DexInsn::MulIntLit8 { dest, src, literal } => Instruction::RegLiteral(RegLiteralInsn { opcode: 0xda, reg_a: *dest as u16, reg_b: *src as u16, literal: *literal as i64 }),
            DexInsn::DivIntLit8 { dest, src, literal } => Instruction::RegLiteral(RegLiteralInsn { opcode: 0xdb, reg_a: *dest as u16, reg_b: *src as u16, literal: *literal as i64 }),
            DexInsn::RemIntLit8 { dest, src, literal } => Instruction::RegLiteral(RegLiteralInsn { opcode: 0xdc, reg_a: *dest as u16, reg_b: *src as u16, literal: *literal as i64 }),
            DexInsn::AndIntLit8 { dest, src, literal } => Instruction::RegLiteral(RegLiteralInsn { opcode: 0xdd, reg_a: *dest as u16, reg_b: *src as u16, literal: *literal as i64 }),
            DexInsn::OrIntLit8 { dest, src, literal } => Instruction::RegLiteral(RegLiteralInsn { opcode: 0xde, reg_a: *dest as u16, reg_b: *src as u16, literal: *literal as i64 }),
            DexInsn::XorIntLit8 { dest, src, literal } => Instruction::RegLiteral(RegLiteralInsn { opcode: 0xdf, reg_a: *dest as u16, reg_b: *src as u16, literal: *literal as i64 }),
            DexInsn::ShlIntLit8 { dest, src, literal } => Instruction::RegLiteral(RegLiteralInsn { opcode: 0xe0, reg_a: *dest as u16, reg_b: *src as u16, literal: *literal as i64 }),
            DexInsn::ShrIntLit8 { dest, src, literal } => Instruction::RegLiteral(RegLiteralInsn { opcode: 0xe1, reg_a: *dest as u16, reg_b: *src as u16, literal: *literal as i64 }),
            DexInsn::UshrIntLit8 { dest, src, literal } => Instruction::RegLiteral(RegLiteralInsn { opcode: 0xe2, reg_a: *dest as u16, reg_b: *src as u16, literal: *literal as i64 }),
            DexInsn::ConstString { dest, string } => Instruction::RegString(RegStringInsn { opcode: 0x1a, reg_a: *dest as u16, value: pools.string_at(*string) }),
            DexInsn::ConstStringJumbo { dest, string } => Instruction::RegString(RegStringInsn { opcode: 0x1b, reg_a: *dest as u16, value: pools.string_at(*string) }),
            DexInsn::ConstClass { dest, type_ } => Instruction::RegType(RegTypeInsn { opcode: 0x1c, reg_a: *dest as u16, reg_b: 0, type_descriptor: pools.type_descriptor(*type_) }),
            DexInsn::CheckCast { ref_, type_ } => Instruction::RegType(RegTypeInsn { opcode: 0x1f, reg_a: *ref_ as u16, reg_b: 0, type_descriptor: pools.type_descriptor(*type_) }),
            DexInsn::InstanceOf { dest, ref_, type_ } => Instruction::RegType(RegTypeInsn { opcode: 0x20, reg_a: *dest as u16, reg_b: *ref_ as u16, type_descriptor: pools.type_descriptor(*type_) }),
            DexInsn::NewInstance { dest, type_ } => Instruction::RegType(RegTypeInsn { opcode: 0x22, reg_a: *dest as u16, reg_b: 0, type_descriptor: pools.type_descriptor(*type_) }),
            DexInsn::NewArray { dest, size, type_ } => Instruction::RegType(RegTypeInsn { opcode: 0x23, reg_a: *dest as u16, reg_b: *size as u16, type_descriptor: pools.type_descriptor(*type_) }),
            DexInsn::Iget { dest, obj, field } => Instruction::RegField(RegFieldInsn { opcode: 0x52, reg_a: *dest as u16, reg_b: *obj as u16, field: pools.field_ref(*field) }),
            DexInsn::IgetWide { dest, obj, field } => Instruction::RegField(RegFieldInsn { opcode: 0x53, reg_a: *dest as u16, reg_b: *obj as u16, field: pools.field_ref(*field) }),
            DexInsn::IgetObject { dest, obj, field } => Instruction::RegField(RegFieldInsn { opcode: 0x54, reg_a: *dest as u16, reg_b: *obj as u16, field: pools.field_ref(*field) }),
            DexInsn::IgetBoolean { dest, obj, field } => Instruction::RegField(RegFieldInsn { opcode: 0x55, reg_a: *dest as u16, reg_b: *obj as u16, field: pools.field_ref(*field) }),
            DexInsn::IgetByte { dest, obj, field } => Instruction::RegField(RegFieldInsn { opcode: 0x56, reg_a: *dest as u16, reg_b: *obj as u16, field: pools.field_ref(*field) }),
            DexInsn::IgetChar { dest, obj, field } => Instruction::RegField(RegFieldInsn { opcode: 0x57, reg_a: *dest as u16, reg_b: *obj as u16, field: pools.field_ref(*field) }),
            DexInsn::IgetShort { dest, obj, field } => Instruction::RegField(RegFieldInsn { opcode: 0x58, reg_a: *dest as u16, reg_b: *obj as u16, field: pools.field_ref(*field) }),
            DexInsn::Iput { src, obj, field } => Instruction::RegField(RegFieldInsn { opcode: 0x59, reg_a: *src as u16, reg_b: *obj as u16, field: pools.field_ref(*field) }),
            DexInsn::IputWide { src, obj, field } => Instruction::RegField(RegFieldInsn { opcode: 0x5a, reg_a: *src as u16, reg_b: *obj as u16, field: pools.field_ref(*field) }),
            DexInsn::IputObject { src, obj, field } => Instruction::RegField(RegFieldInsn { opcode: 0x5b, reg_a: *src as u16, reg_b: *obj as u16, field: pools.field_ref(*field) }),
            DexInsn::IputBoolean { src, obj, field } => Instruction::RegField(RegFieldInsn { opcode: 0x5c, reg_a: *src as u16, reg_b: *obj as u16, field: pools.field_ref(*field) }),
            DexInsn::IputByte { src, obj, field } => Instruction::RegField(RegFieldInsn { opcode: 0x5d, reg_a: *src as u16, reg_b: *obj as u16, field: pools.field_ref(*field) }),
            DexInsn::IputChar { src, obj, field } => Instruction::RegField(RegFieldInsn { opcode: 0x5e, reg_a: *src as u16, reg_b: *obj as u16, field: pools.field_ref(*field) }),
            DexInsn::IputShort { src, obj, field } => Instruction::RegField(RegFieldInsn { opcode: 0x5f, reg_a: *src as u16, reg_b: *obj as u16, field: pools.field_ref(*field) }),
            DexInsn::Sget { dest, field } => Instruction::RegField(RegFieldInsn { opcode: 0x60, reg_a: *dest as u16, reg_b: 0, field: pools.field_ref(*field) }),
            DexInsn::SgetWide { dest, field } => Instruction::RegField(RegFieldInsn { opcode: 0x61, reg_a: *dest as u16, reg_b: 0, field: pools.field_ref(*field) }),
            DexInsn::SgetObject { dest, field } => Instruction::RegField(RegFieldInsn { opcode: 0x62, reg_a: *dest as u16, reg_b: 0, field: pools.field_ref(*field) }),
            DexInsn::SgetBoolean { dest, field } => Instruction::RegField(RegFieldInsn { opcode: 0x63, reg_a: *dest as u16, reg_b: 0, field: pools.field_ref(*field) }),
            DexInsn::SgetByte { dest, field } => Instruction::RegField(RegFieldInsn { opcode: 0x64, reg_a: *dest as u16, reg_b: 0, field: pools.field_ref(*field) }),
            DexInsn::SgetChar { dest, field } => Instruction::RegField(RegFieldInsn { opcode: 0x65, reg_a: *dest as u16, reg_b: 0, field: pools.field_ref(*field) }),
            DexInsn::SgetShort { dest, field } => Instruction::RegField(RegFieldInsn { opcode: 0x66, reg_a: *dest as u16, reg_b: 0, field: pools.field_ref(*field) }),
            DexInsn::Sput { src, field } => Instruction::RegField(RegFieldInsn { opcode: 0x67, reg_a: *src as u16, reg_b: 0, field: pools.field_ref(*field) }),
            DexInsn::SputWide { src, field } => Instruction::RegField(RegFieldInsn { opcode: 0x68, reg_a: *src as u16, reg_b: 0, field: pools.field_ref(*field) }),
            DexInsn::SputObject { src, field } => Instruction::RegField(RegFieldInsn { opcode: 0x69, reg_a: *src as u16, reg_b: 0, field: pools.field_ref(*field) }),
            DexInsn::SputBoolean { src, field } => Instruction::RegField(RegFieldInsn { opcode: 0x6a, reg_a: *src as u16, reg_b: 0, field: pools.field_ref(*field) }),
            DexInsn::SputByte { src, field } => Instruction::RegField(RegFieldInsn { opcode: 0x6b, reg_a: *src as u16, reg_b: 0, field: pools.field_ref(*field) }),
            DexInsn::SputChar { src, field } => Instruction::RegField(RegFieldInsn { opcode: 0x6c, reg_a: *src as u16, reg_b: 0, field: pools.field_ref(*field) }),
            DexInsn::SputShort { src, field } => Instruction::RegField(RegFieldInsn { opcode: 0x6d, reg_a: *src as u16, reg_b: 0, field: pools.field_ref(*field) }),
            DexInsn::InvokeVirtual { method, args } => Instruction::Invoke(InvokeInsn { opcode: 0x6e, registers: widen(args), method: pools.method_ref(*method) }),
            DexInsn::InvokeSuper { method, args } => Instruction::Invoke(InvokeInsn { opcode: 0x6f, registers: widen(args), method: pools.method_ref(*method) }),
            DexInsn::InvokeDirect { method, args } => Instruction::Invoke(InvokeInsn { opcode: 0x70, registers: widen(args), method: pools.method_ref(*method) }),
            DexInsn::InvokeStatic { method, args } => Instruction::Invoke(InvokeInsn { opcode: 0x71, registers: widen(args), method: pools.method_ref(*method) }),
            DexInsn::InvokeInterface { method, args } => Instruction::Invoke(InvokeInsn { opcode: 0x72, registers: widen(args), method: pools.method_ref(*method) }),
            DexInsn::InvokePolymorphic { method, proto: _, args } => Instruction::Invoke(InvokeInsn { opcode: 0xfa, registers: widen(args), method: pools.method_ref(*method) }),
            DexInsn::InvokeCustom { call_site, args } => Instruction::Invoke(InvokeInsn { opcode: 0xfc, registers: widen(args), method: call_site_ref(*call_site) }),
            DexInsn::InvokeVirtualRange { method, first_reg, count } => Instruction::InvokeRange(InvokeRangeInsn { opcode: 0x74, start_reg: *first_reg, reg_count: *count as u16, method: pools.method_ref(*method) }),
            DexInsn::InvokeSuperRange { method, first_reg, count } => Instruction::InvokeRange(InvokeRangeInsn { opcode: 0x75, start_reg: *first_reg, reg_count: *count as u16, method: pools.method_ref(*method) }),
            DexInsn::InvokeDirectRange { method, first_reg, count } => Instruction::InvokeRange(InvokeRangeInsn { opcode: 0x76, start_reg: *first_reg, reg_count: *count as u16, method: pools.method_ref(*method) }),
            DexInsn::InvokeStaticRange { method, first_reg, count } => Instruction::InvokeRange(InvokeRangeInsn { opcode: 0x77, start_reg: *first_reg, reg_count: *count as u16, method: pools.method_ref(*method) }),
            DexInsn::InvokeInterfaceRange { method, first_reg, count } => Instruction::InvokeRange(InvokeRangeInsn { opcode: 0x78, start_reg: *first_reg, reg_count: *count as u16, method: pools.method_ref(*method) }),
            DexInsn::InvokePolymorphicRange { method, proto: _, first_reg, count } => Instruction::InvokeRange(InvokeRangeInsn { opcode: 0xfb, start_reg: *first_reg, reg_count: *count as u16, method: pools.method_ref(*method) }),
            DexInsn::InvokeCustomRange { call_site, first_reg, count } => Instruction::InvokeRange(InvokeRangeInsn { opcode: 0xfd, start_reg: *first_reg, reg_count: *count as u16, method: call_site_ref(*call_site) }),
            DexInsn::ConstMethodHandle { dest, method_handle } => Instruction::RegLiteral(RegLiteralInsn { opcode: 0xfe, reg_a: *dest as u16, reg_b: 0, literal: *method_handle as i64 }),
            DexInsn::ConstMethodType { dest, proto } => Instruction::RegLiteral(RegLiteralInsn { opcode: 0xff, reg_a: *dest as u16, reg_b: 0, literal: *proto as i64 }),
            DexInsn::Goto { offset } => Instruction::Branch0(Branch0Insn { opcode: 0x28, offset: *offset as i32 }),
            DexInsn::Goto16 { offset } => Instruction::Branch0(Branch0Insn { opcode: 0x29, offset: *offset as i32 }),
            DexInsn::Goto32 { offset } => Instruction::Branch0(Branch0Insn { opcode: 0x2a, offset: *offset }),
            DexInsn::IfEqz { a, offset } => Instruction::Branch(BranchInsn { opcode: 0x38, reg_a: *a as u16, offset: *offset as i32 }),
            DexInsn::IfNez { a, offset } => Instruction::Branch(BranchInsn { opcode: 0x39, reg_a: *a as u16, offset: *offset as i32 }),
            DexInsn::IfLtz { a, offset } => Instruction::Branch(BranchInsn { opcode: 0x3a, reg_a: *a as u16, offset: *offset as i32 }),
            DexInsn::IfGez { a, offset } => Instruction::Branch(BranchInsn { opcode: 0x3b, reg_a: *a as u16, offset: *offset as i32 }),
            DexInsn::IfGtz { a, offset } => Instruction::Branch(BranchInsn { opcode: 0x3c, reg_a: *a as u16, offset: *offset as i32 }),
            DexInsn::IfLez { a, offset } => Instruction::Branch(BranchInsn { opcode: 0x3d, reg_a: *a as u16, offset: *offset as i32 }),
            DexInsn::PackedSwitch { test, payload_offset } => Instruction::Branch(BranchInsn { opcode: 0x2b, reg_a: *test as u16, offset: *payload_offset }),
            DexInsn::SparseSwitch { test, payload_offset } => Instruction::Branch(BranchInsn { opcode: 0x2c, reg_a: *test as u16, offset: *payload_offset }),
            DexInsn::FillArrayData { array, payload_offset } => Instruction::Branch(BranchInsn { opcode: 0x26, reg_a: *array as u16, offset: *payload_offset }),
            DexInsn::IfEq { a, b, offset } => Instruction::Branch2(Branch2Insn { opcode: 0x32, reg_a: *a as u16, reg_b: *b as u16, offset: *offset as i32 }),
            DexInsn::IfNe { a, b, offset } => Instruction::Branch2(Branch2Insn { opcode: 0x33, reg_a: *a as u16, reg_b: *b as u16, offset: *offset as i32 }),
            DexInsn::IfLt { a, b, offset } => Instruction::Branch2(Branch2Insn { opcode: 0x34, reg_a: *a as u16, reg_b: *b as u16, offset: *offset as i32 }),
            DexInsn::IfGe { a, b, offset } => Instruction::Branch2(Branch2Insn { opcode: 0x35, reg_a: *a as u16, reg_b: *b as u16, offset: *offset as i32 }),
            DexInsn::IfGt { a, b, offset } => Instruction::Branch2(Branch2Insn { opcode: 0x36, reg_a: *a as u16, reg_b: *b as u16, offset: *offset as i32 }),
            DexInsn::IfLe { a, b, offset } => Instruction::Branch2(Branch2Insn { opcode: 0x37, reg_a: *a as u16, reg_b: *b as u16, offset: *offset as i32 }),
            DexInsn::FilledNewArray { type_, args } => Instruction::FilledArray(FilledArrayInsn { opcode: 0x24, registers: widen(args), type_descriptor: pools.type_descriptor(*type_) }),
            DexInsn::FilledNewArrayRange { type_, first_reg, count } => Instruction::FilledArrayRange(FilledArrayRangeInsn { opcode: 0x25, start_reg: *first_reg, reg_count: *count as u16, type_descriptor: pools.type_descriptor(*type_) }),
            DexInsn::PackedSwitchPayload { first_key, targets } => Instruction::PackedSwitchData(PackedSwitchInsn { first_key: *first_key, targets: copy_i32s(targets) }),
            DexInsn::SparseSwitchPayload { keys_and_targets } => {
                let (keys, targets) = split_pairs(keys_and_targets);
                Instruction::SparseSwitchData(SparseSwitchInsn { keys, targets })
            },
            DexInsn::FillArrayDataPayload { element_width, data } => Instruction::FillArrayData(FillArrayInsn { element_width: *element_width, data: copy_bytes(data) }),
            DexInsn::RawInstruction { code_units } => Instruction::Raw(le_bytes_of(code_units)),
    }
}

/// What a DEX instruction holds.
pub enum DexInsnView {
    Nop,
    ReturnVoid,
    MoveResult { dest: u8 },
    MoveResultWide { dest: u8 },
    MoveResultObject { dest: u8 },
    MoveException { dest: u8 },
    Return { src: u8 },
    ReturnWide { src: u8 },
    ReturnObject { src: u8 },
    MonitorEnter { ref_: u8 },
    MonitorExit { ref_: u8 },
    Throw { exception: u8 },
    Move { dest: u8, src: u8 },
    MoveFrom16 { dest: u8, src: u16 },
    Move16 { dest: u16, src: u16 },
    MoveWide { dest: u8, src: u8 },
    MoveWideFrom16 { dest: u8, src: u16 },
    MoveWide16 { dest: u16, src: u16 },
    MoveObject { dest: u8, src: u8 },
    MoveObjectFrom16 { dest: u8, src: u16 },
    MoveObject16 { dest: u16, src: u16 },
    ArrayLength { dest: u8, array: u8 },
    NegInt { dest: u8, src: u8 },
    NotInt { dest: u8, src: u8 },
    NegLong { dest: u8, src: u8 },
    NotLong { dest: u8, src: u8 },
    NegFloat { dest: u8, src: u8 },
    NegDouble { dest: u8, src: u8 },
    IntToLong { dest: u8, src: u8 },
    IntToFloat { dest: u8, src: u8 },
    IntToDouble { dest: u8, src: u8 },
    LongToInt { dest: u8, src: u8 },
    LongToFloat { dest: u8, src: u8 },
    LongToDouble { dest: u8, src: u8 },
    FloatToInt { dest: u8, src: u8 },
    FloatToLong { dest: u8, src: u8 },
    FloatToDouble { dest: u8, src: u8 },
    DoubleToInt { dest: u8, src: u8 },
    DoubleToLong { dest: u8, src: u8 },
    DoubleToFloat { dest: u8, src: u8 },
    IntToByte { dest: u8, src: u8 },
    IntToChar { dest: u8, src: u8 },
    IntToShort { dest: u8, src: u8 },
    AddInt2Addr { dest_a: u8, b: u8 },
    SubInt2Addr { dest_a: u8, b: u8 },
    MulInt2Addr { dest_a: u8, b: u8 },
    DivInt2Addr { dest_a: u8, b: u8 },
    RemInt2Addr { dest_a: u8, b: u8 },
    AndInt2Addr { dest_a: u8, b: u8 },
    OrInt2Addr { dest_a: u8, b: u8 },
    XorInt2Addr { dest_a: u8, b: u8 },
    ShlInt2Addr { dest_a: u8, b: u8 },
    ShrInt2Addr { dest_a: u8, b: u8 },
    UshrInt2Addr { dest_a: u8, b: u8 },
    AddLong2Addr { dest_a: u8, b: u8 },
    SubLong2Addr { dest_a: u8, b: u8 },
    MulLong2Addr { dest_a: u8, b: u8 },
    DivLong2Addr { dest_a: u8, b: u8 },
    RemLong2Addr { dest_a: u8, b: u8 },
    AndLong2Addr { dest_a: u8, b: u8 },
    OrLong2Addr { dest_a: u8, b: u8 },
    XorLong2Addr { dest_a: u8, b: u8 },
    ShlLong2Addr { dest_a: u8, b: u8 },
    ShrLong2Addr { dest_a: u8, b: u8 },
    UshrLong2Addr { dest_a: u8, b: u8 },
    AddFloat2Addr { dest_a: u8, b: u8 },
    SubFloat2Addr { dest_a: u8, b: u8 },
    MulFloat2Addr { dest_a: u8, b: u8 },
    DivFloat2Addr { dest_a: u8, b: u8 },
    RemFloat2Addr { dest_a: u8, b: u8 },
    AddDouble2Addr { dest_a: u8, b: u8 },
    SubDouble2Addr { dest_a: u8, b: u8 },
    MulDouble2Addr { dest_a: u8, b: u8 },
    DivDouble2Addr { dest_a: u8, b: u8 },
    RemDouble2Addr { dest_a: u8, b: u8 },
    CmpLFloat { dest: u8, a: u8, b: u8 },
    CmpGFloat { dest: u8, a: u8, b: u8 },
    CmpLDouble { dest: u8, a: u8, b: u8 },
    CmpGDouble { dest: u8, a: u8, b: u8 },
    CmpLong { dest: u8, a: u8, b: u8 },
    Aget { dest: u8, array: u8, index: u8 },
    AgetWide { dest: u8, array: u8, index: u8 },
    AgetObject { dest: u8, array: u8, index: u8 },
    AgetBoolean { dest: u8, array: u8, index: u8 },
    AgetByte { dest: u8, array: u8, index: u8 },
    AgetChar { dest: u8, array: u8, index: u8 },
    AgetShort { dest: u8, array: u8, index: u8 },
    Aput { src: u8, array: u8, index: u8 },
    AputWide { src: u8, array: u8, index: u8 },
    AputObject { src: u8, array: u8, index: u8 },
    AputBoolean { src: u8, array: u8, index: u8 },
    AputByte { src: u8, array: u8, index: u8 },
    AputChar { src: u8, array: u8, index: u8 },
    AputShort { src: u8, array: u8, index: u8 },
    AddInt { dest: u8, a: u8, b: u8 },
    SubInt { dest: u8, a: u8, b: u8 },
    MulInt { dest: u8, a: u8, b: u8 },
    DivInt { dest: u8, a: u8, b: u8 },
    RemInt { dest: u8, a: u8, b: u8 },
    AndInt { dest: u8, a: u8, b: u8 },
    OrInt { dest: u8, a: u8, b: u8 },
    XorInt { dest: u8, a: u8, b: u8 },
    ShlInt { dest: u8, a: u8, b: u8 },
    ShrInt { dest: u8, a: u8, b: u8 },
    UshrInt { dest: u8, a: u8, b: u8 },
    AddLong { dest: u8, a: u8, b: u8 },
    SubLong { dest: u8, a: u8, b: u8 },
    MulLong { dest: u8, a: u8, b: u8 },
    DivLong { dest: u8, a: u8, b: u8 },
    RemLong { dest: u8, a: u8, b: u8 },
    AndLong { dest: u8, a: u8, b: u8 },
    OrLong { dest: u8, a: u8, b: u8 },
    XorLong { dest: u8, a: u8, b: u8 },
    ShlLong { dest: u8, a: u8, b: u8 },
    ShrLong { dest: u8, a: u8, b: u8 },
    UshrLong { dest: u8, a: u8, b: u8 },
    AddFloat { dest: u8, a: u8, b: u8 },
    SubFloat { dest: u8, a: u8, b: u8 },
    MulFloat { dest: u8, a: u8, b: u8 },
    DivFloat { dest: u8, a: u8, b: u8 },
    RemFloat { dest: u8, a: u8, b: u8 },
    AddDouble { dest: u8, a: u8, b: u8 },
    SubDouble { dest: u8, a: u8, b: u8 },
    MulDouble { dest: u8, a: u8, b: u8 },
    DivDouble { dest: u8, a: u8, b: u8 },
    RemDouble { dest: u8, a: u8, b: u8 },
    Const4 { dest: u8, value: i8 },
    Const16 { dest: u8, value: i16 },
    Const { dest: u8, value: i32 },
    ConstHigh16 { dest: u8, value: i16 },
    ConstWide16 { dest: u8, value: i16 },
    ConstWide32 { dest: u8, value: i32 },
    ConstWide { dest: u8, value: i64 },
    ConstWideHigh16 { dest: u8, value: i16 },
    AddIntLit16 { dest: u8, src: u8, literal: i16 },
    RsubIntLit16 { dest: u8, src: u8, literal: i16 },
    MulIntLit16 { dest: u8, src: u8, literal: i16 },
    DivIntLit16 { dest: u8, src: u8, literal: i16 },
    RemIntLit16 { dest: u8, src: u8, literal: i16 },
    AndIntLit16 { dest: u8, src: u8, literal: i16 },
    OrIntLit16 { dest: u8, src: u8, literal: i16 },
    XorIntLit16 { dest: u8, src: u8, literal: i16 },
    AddIntLit8 { dest: u8, src: u8, literal: i8 },
    RsubIntLit8 { dest: u8, src: u8, literal: i8 },
    MulIntLit8 { dest: u8, src: u8, literal: i8 },
    DivIntLit8 { dest: u8, src: u8, literal: i8 },
    RemIntLit8 { dest: u8, src: u8, literal: i8 },
    AndIntLit8 { dest: u8, src: u8, literal: i8 },
    OrIntLit8 { dest: u8, src: u8, literal: i8 },
    XorIntLit8 { dest: u8, src: u8, literal: i8 },
    ShlIntLit8 { dest: u8, src: u8, literal: i8 },
    ShrIntLit8 { dest: u8, src: u8, literal: i8 },
    UshrIntLit8 { dest: u8, src: u8, literal: i8 },
    ConstString { dest: u8, string: u32 },
    ConstStringJumbo { dest: u8, string: u32 },
    ConstClass { dest: u8, type_: u32 },
    CheckCast { ref_: u8, type_: u32 },
    InstanceOf { dest: u8, ref_: u8, type_: u32 },
    NewInstance { dest: u8, type_: u32 },
    NewArray { dest: u8, size: u8, type_: u32 },
    Iget { dest: u8, obj: u8, field: u32 },
    IgetWide { dest: u8, obj: u8, field: u32 },
    IgetObject { dest: u8, obj: u8, field: u32 },
    IgetBoolean { dest: u8, obj: u8, field: u32 },
    IgetByte { dest: u8, obj: u8, field: u32 },
    IgetChar { dest: u8, obj: u8, field: u32 },
    IgetShort { dest: u8, obj: u8, field: u32 },
    Iput { src: u8, obj: u8, field: u32 },
    IputWide { src: u8, obj: u8, field: u32 },
    IputObject { src: u8, obj: u8, field: u32 },
    IputBoolean { src: u8, obj: u8, field: u32 },
    IputByte { src: u8, obj: u8, field: u32 },
    IputChar { src: u8, obj: u8, field: u32 },
    IputShort { src: u8, obj: u8, field: u32 },
    Sget { dest: u8, field: u32 },
    SgetWide { dest: u8, field: u32 },
    SgetObject { dest: u8, field: u32 },
    SgetBoolean { dest: u8, field: u32 },
    SgetByte { dest: u8, field: u32 },
    SgetChar { dest: u8, field: u32 },
    SgetShort { dest: u8, field: u32 },
    Sput { src: u8, field: u32 },
    SputWide { src: u8, field: u32 },
    SputObject { src: u8, field: u32 },
    SputBoolean { src: u8, field: u32 },
    SputByte { src: u8, field: u32 },
    SputChar { src: u8, field: u32 },
    SputShort { src: u8, field: u32 },
    InvokeVirtual { method: u32, args: Seq<u8> },
    InvokeSuper { method: u32, args: Seq<u8> },
    InvokeDirect { method: u32, args: Seq<u8> },
    InvokeStatic { method: u32, args: Seq<u8> },
    InvokeInterface { method: u32, args: Seq<u8> },
    InvokePolymorphic { method: u32, proto: u16, args: Seq<u8> },
    InvokeCustom { call_site: u32, args: Seq<u8> },
    InvokeVirtualRange { method: u32, first_reg: u16, count: u8 },
    InvokeSuperRange { method: u32, first_reg: u16, count: u8 },
    InvokeDirectRange { method: u32, first_reg: u16, count: u8 },
    InvokeStaticRange { method: u32, first_reg: u16, count: u8 },
    InvokeInterfaceRange { method: u32, first_reg: u16, count: u8 },
    InvokePolymorphicRange { method: u32, proto: u16, first_reg: u16, count: u8 },
    InvokeCustomRange { call_site: u32, first_reg: u16, count: u8 },
    ConstMethodHandle { dest: u8, method_handle: u32 },
    ConstMethodType { dest: u8, proto: u16 },
    Goto { offset: i8 },
    Goto16 { offset: i16 },
    Goto32 { offset: i32 },
    IfEqz { a: u8, offset: i16 },
    IfNez { a: u8, offset: i16 },
    IfLtz { a: u8, offset: i16 },
    IfGez { a: u8, offset: i16 },
    IfGtz { a: u8, offset: i16 },
    IfLez { a: u8, offset: i16 },
    PackedSwitch { test: u8, payload_offset: i32 },
    SparseSwitch { test: u8, payload_offset: i32 },
    FillArrayData { array: u8, payload_offset: i32 },
    IfEq { a: u8, b: u8, offset: i16 },
    IfNe { a: u8, b: u8, offset: i16 },
    IfLt { a: u8, b: u8, offset: i16 },
    IfGe { a: u8, b: u8, offset: i16 },
    IfGt { a: u8, b: u8, offset: i16 },
    IfLe { a: u8, b: u8, offset: i16 },
    FilledNewArray { type_: u32, args: Seq<u8> },
    FilledNewArrayRange { type_: u32, first_reg: u16, count: u8 },
    PackedSwitchPayload { first_key: i32, targets: Seq<i32> },
    SparseSwitchPayload { keys_and_targets: Seq<(i32, i32)> },
    FillArrayDataPayload { element_width: u16, data: Seq<u8> },
    RawInstruction { code_units: Seq<u16> },
}

impl View for DexInsn {
    type V = DexInsnView;

    open spec fn view(&self) -> DexInsnView {
        match self {
            DexInsn::Nop => DexInsnView::Nop,
            DexInsn::ReturnVoid => DexInsnView::ReturnVoid,
            DexInsn::MoveResult { dest } => DexInsnView::MoveResult { dest: *dest },
            DexInsn::MoveResultWide { dest } => DexInsnView::MoveResultWide { dest: *dest },
            DexInsn::MoveResultObject { dest } => DexInsnView::MoveResultObject { dest: *dest },
            DexInsn::MoveException { dest } => DexInsnView::MoveException { dest: *dest },
            DexInsn::Return { src } => DexInsnView::Return { src: *src },
            DexInsn::ReturnWide { src } => DexInsnView::ReturnWide { src: *src },
            DexInsn::ReturnObject { src } => DexInsnView::ReturnObject { src: *src },
            DexInsn::MonitorEnter { ref_ } => DexInsnView::MonitorEnter { ref_: *ref_ },
            DexInsn::MonitorExit { ref_ } => DexInsnView::MonitorExit { ref_: *ref_ },
            DexInsn::Throw { exception } => DexInsnView::Throw { exception: *exception },
            DexInsn::Move { dest, src } => DexInsnView::Move { dest: *dest, src: *src },
            DexInsn::MoveFrom16 { dest, src } => DexInsnView::MoveFrom16 { dest: *dest, src: *src },
            DexInsn::Move16 { dest, src } => DexInsnView::Move16 { dest: *dest, src: *src },
            DexInsn::MoveWide { dest, src } => DexInsnView::MoveWide { dest: *dest, src: *src },
            DexInsn::MoveWideFrom16 { dest, src } => DexInsnView::MoveWideFrom16 { dest: *dest, src: *src },
            DexInsn::MoveWide16 { dest, src } => DexInsnView::MoveWide16 { dest: *dest, src: *src },
            DexInsn::MoveObject { dest, src } => DexInsnView::MoveObject { dest: *dest, src: *src },
            DexInsn::MoveObjectFrom16 { dest, src } => DexInsnView::MoveObjectFrom16 { dest: *dest, src: *src },
            DexInsn::MoveObject16 { dest, src } => DexInsnView::MoveObject16 { dest: *dest, src: *src },
            DexInsn::ArrayLength { dest, array } => DexInsnView::ArrayLength { dest: *dest, array: *array },
            DexInsn::NegInt { dest, src } => DexInsnView::NegInt { dest: *dest, src: *src },
            DexInsn::NotInt { dest, src } => DexInsnView::NotInt { dest: *dest, src: *src },
            DexInsn::NegLong { dest, src } => DexInsnView::NegLong { dest: *dest, src: *src },
            DexInsn::NotLong { dest, src } => DexInsnView::NotLong { dest: *dest, src: *src },
            DexInsn::NegFloat { dest, src } => DexInsnView::NegFloat { dest: *dest, src: *src },
            DexInsn::NegDouble { dest, src } => DexInsnView::NegDouble { dest: *dest, src: *src },
            DexInsn::IntToLong { dest, src } => DexInsnView::IntToLong { dest: *dest, src: *src },
            DexInsn::IntToFloat { dest, src } => DexInsnView::IntToFloat { dest: *dest, src: *src },
            DexInsn::IntToDouble { dest, src } => DexInsnView::IntToDouble { dest: *dest, src: *src },
            DexInsn::LongToInt { dest, src } => DexInsnView::LongToInt { dest: *dest, src: *src },
            DexInsn::LongToFloat { dest, src } => DexInsnView::LongToFloat { dest: *dest, src: *src },
            DexInsn::LongToDouble { dest, src } => DexInsnView::LongToDouble { dest: *dest, src: *src },
            DexInsn::FloatToInt { dest, src } => DexInsnView::FloatToInt { dest: *dest, src: *src },
            DexInsn::FloatToLong { dest, src } => DexInsnView::FloatToLong { dest: *dest, src: *src },
            DexInsn::FloatToDouble { dest, src } => DexInsnView::FloatToDouble { dest: *dest, src: *src },
            DexInsn::DoubleToInt { dest, src } => DexInsnView::DoubleToInt { dest: *dest, src: *src },
            DexInsn::DoubleToLong { dest, src } => DexInsnView::DoubleToLong { dest: *dest, src: *src },
            DexInsn::DoubleToFloat { dest, src } => DexInsnView::DoubleToFloat { dest: *dest, src: *src },
            DexInsn::IntToByte { dest, src } => DexInsnView::IntToByte { dest: *dest, src: *src },
            DexInsn::IntToChar { dest, src } => DexInsnView::IntToChar { dest: *dest, src: *src },
            DexInsn::IntToShort { dest, src } => DexInsnView::IntToShort { dest: *dest, src: *src },
            DexInsn::AddInt2Addr { dest_a, b } => DexInsnView::AddInt2Addr { dest_a: *dest_a, b: *b },
            DexInsn::SubInt2Addr { dest_a, b } => DexInsnView::SubInt2Addr { dest_a: *dest_a, b: *b },
            DexInsn::MulInt2Addr { dest_a, b } => DexInsnView::MulInt2Addr { dest_a: *dest_a, b: *b },
            DexInsn::DivInt2Addr { dest_a, b } => DexInsnView::DivInt2Addr { dest_a: *dest_a, b: *b },
            DexInsn::RemInt2Addr { dest_a, b } => DexInsnView::RemInt2Addr { dest_a: *dest_a, b: *b },
            DexInsn::AndInt2Addr { dest_a, b } => DexInsnView::AndInt2Addr { dest_a: *dest_a, b: *b },
            DexInsn::OrInt2Addr { dest_a, b } => DexInsnView::OrInt2Addr { dest_a: *dest_a, b: *b },
            DexInsn::XorInt2Addr { dest_a, b } => DexInsnView::XorInt2Addr { dest_a: *dest_a, b: *b },
            DexInsn::ShlInt2Addr { dest_a, b } => DexInsnView::ShlInt2Addr { dest_a: *dest_a, b: *b },
            DexInsn::ShrInt2Addr { dest_a, b } => DexInsnView::ShrInt2Addr { dest_a: *dest_a, b: *b },
            DexInsn::UshrInt2Addr { dest_a, b } => DexInsnView::UshrInt2Addr { dest_a: *dest_a, b: *b },
            DexInsn::AddLong2Addr { dest_a, b } => DexInsnView::AddLong2Addr { dest_a: *dest_a, b: *b },
            DexInsn::SubLong2Addr { dest_a, b } => DexInsnView::SubLong2Addr { dest_a: *dest_a, b: *b },
            DexInsn::MulLong2Addr { dest_a, b } => DexInsnView::MulLong2Addr { dest_a: *dest_a, b: *b },
            DexInsn::DivLong2Addr { dest_a, b } => DexInsnView::DivLong2Addr { dest_a: *dest_a, b: *b },
            DexInsn::RemLong2Addr { dest_a, b } => DexInsnView::RemLong2Addr { dest_a: *dest_a, b: *b },
            DexInsn::AndLong2Addr { dest_a, b } => DexInsnView::AndLong2Addr { dest_a: *dest_a, b: *b },
            DexInsn::OrLong2Addr { dest_a, b } => DexInsnView::OrLong2Addr { dest_a: *dest_a, b: *b },
            DexInsn::XorLong2Addr { dest_a, b } => DexInsnView::XorLong2Addr { dest_a: *dest_a, b: *b },
            DexInsn::ShlLong2Addr { dest_a, b } => DexInsnView::ShlLong2Addr { dest_a: *dest_a, b: *b },
            DexInsn::ShrLong2Addr { dest_a, b } => DexInsnView::ShrLong2Addr { dest_a: *dest_a, b: *b },
            DexInsn::UshrLong2Addr { dest_a, b } => DexInsnView::UshrLong2Addr { dest_a: *dest_a, b: *b },
            DexInsn::AddFloat2Addr { dest_a, b } => DexInsnView::AddFloat2Addr { dest_a: *dest_a, b: *b },
            DexInsn::SubFloat2Addr { dest_a, b } => DexInsnView::SubFloat2Addr { dest_a: *dest_a, b: *b },
            DexInsn::MulFloat2Addr { dest_a, b } => DexInsnView::MulFloat2Addr { dest_a: *dest_a, b: *b },
            DexInsn::DivFloat2Addr { dest_a, b } => DexInsnView::DivFloat2Addr { dest_a: *dest_a, b: *b },
            DexInsn::RemFloat2Addr { dest_a, b } => DexInsnView::RemFloat2Addr { dest_a: *dest_a, b: *b },
            DexInsn::AddDouble2Addr { dest_a, b } => DexInsnView::AddDouble2Addr { dest_a: *dest_a, b: *b },
            DexInsn::SubDouble2Addr { dest_a, b } => DexInsnView::SubDouble2Addr { dest_a: *dest_a, b: *b },
            DexInsn::MulDouble2Addr { dest_a, b } => DexInsnView::MulDouble2Addr { dest_a: *dest_a, b: *b },
            DexInsn::DivDouble2Addr { dest_a, b } => DexInsnView::DivDouble2Addr { dest_a: *dest_a, b: *b },
            DexInsn::RemDouble2Addr { dest_a, b } => DexInsnView::RemDouble2Addr { dest_a: *dest_a, b: *b },
            DexInsn::CmpLFloat { dest, a, b } => DexInsnView::CmpLFloat { dest: *dest, a: *a, b: *b },
            DexInsn::CmpGFloat { dest, a, b } => DexInsnView::CmpGFloat { dest: *dest, a: *a, b: *b },
            DexInsn::CmpLDouble { dest, a, b } => DexInsnView::CmpLDouble { dest: *dest, a: *a, b: *b },
            DexInsn::CmpGDouble { dest, a, b } => DexInsnView::CmpGDouble { dest: *dest, a: *a, b: *b },
            DexInsn::CmpLong { dest, a, b } => DexInsnView::CmpLong { dest: *dest, a: *a, b: *b },
            DexInsn::Aget { dest, array, index } => DexInsnView::Aget { dest: *dest, array: *array, index: *index },
            DexInsn::AgetWide { dest, array, index } => DexInsnView::AgetWide { dest: *dest, array: *array, index: *index },
            DexInsn::AgetObject { dest, array, index } => DexInsnView::AgetObject { dest: *dest, array: *array, index: *index },
            DexInsn::AgetBoolean { dest, array, index } => DexInsnView::AgetBoolean { dest: *dest, array: *array, index: *index },
            DexInsn::AgetByte { dest, array, index } => DexInsnView::AgetByte { dest: *dest, array: *array, index: *index },
            DexInsn::AgetChar { dest, array, index } => DexInsnView::AgetChar { dest: *dest, array: *array, index: *index },
            DexInsn::AgetShort { dest, array, index } => DexInsnView::AgetShort { dest: *dest, array: *array, index: *index },
            DexInsn::Aput { src, array, index } => DexInsnView::Aput { src: *src, array: *array, index: *index },
            DexInsn::AputWide { src, array, index } => DexInsnView::AputWide { src: *src, array: *array, index: *index },
            DexInsn::AputObject { src, array, index } => DexInsnView::AputObject { src: *src, array: *array, index: *index },
            DexInsn::AputBoolean { src, array, index } => DexInsnView::AputBoolean { src: *src, array: *array, index: *index },
            DexInsn::AputByte { src, array, index } => DexInsnView::AputByte { src: *src, array: *array, index: *index },
            DexInsn::AputChar { src, array, index } => DexInsnView::AputChar { src: *src, array: *array, index: *index },
            DexInsn::AputShort { src, array, index } => DexInsnView::AputShort { src: *src, array: *array, index: *index },
            DexInsn::AddInt { dest, a, b } => DexInsnView::AddInt { dest: *dest, a: *a, b: *b },
            DexInsn::SubInt { dest, a, b } => DexInsnView::SubInt { dest: *dest, a: *a, b: *b },
            DexInsn::MulInt { dest, a, b } => DexInsnView::MulInt { dest: *dest, a: *a, b: *b },
            DexInsn::DivInt { dest, a, b } => DexInsnView::DivInt { dest: *dest, a: *a, b: *b },
            DexInsn::RemInt { dest, a, b } => DexInsnView::RemInt { dest: *dest, a: *a, b: *b },
            DexInsn::AndInt { dest, a, b } => DexInsnView::AndInt { dest: *dest, a: *a, b: *b },
            DexInsn::OrInt { dest, a, b } => DexInsnView::OrInt { dest: *dest, a: *a, b: *b },
            DexInsn::XorInt { dest, a, b } => DexInsnView::XorInt { dest: *dest, a: *a, b: *b },
            DexInsn::ShlInt { dest, a, b } => DexInsnView::ShlInt { dest: *dest, a: *a, b: *b },
            DexInsn::ShrInt { dest, a, b } => DexInsnView::ShrInt { dest: *dest, a: *a, b: *b },
            DexInsn::UshrInt { dest, a, b } => DexInsnView::UshrInt { dest: *dest, a: *a, b: *b },
            DexInsn::AddLong { dest, a, b } => DexInsnView::AddLong { dest: *dest, a: *a, b: *b },
            DexInsn::SubLong { dest, a, b } => DexInsnView::SubLong { dest: *dest, a: *a, b: *b },
            DexInsn::MulLong { dest, a, b } => DexInsnView::MulLong { dest: *dest, a: *a, b: *b },
            DexInsn::DivLong { dest, a, b } => DexInsnView::DivLong { dest: *dest, a: *a, b: *b },
            DexInsn::RemLong { dest, a, b } => DexInsnView::RemLong { dest: *dest, a: *a, b: *b },
            DexInsn::AndLong { dest, a, b } => DexInsnView::AndLong { dest: *dest, a: *a, b: *b },
            DexInsn::OrLong { dest, a, b } => DexInsnView::OrLong { dest: *dest, a: *a, b: *b },
            DexInsn::XorLong { dest, a, b } => DexInsnView::XorLong { dest: *dest, a: *a, b: *b },
            DexInsn::ShlLong { dest, a, b } => DexInsnView::ShlLong { dest: *dest, a: *a, b: *b },
            DexInsn::ShrLong { dest, a, b } => DexInsnView::ShrLong { dest: *dest, a: *a, b: *b },
            DexInsn::UshrLong { dest, a, b } => DexInsnView::UshrLong { dest: *dest, a: *a, b: *b },
            DexInsn::AddFloat { dest, a, b } => DexInsnView::AddFloat { dest: *dest, a: *a, b: *b },
            DexInsn::SubFloat { dest, a, b } => DexInsnView::SubFloat { dest: *dest, a: *a, b: *b },
            DexInsn::MulFloat { dest, a, b } => DexInsnView::MulFloat { dest: *dest, a: *a, b: *b },
            DexInsn::DivFloat { dest, a, b } => DexInsnView::DivFloat { dest: *dest, a: *a, b: *b },
            DexInsn::RemFloat { dest, a, b } => DexInsnView::RemFloat { dest: *dest, a: *a, b: *b },
            DexInsn::AddDouble { dest, a, b } => DexInsnView::AddDouble { dest: *dest, a: *a, b: *b },
            DexInsn::SubDouble { dest, a, b } => DexInsnView::SubDouble { dest: *dest, a: *a, b: *b },
            DexInsn::MulDouble { dest, a, b } => DexInsnView::MulDouble { dest: *dest, a: *a, b: *b },
            DexInsn::DivDouble { dest, a, b } => DexInsnView::DivDouble { dest: *dest, a: *a, b: *b },
            DexInsn::RemDouble { dest, a, b } => DexInsnView::RemDouble { dest: *dest, a: *a, b: *b },
            DexInsn::Const4 { dest, value } => DexInsnView::Const4 { dest: *dest, value: *value },
            DexInsn::Const16 { dest, value } => DexInsnView::Const16 { dest: *dest, value: *value },
            DexInsn::Const { dest, value } => DexInsnView::Const { dest: *dest, value: *value },
            DexInsn::ConstHigh16 { dest, value } => DexInsnView::ConstHigh16 { dest: *dest, value: *value },
            DexInsn::ConstWide16 { dest, value } => DexInsnView::ConstWide16 { dest: *dest, value: *value },
            DexInsn::ConstWide32 { dest, value } => DexInsnView::ConstWide32 { dest: *dest, value: *value },
            DexInsn::ConstWide { dest, value } => DexInsnView::ConstWide { dest: *dest, value: *value },
            DexInsn::ConstWideHigh16 { dest, value } => DexInsnView::ConstWideHigh16 { dest: *dest, value: *value },
            DexInsn::AddIntLit16 { dest, src, literal } => DexInsnView::AddIntLit16 { dest: *dest, src: *src, literal: *literal },
            DexInsn::RsubIntLit16 { dest, src, literal } => DexInsnView::RsubIntLit16 { dest: *dest, src: *src, literal: *literal },
            DexInsn::MulIntLit16 { dest, src, literal } => DexInsnView::MulIntLit16 { dest: *dest, src: *src, literal: *literal },
            DexInsn::DivIntLit16 { dest, src, literal } => DexInsnView::DivIntLit16 { dest: *dest, src: *src, literal: *literal },
            DexInsn::RemIntLit16 { dest, src, literal } => DexInsnView::RemIntLit16 { dest: *dest, src: *src, literal: *literal },
            DexInsn::AndIntLit16 { dest, src, literal } => DexInsnView::AndIntLit16 { dest: *dest, src: *src, literal: *literal },
            DexInsn::OrIntLit16 { dest, src, literal } => DexInsnView::OrIntLit16 { dest: *dest, src: *src, literal: *literal },
            DexInsn::XorIntLit16 { dest, src, literal } => DexInsnView::XorIntLit16 { dest: *dest, src: *src, literal: *literal },
            DexInsn::AddIntLit8 { dest, src, literal } => DexInsnView::AddIntLit8 { dest: *dest, src: *src, literal: *literal },
            DexInsn::RsubIntLit8 { dest, src, literal } => DexInsnView::RsubIntLit8 { dest: *dest, src: *src, literal: *literal },
            DexInsn::MulIntLit8 { dest, src, literal } => DexInsnView::MulIntLit8 { dest: *dest, src: *src, literal: *literal },
            DexInsn::DivIntLit8 { dest, src, literal } => DexInsnView::DivIntLit8 { dest: *dest, src: *src, literal: *literal },
            DexInsn::RemIntLit8 { dest, src, literal } => DexInsnView::RemIntLit8 { dest: *dest, src: *src, literal: *literal },
            DexInsn::AndIntLit8 { dest, src, literal } => DexInsnView::AndIntLit8 { dest: *dest, src: *src, literal: *literal },
            DexInsn::OrIntLit8 { dest, src, literal } => DexInsnView::OrIntLit8 { dest: *dest, src: *src, literal: *literal },
            DexInsn::XorIntLit8 { dest, src, literal } => DexInsnView::XorIntLit8 { dest: *dest, src: *src, literal: *literal },
            DexInsn::ShlIntLit8 { dest, src, literal } => DexInsnView::ShlIntLit8 { dest: *dest, src: *src, literal: *literal },
            DexInsn::ShrIntLit8 { dest, src, literal } => DexInsnView::ShrIntLit8 { dest: *dest, src: *src, literal: *literal },
            DexInsn::UshrIntLit8 { dest, src, literal } => DexInsnView::UshrIntLit8 { dest: *dest, src: *src, literal: *literal },
            DexInsn::ConstString { dest, string } => DexInsnView::ConstString { dest: *dest, string: *string },
            DexInsn::ConstStringJumbo { dest, string } => DexInsnView::ConstStringJumbo { dest: *dest, string: *string },
            DexInsn::ConstClass { dest, type_ } => DexInsnView::ConstClass { dest: *dest, type_: *type_ },
            DexInsn::CheckCast { ref_, type_ } => DexInsnView::CheckCast { ref_: *ref_, type_: *type_ },
            DexInsn::InstanceOf { dest, ref_, type_ } => DexInsnView::InstanceOf { dest: *dest, ref_: *ref_, type_: *type_ },
            DexInsn::NewInstance { dest, type_ } => DexInsnView::NewInstance { dest: *dest, type_: *type_ },
            DexInsn::NewArray { dest, size, type_ } => DexInsnView::NewArray { dest: *dest, size: *size, type_: *type_ },
            DexInsn::Iget { dest, obj, field } => DexInsnView::Iget { dest: *dest, obj: *obj, field: *field },
            DexInsn::IgetWide { dest, obj, field } => DexInsnView::IgetWide { dest: *dest, obj: *obj, field: *field },
            DexInsn::IgetObject { dest, obj, field } => DexInsnView::IgetObject { dest: *dest, obj: *obj, field: *field },
            DexInsn::IgetBoolean { dest, obj, field } => DexInsnView::IgetBoolean { dest: *dest, obj: *obj, field: *field },
            DexInsn::IgetByte { dest, obj, field } => DexInsnView::IgetByte { dest: *dest, obj: *obj, field: *field },
            DexInsn::IgetChar { dest, obj, field } => DexInsnView::IgetChar { dest: *dest, obj: *obj, field: *field },
            DexInsn::IgetShort { dest, obj, field } => DexInsnView::IgetShort { dest: *dest, obj: *obj, field: *field },
            DexInsn::Iput { src, obj, field } => DexInsnView::Iput { src: *src, obj: *obj, field: *field },
            DexInsn::IputWide { src, obj, field } => DexInsnView::IputWide { src: *src, obj: *obj, field: *field },
            DexInsn::IputObject { src, obj, field } => DexInsnView::IputObject { src: *src, obj: *obj, field: *field },
            DexInsn::IputBoolean { src, obj, field } => DexInsnView::IputBoolean { src: *src, obj: *obj, field: *field },
            DexInsn::IputByte { src, obj, field } => DexInsnView::IputByte { src: *src, obj: *obj, field: *field },
            DexInsn::IputChar { src, obj, field } => DexInsnView::IputChar { src: *src, obj: *obj, field: *field },
            DexInsn::IputShort { src, obj, field } => DexInsnView::IputShort { src: *src, obj: *obj, field: *field },
            DexInsn::Sget { dest, field } => DexInsnView::Sget { dest: *dest, field: *field },
            DexInsn::SgetWide { dest, field } => DexInsnView::SgetWide { dest: *dest, field: *field },
            DexInsn::SgetObject { dest, field } => DexInsnView::SgetObject { dest: *dest, field: *field },
            DexInsn::SgetBoolean { dest, field } => DexInsnView::SgetBoolean { dest: *dest, field: *field },
            DexInsn::SgetByte { dest, field } => DexInsnView::SgetByte { dest: *dest, field: *field },
            DexInsn::SgetChar { dest, field } => DexInsnView::SgetChar { dest: *dest, field: *field },
            DexInsn::SgetShort { dest, field } => DexInsnView::SgetShort { dest: *dest, field: *field },
            DexInsn::Sput { src, field } => DexInsnView::Sput { src: *src, field: *field },
            DexInsn::SputWide { src, field } => DexInsnView::SputWide { src: *src, field: *field },
            DexInsn::SputObject { src, field } => DexInsnView::SputObject { src: *src, field: *field },
            DexInsn::SputBoolean { src, field } => DexInsnView::SputBoolean { src: *src, field: *field },
            DexInsn::SputByte { src, field } => DexInsnView::SputByte { src: *src, field: *field },
            DexInsn::SputChar { src, field } => DexInsnView::SputChar { src: *src, field: *field },
            DexInsn::SputShort { src, field } => DexInsnView::SputShort { src: *src, field: *field },
            DexInsn::InvokeVirtual { method, args } => DexInsnView::InvokeVirtual { method: *method, args: args@ },
            DexInsn::InvokeSuper { method, args } => DexInsnView::InvokeSuper { method: *method, args: args@ },
            DexInsn::InvokeDirect { method, args } => DexInsnView::InvokeDirect { method: *method, args: args@ },
            DexInsn::InvokeStatic { method, args } => DexInsnView::InvokeStatic { method: *method, args: args@ },
            DexInsn::InvokeInterface { method, args } => DexInsnView::InvokeInterface { method: *method, args: args@ },
            DexInsn::InvokePolymorphic { method, proto, args } => DexInsnView::InvokePolymorphic { method: *method, proto: *proto, args: args@ },
            DexInsn::InvokeCustom { call_site, args } => DexInsnView::InvokeCustom { call_site: *call_site, args: args@ },
            DexInsn::InvokeVirtualRange { method, first_reg, count } => DexInsnView::InvokeVirtualRange { method: *method, first_reg: *first_reg, count: *count },
            DexInsn::InvokeSuperRange { method, first_reg, count } => DexInsnView::InvokeSuperRange { method: *method, first_reg: *first_reg, count: *count },
            DexInsn::InvokeDirectRange { method, first_reg, count } => DexInsnView::InvokeDirectRange { method: *method, first_reg: *first_reg, count: *count },
            DexInsn::InvokeStaticRange { method, first_reg, count } => DexInsnView::InvokeStaticRange { method: *method, first_reg: *first_reg, count: *count },
            DexInsn::InvokeInterfaceRange { method, first_reg, count } => DexInsnView::InvokeInterfaceRange { method: *method, first_reg: *first_reg, count: *count },
            DexInsn::InvokePolymorphicRange { method, proto, first_reg, count } => DexInsnView::InvokePolymorphicRange { method: *method, proto: *proto, first_reg: *first_reg, count: *count },
            DexInsn::InvokeCustomRange { call_site, first_reg, count } => DexInsnView::InvokeCustomRange { call_site: *call_site, first_reg: *first_reg, count: *count },
            DexInsn::ConstMethodHandle { dest, method_handle } => DexInsnView::ConstMethodHandle { dest: *dest, method_handle: *method_handle },
            DexInsn::ConstMethodType { dest, proto } => DexInsnView::ConstMethodType { dest: *dest, proto: *proto },
            DexInsn::Goto { offset } => DexInsnView::Goto { offset: *offset },
            DexInsn::Goto16 { offset } => DexInsnView::Goto16 { offset: *offset },
            DexInsn::Goto32 { offset } => DexInsnView::Goto32 { offset: *offset },
            DexInsn::IfEqz { a, offset } => DexInsnView::IfEqz { a: *a, offset: *offset },
            DexInsn::IfNez { a, offset } => DexInsnView::IfNez { a: *a, offset: *offset },
            DexInsn::IfLtz { a, offset } => DexInsnView::IfLtz { a: *a, offset: *offset },
            DexInsn::IfGez { a, offset } => DexInsnView::IfGez { a: *a, offset: *offset },
            DexInsn::IfGtz { a, offset } => DexInsnView::IfGtz { a: *a, offset: *offset },
            DexInsn::IfLez { a, offset } => DexInsnView::IfLez { a: *a, offset: *offset },
            DexInsn::PackedSwitch { test, payload_offset } => DexInsnView::PackedSwitch { test: *test, payload_offset: *payload_offset },
            DexInsn::SparseSwitch { test, payload_offset } => DexInsnView::SparseSwitch { test: *test, payload_offset: *payload_offset },
            DexInsn::FillArrayData { array, payload_offset } => DexInsnView::FillArrayData { array: *array, payload_offset: *payload_offset },
            DexInsn::IfEq { a, b, offset } => DexInsnView::IfEq { a: *a, b: *b, offset: *offset },
            DexInsn::IfNe { a, b, offset } => DexInsnView::IfNe { a: *a, b: *b, offset: *offset },
            DexInsn::IfLt { a, b, offset } => DexInsnView::IfLt { a: *a, b: *b, offset: *offset },
            DexInsn::IfGe { a, b, offset } => DexInsnView::IfGe { a: *a, b: *b, offset: *offset },
            DexInsn::IfGt { a, b, offset } => DexInsnView::IfGt { a: *a, b: *b, offset: *offset },
            DexInsn::IfLe { a, b, offset } => DexInsnView::IfLe { a: *a, b: *b, offset: *offset },
            DexInsn::FilledNewArray { type_, args } => DexInsnView::FilledNewArray { type_: *type_, args: args@ },
            DexInsn::FilledNewArrayRange { type_, first_reg, count } => DexInsnView::FilledNewArrayRange { type_: *type_, first_reg: *first_reg, count: *count },
            DexInsn::PackedSwitchPayload { first_key, targets } => DexInsnView::PackedSwitchPayload { first_key: *first_key, targets: targets@ },
            DexInsn::SparseSwitchPayload { keys_and_targets } => DexInsnView::SparseSwitchPayload { keys_and_targets: keys_and_targets@ },
            DexInsn::FillArrayDataPayload { element_width, data } => DexInsnView::FillArrayDataPayload { element_width: *element_width, data: data@ },
            DexInsn::RawInstruction { code_units } => DexInsnView::RawInstruction { code_units: code_units@ },
        }
    }
}

/// An instruction kept as its opcode alone.
pub open spec fn raw_view(opcode: u16) -> DexInsnView {
    DexInsnView::RawInstruction { code_units: seq![opcode] }
}

/// A call over these registers needs the range form: more than five of
/// them, or one above 15.
pub open spec fn needs_range_spec(regs: Seq<u16>) -> bool {
    regs.len() > 5 || exists|k: int| 0 <= k < regs.len() && regs[k] > 15
}

/// Keys paired with targets, as far as both go.
pub open spec fn zip_spec(keys: Seq<i32>, targets: Seq<i32>) -> Seq<(i32, i32)> {
    Seq::new(if keys.len() <= targets.len() { keys.len() } else { targets.len() }, |i: int| (keys[i], targets[i]))
}

/// Bytes read back as little-endian code units; an odd last byte is a
/// unit of its own.
pub open spec fn units_of(bytes: Seq<u8>) -> Seq<u16> {
    Seq::new(
        ((bytes.len() + 1) / 2) as nat,
        |i: int| if 2 * i + 1 < bytes.len() { (bytes[2 * i] + 256 * bytes[2 * i + 1]) as u16 } else { bytes[2 * i] as u16 },
    )
}

fn raw_from_opcode(opcode: u16) -> (r: DexInsn)
    ensures
        r@ == raw_view(opcode),
{
    let code_units = vec![opcode];
    assert(code_units@ =~= seq![opcode]);
    DexInsn::RawInstruction { code_units }
}

fn needs_range(regs: &Vec<u16>) -> (r: bool)
    ensures
        r == needs_range_spec(regs@),
{
    if regs.len() > 5 {
        return true;
    }
    let n = regs.len();
    for k in 0..n
        invariant
            n == regs@.len(),
            forall|j: int| 0 <= j < k ==> regs@[j] <= 15,
    {
        if regs[k] > 15 {
            return true;
        }
    }
    false
}

fn first_or_zero(regs: &Vec<u16>) -> (r: u16)
    ensures
        r == (if regs@.len() > 0 { regs@[0] } else { 0u16 }),
{
    if regs.len() > 0 {
        regs[0]
    } else {
        0
    }
}

/// Registers cut to 8 bits.
fn narrow(regs: &Vec<u16>) -> (r: Vec<u8>)
    ensures
        r@ == regs@.map_values(|x: u16| x as u8),
{
    let mut out: Vec<u8> = Vec::new();
    let n = regs.len();
    for k in 0..n
        invariant
            n == regs@.len(),
            out@ == regs@.take(k as int).map_values(|x: u16| x as u8),
    {
        out.push(regs[k] as u8);
        assert(regs@.take(k + 1).map_values(|x: u16| x as u8) =~= regs@.take(k as int).map_values(|x: u16| x as u8).push(
            regs@[k as int] as u8,
        ));
    }
    assert(regs@.take(n as int) =~= regs@);
    out
}

fn zip_pairs(keys: &Vec<i32>, targets: &Vec<i32>) -> (r: Vec<(i32, i32)>)
    ensures
        r@ == zip_spec(keys@, targets@),
{
    let n = if keys.len() <= targets.len() { keys.len() } else { targets.len() };
    let mut out: Vec<(i32, i32)> = Vec::new();
    for k in 0..n
        invariant
            n == (if keys@.len() <= targets@.len() { keys@.len() } else { targets@.len() }),
            out@.len() == k,
            forall|j: int| 0 <= j < k ==> #[trigger] out@[j] == (keys@[j], targets@[j]),
    {
        out.push((keys[k], targets[k]));
    }
    assert(out@ =~= zip_spec(keys@, targets@));
    out
}

fn code_units_of(bytes: &Vec<u8>) -> (r: Vec<u16>)
    ensures
        r@ == units_of(bytes@),
{
    let n = bytes.len();
    let m = n / 2 + n % 2;
    let mut out: Vec<u16> = Vec::new();
    for k in 0..m
        invariant
            n == bytes@.len(),
            m == n / 2 + n % 2,
            out@.len() == k,
            forall|j: int| 0 <= j < k ==> #[trigger] out@[j] == units_of(bytes@)[j],
    {
        let u: u16 = if 2 * k + 1 < n {
            (bytes[2 * k] as u16) + (bytes[2 * k + 1] as u16) * 256
        } else {
            bytes[2 * k] as u16
        };
        out.push(u);
    }
    assert(out@ =~= units_of(bytes@));
    out
}

/// The DEX instruction a record writes as, `index` being the pool entry
/// its reference was interned as (unused when it refers to none). An
/// opcode the record shape does not carry is kept as a raw code unit.
pub open spec fn dex_of(insn: InstructionView, index: u32) -> DexInsnView {
    match insn {
        InstructionView::Simple { opcode } => match opcode {
            0x00 => DexInsnView::Nop,
            0x0e => DexInsnView::ReturnVoid,
            _ => raw_view(opcode),
        },
        InstructionView::Reg1 { opcode, reg_a } => {
            let a: u8 = reg_a as u8;
            match opcode {
                0x0a => DexInsnView::MoveResult { dest: a },
                0x0b => DexInsnView::MoveResultWide { dest: a },
                0x0c => DexInsnView::MoveResultObject { dest: a },
                0x0d => DexInsnView::MoveException { dest: a },
                0x0f => DexInsnView::Return { src: a },
                0x10 => DexInsnView::ReturnWide { src: a },
                0x11 => DexInsnView::ReturnObject { src: a },
                0x1d => DexInsnView::MonitorEnter { ref_: a },
                0x1e => DexInsnView::MonitorExit { ref_: a },
                0x27 => DexInsnView::Throw { exception: a },
                _ => raw_view(opcode),
            }
        }
        InstructionView::Reg2 { opcode, reg_a, reg_b } => {
            let a: u16 = reg_a;
            let b: u16 = reg_b;
            match opcode {
                0x01 => DexInsnView::Move {
                    dest: a as u8,
                    src: b as u8,
                },
                0x02 => DexInsnView::MoveFrom16 {
                    dest: a as u8,
                    src: b,
                },
                0x03 => DexInsnView::Move16 { dest: a, src: b },
                0x04 => DexInsnView::MoveWide {
                    dest: a as u8,
                    src: b as u8,
                },
                0x05 => DexInsnView::MoveWideFrom16 {
                    dest: a as u8,
                    src: b,
                },
                0x06 => DexInsnView::MoveWide16 { dest: a, src: b },
                0x07 => DexInsnView::MoveObject {
                    dest: a as u8,
                    src: b as u8,
                },
                0x08 => DexInsnView::MoveObjectFrom16 {
                    dest: a as u8,
                    src: b,
                },
                0x09 => DexInsnView::MoveObject16 { dest: a, src: b },
                0x21 => DexInsnView::ArrayLength {
                    dest: a as u8,
                    array: b as u8,
                },
                0x7b => DexInsnView::NegInt {
                    dest: a as u8,
                    src: b as u8,
                },
                0x7c => DexInsnView::NotInt {
                    dest: a as u8,
                    src: b as u8,
                },
                0x7d => DexInsnView::NegLong {
                    dest: a as u8,
                    src: b as u8,
                },
                0x7e => DexInsnView::NotLong {
                    dest: a as u8,
                    src: b as u8,
                },
                0x7f => DexInsnView::NegFloat {
                    dest: a as u8,
                    src: b as u8,
                },
                0x80 => DexInsnView::NegDouble {
                    dest: a as u8,
                    src: b as u8,
                },
                0x81 => DexInsnView::IntToLong {
                    dest: a as u8,
                    src: b as u8,
                },
                0x82 => DexInsnView::IntToFloat {
                    dest: a as u8,
                    src: b as u8,
                },
                0x83 => DexInsnView::IntToDouble {
                    dest: a as u8,
                    src: b as u8,
                },
                0x84 => DexInsnView::LongToInt {
                    dest: a as u8,
                    src: b as u8,
                },
                0x85 => DexInsnView::LongToFloat {
                    dest: a as u8,
                    src: b as u8,
                },
                0x86 => DexInsnView::LongToDouble {
                    dest: a as u8,
                    src: b as u8,
                },
                0x87 => DexInsnView::FloatToInt {
                    dest: a as u8,
                    src: b as u8,
                },
                0x88 => DexInsnView::FloatToLong {
                    dest: a as u8,
                    src: b as u8,
                },
                0x89 => DexInsnView::FloatToDouble {
                    dest: a as u8,
                    src: b as u8,
                },
                0x8a => DexInsnView::DoubleToInt {
                    dest: a as u8,
                    src: b as u8,
                },
                0x8b => DexInsnView::DoubleToLong {
                    dest: a as u8,
                    src: b as u8,
                },
                0x8c => DexInsnView::DoubleToFloat {
                    dest: a as u8,
                    src: b as u8,
                },
                0x8d => DexInsnView::IntToByte {
                    dest: a as u8,
                    src: b as u8,
                },
                0x8e => DexInsnView::IntToChar {
                    dest: a as u8,
                    src: b as u8,
                },
                0x8f => DexInsnView::IntToShort {
                    dest: a as u8,
                    src: b as u8,
                },
                0xb0 => DexInsnView::AddInt2Addr {
                    dest_a: a as u8,
                    b: b as u8,
                },
                0xb1 => DexInsnView::SubInt2Addr {
                    dest_a: a as u8,
                    b: b as u8,
                },
                0xb2 => DexInsnView::MulInt2Addr {
                    dest_a: a as u8,
                    b: b as u8,
                },
                0xb3 => DexInsnView::DivInt2Addr {
                    dest_a: a as u8,
                    b: b as u8,
                },
                0xb4 => DexInsnView::RemInt2Addr {
                    dest_a: a as u8,
                    b: b as u8,
                },
                0xb5 => DexInsnView::AndInt2Addr {
                    dest_a: a as u8,
                    b: b as u8,
                },
                0xb6 => DexInsnView::OrInt2Addr {
                    dest_a: a as u8,
                    b: b as u8,
                },
                0xb7 => DexInsnView::XorInt2Addr {
                    dest_a: a as u8,
                    b: b as u8,
                },
                0xb8 => DexInsnView::ShlInt2Addr {
                    dest_a: a as u8,
                    b: b as u8,
                },
                0xb9 => DexInsnView::ShrInt2Addr {
                    dest_a: a as u8,
                    b: b as u8,
                },
                0xba => DexInsnView::UshrInt2Addr {
                    dest_a: a as u8,
                    b: b as u8,
                },
                0xbb => DexInsnView::AddLong2Addr {
                    dest_a: a as u8,
                    b: b as u8,
                },
                0xbc => DexInsnView::SubLong2Addr {
                    dest_a: a as u8,
                    b: b as u8,
                },
                0xbd => DexInsnView::MulLong2Addr {
                    dest_a: a as u8,
                    b: b as u8,
                },
                0xbe => DexInsnView::DivLong2Addr {
                    dest_a: a as u8,
                    b: b as u8,
                },
                0xbf => DexInsnView::RemLong2Addr {
                    dest_a: a as u8,
                    b: b as u8,
                },
                0xc0 => DexInsnView::AndLong2Addr {
                    dest_a: a as u8,
                    b: b as u8,
                },
                0xc1 => DexInsnView::OrLong2Addr {
                    dest_a: a as u8,
                    b: b as u8,
                },
                0xc2 => DexInsnView::XorLong2Addr {
                    dest_a: a as u8,
                    b: b as u8,
                },
                0xc3 => DexInsnView::ShlLong2Addr {
                    dest_a: a as u8,
                    b: b as u8,
                },
                0xc4 => DexInsnView::ShrLong2Addr {
                    dest_a: a as u8,
                    b: b as u8,
                },
                0xc5 => DexInsnView::UshrLong2Addr {
                    dest_a: a as u8,
                    b: b as u8,
                },
                0xc6 => DexInsnView::AddFloat2Addr {
                    dest_a: a as u8,
                    b: b as u8,
                },
                0xc7 => DexInsnView::SubFloat2Addr {
                    dest_a: a as u8,
                    b: b as u8,
                },
                0xc8 => DexInsnView::MulFloat2Addr {
                    dest_a: a as u8,
                    b: b as u8,
                },
                0xc9 => DexInsnView::DivFloat2Addr {
                    dest_a: a as u8,
                    b: b as u8,
                },
                0xca => DexInsnView::RemFloat2Addr {
                    dest_a: a as u8,
                    b: b as u8,
                },
                0xcb => DexInsnView::AddDouble2Addr {
                    dest_a: a as u8,
                    b: b as u8,
                },
                0xcc => DexInsnView::SubDouble2Addr {
                    dest_a: a as u8,
                    b: b as u8,
                },
                0xcd => DexInsnView::MulDouble2Addr {
                    dest_a: a as u8,
                    b: b as u8,
                },
                0xce => DexInsnView::DivDouble2Addr {
                    dest_a: a as u8,
                    b: b as u8,
                },
                0xcf => DexInsnView::RemDouble2Addr {
                    dest_a: a as u8,
                    b: b as u8,
                },
                _ => raw_view(opcode),
            }
        }
        InstructionView::Reg3 { opcode, reg_a, reg_b, reg_c } => {
            let a: u8 = reg_a as u8;

            let b: u8 = reg_b as u8;

            let c: u8 = reg_c as u8;
            match opcode {
                0x2d => DexInsnView::CmpLFloat {
                    dest: a,
                    a: b,
                    b: c,
                },
                0x2e => DexInsnView::CmpGFloat {
                    dest: a,
                    a: b,
                    b: c,
                },
                0x2f => DexInsnView::CmpLDouble {
                    dest: a,
                    a: b,
                    b: c,
                },
                0x30 => DexInsnView::CmpGDouble {
                    dest: a,
                    a: b,
                    b: c,
                },
                0x31 => DexInsnView::CmpLong {
                    dest: a,
                    a: b,
                    b: c,
                },
                0x44 => DexInsnView::Aget {
                    dest: a,
                    array: b,
                    index: c,
                },
                0x45 => DexInsnView::AgetWide {
                    dest: a,
                    array: b,
                    index: c,
                },
                0x46 => DexInsnView::AgetObject {
                    dest: a,
                    array: b,
                    index: c,
                },
                0x47 => DexInsnView::AgetBoolean {
                    dest: a,
                    array: b,
                    index: c,
                },
                0x48 => DexInsnView::AgetByte {
                    dest: a,
                    array: b,
                    index: c,
                },
                0x49 => DexInsnView::AgetChar {
                    dest: a,
                    array: b,
                    index: c,
                },
                0x4a => DexInsnView::AgetShort {
                    dest: a,
                    array: b,
                    index: c,
                },
                0x4b => DexInsnView::Aput {
                    src: a,
                    array: b,
                    index: c,
                },
                0x4c => DexInsnView::AputWide {
                    src: a,
                    array: b,
                    index: c,
                },
                0x4d => DexInsnView::AputObject {
                    src: a,
                    array: b,
                    index: c,
                },
                0x4e => DexInsnView::AputBoolean {
                    src: a,
                    array: b,
                    index: c,
                },
                0x4f => DexInsnView::AputByte {
                    src: a,
                    array: b,
                    index: c,
                },
                0x50 => DexInsnView::AputChar {
                    src: a,
                    array: b,
                    index: c,
                },
                0x51 => DexInsnView::AputShort {
                    src: a,
                    array: b,
                    index: c,
                },
                0x90 => DexInsnView::AddInt {
                    dest: a,
                    a: b,
                    b: c,
                },
                0x91 => DexInsnView::SubInt {
                    dest: a,
                    a: b,
                    b: c,
                },
                0x92 => DexInsnView::MulInt {
                    dest: a,
                    a: b,
                    b: c,
                },
                0x93 => DexInsnView::DivInt {
                    dest: a,
                    a: b,
                    b: c,
                },
                0x94 => DexInsnView::RemInt {
                    dest: a,
                    a: b,
                    b: c,
                },
                0x95 => DexInsnView::AndInt {
                    dest: a,
                    a: b,
                    b: c,
                },
                0x96 => DexInsnView::OrInt {
                    dest: a,
                    a: b,
                    b: c,
                },
                0x97 => DexInsnView::XorInt {
                    dest: a,
                    a: b,
                    b: c,
                },
                0x98 => DexInsnView::ShlInt {
                    dest: a,
                    a: b,
                    b: c,
                },
                0x99 => DexInsnView::ShrInt {
                    dest: a,
                    a: b,
                    b: c,
                },
                0x9a => DexInsnView::UshrInt {
                    dest: a,
                    a: b,
                    b: c,
                },
                0x9b => DexInsnView::AddLong {
                    dest: a,
                    a: b,
                    b: c,
                },
                0x9c => DexInsnView::SubLong {
                    dest: a,
                    a: b,
                    b: c,
                },
                0x9d => DexInsnView::MulLong {
                    dest: a,
                    a: b,
                    b: c,
                },
                0x9e => DexInsnView::DivLong {
                    dest: a,
                    a: b,
                    b: c,
                },
                0x9f => DexInsnView::RemLong {
                    dest: a,
                    a: b,
                    b: c,
                },
                0xa0 => DexInsnView::AndLong {
                    dest: a,
                    a: b,
                    b: c,
                },
                0xa1 => DexInsnView::OrLong {
                    dest: a,
                    a: b,
                    b: c,
                },
                0xa2 => DexInsnView::XorLong {
                    dest: a,
                    a: b,
                    b: c,
                },
                0xa3 => DexInsnView::ShlLong {
                    dest: a,
                    a: b,
                    b: c,
                },
                0xa4 => DexInsnView::ShrLong {
                    dest: a,
                    a: b,
                    b: c,
                },
                0xa5 => DexInsnView::UshrLong {
                    dest: a,
                    a: b,
                    b: c,
                },
                0xa6 => DexInsnView::AddFloat {
                    dest: a,
                    a: b,
                    b: c,
                },
                0xa7 => DexInsnView::SubFloat {
                    dest: a,
                    a: b,
                    b: c,
                },
                0xa8 => DexInsnView::MulFloat {
                    dest: a,
                    a: b,
                    b: c,
                },
                0xa9 => DexInsnView::DivFloat {
                    dest: a,
                    a: b,
                    b: c,
                },
                0xaa => DexInsnView::RemFloat {
                    dest: a,
                    a: b,
                    b: c,
                },
                0xab => DexInsnView::AddDouble {
                    dest: a,
                    a: b,
                    b: c,
                },
                0xac => DexInsnView::SubDouble {
                    dest: a,
                    a: b,
                    b: c,
                },
                0xad => DexInsnView::MulDouble {
                    dest: a,
                    a: b,
                    b: c,
                },
                0xae => DexInsnView::DivDouble {
                    dest: a,
                    a: b,
                    b: c,
                },
                0xaf => DexInsnView::RemDouble {
                    dest: a,
                    a: b,
                    b: c,
                },
                _ => raw_view(opcode),
            }
        }
        InstructionView::RegLiteral { opcode, reg_a, reg_b, literal } => {
            let a: u8 = reg_a as u8;

            let b: u8 = reg_b as u8;
            match opcode {
                0x12 => DexInsnView::Const4 {
                    dest: a,
                    value: literal as i8,
                },
                0x13 => DexInsnView::Const16 {
                    dest: a,
                    value: literal as i16,
                },
                0x14 => DexInsnView::Const {
                    dest: a,
                    value: literal as i32,
                },
                0x15 => DexInsnView::ConstHigh16 {
                    dest: a,
                    value: literal as i16,
                },
                0x16 => DexInsnView::ConstWide16 {
                    dest: a,
                    value: literal as i16,
                },
                0x17 => DexInsnView::ConstWide32 {
                    dest: a,
                    value: literal as i32,
                },
                0x18 => DexInsnView::ConstWide {
                    dest: a,
                    value: literal,
                },
                0x19 => DexInsnView::ConstWideHigh16 {
                    dest: a,
                    value: literal as i16,
                },
                0xd0 => DexInsnView::AddIntLit16 {
                    dest: a,
                    src: b,
                    literal: literal as i16,
                },
                0xd1 => DexInsnView::RsubIntLit16 {
                    dest: a,
                    src: b,
                    literal: literal as i16,
                },
                0xd2 => DexInsnView::MulIntLit16 {
                    dest: a,
                    src: b,
                    literal: literal as i16,
                },
                0xd3 => DexInsnView::DivIntLit16 {
                    dest: a,
                    src: b,
                    literal: literal as i16,
                },
                0xd4 => DexInsnView::RemIntLit16 {
                    dest: a,
                    src: b,
                    literal: literal as i16,
                },
                0xd5 => DexInsnView::AndIntLit16 {
                    dest: a,
                    src: b,
                    literal: literal as i16,
                },
                0xd6 => DexInsnView::OrIntLit16 {
                    dest: a,
                    src: b,
                    literal: literal as i16,
                },
                0xd7 => DexInsnView::XorIntLit16 {
                    dest: a,
                    src: b,
                    literal: literal as i16,
                },
                0xd8 => DexInsnView::AddIntLit8 {
                    dest: a,
                    src: b,
                    literal: literal as i8,
                },
                0xd9 => DexInsnView::RsubIntLit8 {
                    dest: a,
                    src: b,
                    literal: literal as i8,
                },
                0xda => DexInsnView::MulIntLit8 {
                    dest: a,
                    src: b,
                    literal: literal as i8,
                },
                0xdb => DexInsnView::DivIntLit8 {
                    dest: a,
                    src: b,
                    literal: literal as i8,
                },
                0xdc => DexInsnView::RemIntLit8 {
                    dest: a,
                    src: b,
                    literal: literal as i8,
                },
                0xdd => DexInsnView::AndIntLit8 {
                    dest: a,
                    src: b,
                    literal: literal as i8,
                },
                0xde => DexInsnView::OrIntLit8 {
                    dest: a,
                    src: b,
                    literal: literal as i8,
                },
                0xdf => DexInsnView::XorIntLit8 {
                    dest: a,
                    src: b,
                    literal: literal as i8,
                },
                0xe0 => DexInsnView::ShlIntLit8 {
                    dest: a,
                    src: b,
                    literal: literal as i8,
                },
                0xe1 => DexInsnView::ShrIntLit8 {
                    dest: a,
                    src: b,
                    literal: literal as i8,
                },
                0xe2 => DexInsnView::UshrIntLit8 {
                    dest: a,
                    src: b,
                    literal: literal as i8,
                },
                0xfe => DexInsnView::ConstMethodHandle {
                    dest: a,
                    method_handle: literal as u32,
                },
                0xff => DexInsnView::ConstMethodType {
                    dest: a,
                    proto: literal as u16,
                },
                _ => raw_view(opcode),
            }
        }
        InstructionView::RegString { opcode, reg_a, value } => {
            let string: u32 = index;
            match opcode {
                0x1a => DexInsnView::ConstString {
                    dest: reg_a as u8,
                    string,
                },
                0x1b => DexInsnView::ConstStringJumbo {
                    dest: reg_a as u8,
                    string,
                },
                _ => raw_view(opcode),
            }
        }
        InstructionView::RegType { opcode, reg_a, reg_b, type_descriptor } => {
            let type_: u32 = index;
            match opcode {
                0x1c => DexInsnView::ConstClass {
                    dest: reg_a as u8,
                    type_,
                },
                0x1f => DexInsnView::CheckCast {
                    ref_: reg_a as u8,
                    type_,
                },
                0x20 => DexInsnView::InstanceOf {
                    dest: reg_a as u8,
                    ref_: reg_b as u8,
                    type_,
                },
                0x22 => DexInsnView::NewInstance {
                    dest: reg_a as u8,
                    type_,
                },
                0x23 => DexInsnView::NewArray {
                    dest: reg_a as u8,
                    size: reg_b as u8,
                    type_,
                },
                _ => raw_view(opcode),
            }
        }
        InstructionView::RegField { opcode, reg_a, reg_b, field } => {
            let field: u32 = index;
            let a: u8 = reg_a as u8;

            let b: u8 = reg_b as u8;
            match opcode {
                0x52 => DexInsnView::Iget {
                    dest: a,
                    obj: b,
                    field,
                },
                0x53 => DexInsnView::IgetWide {
                    dest: a,
                    obj: b,
                    field,
                },
                0x54 => DexInsnView::IgetObject {
                    dest: a,
                    obj: b,
                    field,
                },
                0x55 => DexInsnView::IgetBoolean {
                    dest: a,
                    obj: b,
                    field,
                },
                0x56 => DexInsnView::IgetByte {
                    dest: a,
                    obj: b,
                    field,
                },
                0x57 => DexInsnView::IgetChar {
                    dest: a,
                    obj: b,
                    field,
                },
                0x58 => DexInsnView::IgetShort {
                    dest: a,
                    obj: b,
                    field,
                },
                0x59 => DexInsnView::Iput {
                    src: a,
                    obj: b,
                    field,
                },
                0x5a => DexInsnView::IputWide {
                    src: a,
                    obj: b,
                    field,
                },
                0x5b => DexInsnView::IputObject {
                    src: a,
                    obj: b,
                    field,
                },
                0x5c => DexInsnView::IputBoolean {
                    src: a,
                    obj: b,
                    field,
                },
                0x5d => DexInsnView::IputByte {
                    src: a,
                    obj: b,
                    field,
                },
                0x5e => DexInsnView::IputChar {
                    src: a,
                    obj: b,
                    field,
                },
                0x5f => DexInsnView::IputShort {
                    src: a,
                    obj: b,
                    field,
                },
                0x60 => DexInsnView::Sget { dest: a, field },
                0x61 => DexInsnView::SgetWide { dest: a, field },
                0x62 => DexInsnView::SgetObject { dest: a, field },
                0x63 => DexInsnView::SgetBoolean { dest: a, field },
                0x64 => DexInsnView::SgetByte { dest: a, field },
                0x65 => DexInsnView::SgetChar { dest: a, field },
                0x66 => DexInsnView::SgetShort { dest: a, field },
                0x67 => DexInsnView::Sput { src: a, field },
                0x68 => DexInsnView::SputWide { src: a, field },
                0x69 => DexInsnView::SputObject { src: a, field },
                0x6a => DexInsnView::SputBoolean { src: a, field },
                0x6b => DexInsnView::SputByte { src: a, field },
                0x6c => DexInsnView::SputChar { src: a, field },
                0x6d => DexInsnView::SputShort { src: a, field },
                _ => raw_view(opcode),
            }
        }
        InstructionView::Invoke { opcode, registers, method } => {
            let method: u32 = index;
            let needs_range: bool = needs_range_spec(registers);
            if needs_range {
                let first_reg: u16 = (if registers.len() > 0 { registers[0] } else { 0u16 });
                let count: u8 = registers.len() as u8;
                match opcode {
                    0x6e => DexInsnView::InvokeVirtualRange {
                        method,
                        first_reg,
                        count,
                    },
                    0x6f => DexInsnView::InvokeSuperRange {
                        method,
                        first_reg,
                        count,
                    },
                    0x70 => DexInsnView::InvokeDirectRange {
                        method,
                        first_reg,
                        count,
                    },
                    0x71 => DexInsnView::InvokeStaticRange {
                        method,
                        first_reg,
                        count,
                    },
                    0x72 => DexInsnView::InvokeInterfaceRange {
                        method,
                        first_reg,
                        count,
                    },
                    _ => raw_view(opcode),
                }
            } else {
                let args = registers.map_values(|x: u16| x as u8);
                match opcode {
                    0x6e => DexInsnView::InvokeVirtual { method, args },
                    0x6f => DexInsnView::InvokeSuper { method, args },
                    0x70 => DexInsnView::InvokeDirect { method, args },
                    0x71 => DexInsnView::InvokeStatic { method, args },
                    0x72 => DexInsnView::InvokeInterface { method, args },
                    _ => raw_view(opcode),
                }
            }
        }
        InstructionView::InvokeRange { opcode, start_reg, reg_count, method } => {
            let method: u32 = index;
            match opcode {
                0x74 => DexInsnView::InvokeVirtualRange {
                    method,
                    first_reg: start_reg,
                    count: reg_count as u8,
                },
                0x75 => DexInsnView::InvokeSuperRange {
                    method,
                    first_reg: start_reg,
                    count: reg_count as u8,
                },
                0x76 => DexInsnView::InvokeDirectRange {
                    method,
                    first_reg: start_reg,
                    count: reg_count as u8,
                },
                0x77 => DexInsnView::InvokeStaticRange {
                    method,
                    first_reg: start_reg,
                    count: reg_count as u8,
                },
                0x78 => DexInsnView::InvokeInterfaceRange {
                    method,
                    first_reg: start_reg,
                    count: reg_count as u8,
                },
                _ => raw_view(opcode),
            }
        }
        InstructionView::Branch0 { opcode, offset } => match opcode {
            0x28 => DexInsnView::Goto {
                offset: offset as i8,
            },
            0x29 => DexInsnView::Goto16 {
                offset: offset as i16,
            },
            0x2a => DexInsnView::Goto32 { offset: offset },
            _ => raw_view(opcode),
        },
        InstructionView::Branch { opcode, reg_a, offset } => {
            let a: u8 = reg_a as u8;
            match opcode {
                0x26 => DexInsnView::FillArrayData {
                    array: a,
                    payload_offset: offset,
                },
                0x2b => DexInsnView::PackedSwitch {
                    test: a,
                    payload_offset: offset,
                },
                0x2c => DexInsnView::SparseSwitch {
                    test: a,
                    payload_offset: offset,
                },
                0x38 => DexInsnView::IfEqz {
                    a,
                    offset: offset as i16,
                },
                0x39 => DexInsnView::IfNez {
                    a,
                    offset: offset as i16,
                },
                0x3a => DexInsnView::IfLtz {
                    a,
                    offset: offset as i16,
                },
                0x3b => DexInsnView::IfGez {
                    a,
                    offset: offset as i16,
                },
                0x3c => DexInsnView::IfGtz {
                    a,
                    offset: offset as i16,
                },
                0x3d => DexInsnView::IfLez {
                    a,
                    offset: offset as i16,
                },
                _ => raw_view(opcode),
            }
        }
        InstructionView::Branch2 { opcode, reg_a, reg_b, offset } => {
            let a: u8 = reg_a as u8;

            let b: u8 = reg_b as u8;
            match opcode {
                0x32 => DexInsnView::IfEq {
                    a,
                    b,
                    offset: offset as i16,
                },
                0x33 => DexInsnView::IfNe {
                    a,
                    b,
                    offset: offset as i16,
                },
                0x34 => DexInsnView::IfLt {
                    a,
                    b,
                    offset: offset as i16,
                },
                0x35 => DexInsnView::IfGe {
                    a,
                    b,
                    offset: offset as i16,
                },
                0x36 => DexInsnView::IfGt {
                    a,
                    b,
                    offset: offset as i16,
                },
                0x37 => DexInsnView::IfLe {
                    a,
                    b,
                    offset: offset as i16,
                },
                _ => raw_view(opcode),
            }
        }
        InstructionView::FilledArray { opcode, registers, type_descriptor } => {
            let type_: u32 = index;
            DexInsnView::FilledNewArray {
                type_,
                args: registers.map_values(|x: u16| x as u8),
            }
        }
        InstructionView::FilledArrayRange { opcode, start_reg, reg_count, type_descriptor } => {
            let type_: u32 = index;
            DexInsnView::FilledNewArrayRange {
                type_,
                first_reg: start_reg,
                count: reg_count as u8,
            }
        }
        InstructionView::PackedSwitchData { first_key, targets } => DexInsnView::PackedSwitchPayload {
            first_key: first_key,
            targets: targets,
        },
        InstructionView::SparseSwitchData { keys, targets } => DexInsnView::SparseSwitchPayload {
            keys_and_targets: zip_spec(keys, targets),
        },
        InstructionView::FillArrayData { element_width, data } => DexInsnView::FillArrayDataPayload {
            element_width: element_width,
            data: data,
        },
        InstructionView::Raw(bytes) => DexInsnView::RawInstruction { code_units: units_of(bytes) },
    }
}

/// The DEX instruction a record writes as, given the pool index its
/// reference was interned as: the opcode picks the operation, registers
/// narrow to the operation's width, and a call over more than five
/// registers, or one above 15, takes the range form.
#[verifier::rlimit(100)]
pub fn kotlin_to_dex(insn: &Instruction, index: u32) -> (r: DexInsn)
    ensures
        r@ == dex_of(insn@, index),
{
    match insn {
        Instruction::Simple(s) => match s.opcode {
            0x00 => DexInsn::Nop,
            0x0e => DexInsn::ReturnVoid,
            _ => raw_from_opcode(s.opcode),
        },
        Instruction::Reg1(r) => {
            let a: u8 = r.reg_a as u8;
            match r.opcode {
                0x0a => DexInsn::MoveResult { dest: a },
                0x0b => DexInsn::MoveResultWide { dest: a },
                0x0c => DexInsn::MoveResultObject { dest: a },
                0x0d => DexInsn::MoveException { dest: a },
                0x0f => DexInsn::Return { src: a },
                0x10 => DexInsn::ReturnWide { src: a },
                0x11 => DexInsn::ReturnObject { src: a },
                0x1d => DexInsn::MonitorEnter { ref_: a },
                0x1e => DexInsn::MonitorExit { ref_: a },
                0x27 => DexInsn::Throw { exception: a },
                _ => raw_from_opcode(r.opcode),
            }
        }
        Instruction::Reg2(r) => {
            let a: u16 = r.reg_a;
            let b: u16 = r.reg_b;
            match r.opcode {
                0x01 => DexInsn::Move {
                    dest: a as u8,
                    src: b as u8,
                },
                0x02 => DexInsn::MoveFrom16 {
                    dest: a as u8,
                    src: b,
                },
                0x03 => DexInsn::Move16 { dest: a, src: b },
                0x04 => DexInsn::MoveWide {
                    dest: a as u8,
                    src: b as u8,
                },
                0x05 => DexInsn::MoveWideFrom16 {
                    dest: a as u8,
                    src: b,
                },
                0x06 => DexInsn::MoveWide16 { dest: a, src: b },
                0x07 => DexInsn::MoveObject {
                    dest: a as u8,
                    src: b as u8,
                },
                0x08 => DexInsn::MoveObjectFrom16 {
                    dest: a as u8,
                    src: b,
                },
                0x09 => DexInsn::MoveObject16 { dest: a, src: b },
                0x21 => DexInsn::ArrayLength {
                    dest: a as u8,
                    array: b as u8,
                },
                0x7b => DexInsn::NegInt {
                    dest: a as u8,
                    src: b as u8,
                },
                0x7c => DexInsn::NotInt {
                    dest: a as u8,
                    src: b as u8,
                },
                0x7d => DexInsn::NegLong {
                    dest: a as u8,
                    src: b as u8,
                },
                0x7e => DexInsn::NotLong {
                    dest: a as u8,
                    src: b as u8,
                },
                0x7f => DexInsn::NegFloat {
                    dest: a as u8,
                    src: b as u8,
                },
                0x80 => DexInsn::NegDouble {
                    dest: a as u8,
                    src: b as u8,
                },
                0x81 => DexInsn::IntToLong {
                    dest: a as u8,
                    src: b as u8,
                },
                0x82 => DexInsn::IntToFloat {
                    dest: a as u8,
                    src: b as u8,
                },
                0x83 => DexInsn::IntToDouble {
                    dest: a as u8,
                    src: b as u8,
                },
                0x84 => DexInsn::LongToInt {
                    dest: a as u8,
                    src: b as u8,
                },
                0x85 => DexInsn::LongToFloat {
                    dest: a as u8,
                    src: b as u8,
                },
                0x86 => DexInsn::LongToDouble {
                    dest: a as u8,
                    src: b as u8,
                },
                0x87 => DexInsn::FloatToInt {
                    dest: a as u8,
                    src: b as u8,
                },
                0x88 => DexInsn::FloatToLong {
                    dest: a as u8,
                    src: b as u8,
                },
                0x89 => DexInsn::FloatToDouble {
                    dest: a as u8,
                    src: b as u8,
                },
                0x8a => DexInsn::DoubleToInt {
                    dest: a as u8,
                    src: b as u8,
                },
                0x8b => DexInsn::DoubleToLong {
                    dest: a as u8,
                    src: b as u8,
                },
                0x8c => DexInsn::DoubleToFloat {
                    dest: a as u8,
                    src: b as u8,
                },
                0x8d => DexInsn::IntToByte {
                    dest: a as u8,
                    src: b as u8,
                },
                0x8e => DexInsn::IntToChar {
                    dest: a as u8,
                    src: b as u8,
                },
                0x8f => DexInsn::IntToShort {
                    dest: a as u8,
                    src: b as u8,
                },
                0xb0 => DexInsn::AddInt2Addr {
                    dest_a: a as u8,
                    b: b as u8,
                },
                0xb1 => DexInsn::SubInt2Addr {
                    dest_a: a as u8,
                    b: b as u8,
                },
                0xb2 => DexInsn::MulInt2Addr {
                    dest_a: a as u8,
                    b: b as u8,
                },
                0xb3 => DexInsn::DivInt2Addr {
                    dest_a: a as u8,
                    b: b as u8,
                },
                0xb4 => DexInsn::RemInt2Addr {
                    dest_a: a as u8,
                    b: b as u8,
                },
                0xb5 => DexInsn::AndInt2Addr {
                    dest_a: a as u8,
                    b: b as u8,
                },
                0xb6 => DexInsn::OrInt2Addr {
                    dest_a: a as u8,
                    b: b as u8,
                },
                0xb7 => DexInsn::XorInt2Addr {
                    dest_a: a as u8,
                    b: b as u8,
                },
                0xb8 => DexInsn::ShlInt2Addr {
                    dest_a: a as u8,
                    b: b as u8,
                },
                0xb9 => DexInsn::ShrInt2Addr {
                    dest_a: a as u8,
                    b: b as u8,
                },
                0xba => DexInsn::UshrInt2Addr {
                    dest_a: a as u8,
                    b: b as u8,
                },
                0xbb => DexInsn::AddLong2Addr {
                    dest_a: a as u8,
                    b: b as u8,
                },
                0xbc => DexInsn::SubLong2Addr {
                    dest_a: a as u8,
                    b: b as u8,
                },
                0xbd => DexInsn::MulLong2Addr {
                    dest_a: a as u8,
                    b: b as u8,
                },
                0xbe => DexInsn::DivLong2Addr {
                    dest_a: a as u8,
                    b: b as u8,
                },
                0xbf => DexInsn::RemLong2Addr {
                    dest_a: a as u8,
                    b: b as u8,
                },
                0xc0 => DexInsn::AndLong2Addr {
                    dest_a: a as u8,
                    b: b as u8,
                },
                0xc1 => DexInsn::OrLong2Addr {
                    dest_a: a as u8,
                    b: b as u8,
                },
                0xc2 => DexInsn::XorLong2Addr {
                    dest_a: a as u8,
                    b: b as u8,
                },
                0xc3 => DexInsn::ShlLong2Addr {
                    dest_a: a as u8,
                    b: b as u8,
                },
                0xc4 => DexInsn::ShrLong2Addr {
                    dest_a: a as u8,
                    b: b as u8,
                },
                0xc5 => DexInsn::UshrLong2Addr {
                    dest_a: a as u8,
                    b: b as u8,
                },
                0xc6 => DexInsn::AddFloat2Addr {
                    dest_a: a as u8,
                    b: b as u8,
                },
                0xc7 => DexInsn::SubFloat2Addr {
                    dest_a: a as u8,
                    b: b as u8,
                },
                0xc8 => DexInsn::MulFloat2Addr {
                    dest_a: a as u8,
                    b: b as u8,
                },
                0xc9 => DexInsn::DivFloat2Addr {
                    dest_a: a as u8,
                    b: b as u8,
                },
                0xca => DexInsn::RemFloat2Addr {
                    dest_a: a as u8,
                    b: b as u8,
                },
                0xcb => DexInsn::AddDouble2Addr {
                    dest_a: a as u8,
                    b: b as u8,
                },
                0xcc => DexInsn::SubDouble2Addr {
                    dest_a: a as u8,
                    b: b as u8,
                },
                0xcd => DexInsn::MulDouble2Addr {
                    dest_a: a as u8,
                    b: b as u8,
                },
                0xce => DexInsn::DivDouble2Addr {
                    dest_a: a as u8,
                    b: b as u8,
                },
                0xcf => DexInsn::RemDouble2Addr {
                    dest_a: a as u8,
                    b: b as u8,
                },
                _ => raw_from_opcode(r.opcode),
            }
        }
        Instruction::Reg3(r) => {
            let a: u8 = r.reg_a as u8;

            let b: u8 = r.reg_b as u8;

            let c: u8 = r.reg_c as u8;
            match r.opcode {
                0x2d => DexInsn::CmpLFloat {
                    dest: a,
                    a: b,
                    b: c,
                },
                0x2e => DexInsn::CmpGFloat {
                    dest: a,
                    a: b,
                    b: c,
                },
                0x2f => DexInsn::CmpLDouble {
                    dest: a,
                    a: b,
                    b: c,
                },
                0x30 => DexInsn::CmpGDouble {
                    dest: a,
                    a: b,
                    b: c,
                },
                0x31 => DexInsn::CmpLong {
                    dest: a,
                    a: b,
                    b: c,
                },
                0x44 => DexInsn::Aget {
                    dest: a,
                    array: b,
                    index: c,
                },
                0x45 => DexInsn::AgetWide {
                    dest: a,
                    array: b,
                    index: c,
                },
                0x46 => DexInsn::AgetObject {
                    dest: a,
                    array: b,
                    index: c,
                },
                0x47 => DexInsn::AgetBoolean {
                    dest: a,
                    array: b,
                    index: c,
                },
                0x48 => DexInsn::AgetByte {
                    dest: a,
                    array: b,
                    index: c,
                },
                0x49 => DexInsn::AgetChar {
                    dest: a,
                    array: b,
                    index: c,
                },
                0x4a => DexInsn::AgetShort {
                    dest: a,
                    array: b,
                    index: c,
                },
                0x4b => DexInsn::Aput {
                    src: a,
                    array: b,
                    index: c,
                },
                0x4c => DexInsn::AputWide {
                    src: a,
                    array: b,
                    index: c,
                },
                0x4d => DexInsn::AputObject {
                    src: a,
                    array: b,
                    index: c,
                },
                0x4e => DexInsn::AputBoolean {
                    src: a,
                    array: b,
                    index: c,
                },
                0x4f => DexInsn::AputByte {
                    src: a,
                    array: b,
                    index: c,
                },
                0x50 => DexInsn::AputChar {
                    src: a,
                    array: b,
                    index: c,
                },
                0x51 => DexInsn::AputShort {
                    src: a,
                    array: b,
                    index: c,
                },
                0x90 => DexInsn::AddInt {
                    dest: a,
                    a: b,
                    b: c,
                },
                0x91 => DexInsn::SubInt {
                    dest: a,
                    a: b,
                    b: c,
                },
                0x92 => DexInsn::MulInt {
                    dest: a,
                    a: b,
                    b: c,
                },
                0x93 => DexInsn::DivInt {
                    dest: a,
                    a: b,
                    b: c,
                },
                0x94 => DexInsn::RemInt {
                    dest: a,
                    a: b,
                    b: c,
                },
                0x95 => DexInsn::AndInt {
                    dest: a,
                    a: b,
                    b: c,
                },
                0x96 => DexInsn::OrInt {
                    dest: a,
                    a: b,
                    b: c,
                },
                0x97 => DexInsn::XorInt {
                    dest: a,
                    a: b,
                    b: c,
                },
                0x98 => DexInsn::ShlInt {
                    dest: a,
                    a: b,
                    b: c,
                },
                0x99 => DexInsn::ShrInt {
                    dest: a,
                    a: b,
                    b: c,
                },
                0x9a => DexInsn::UshrInt {
                    dest: a,
                    a: b,
                    b: c,
                },
                0x9b => DexInsn::AddLong {
                    dest: a,
                    a: b,
                    b: c,
                },
                0x9c => DexInsn::SubLong {
                    dest: a,
                    a: b,
                    b: c,
                },
                0x9d => DexInsn::MulLong {
                    dest: a,
                    a: b,
                    b: c,
                },
                0x9e => DexInsn::DivLong {
                    dest: a,
                    a: b,
                    b: c,
                },
                0x9f => DexInsn::RemLong {
                    dest: a,
                    a: b,
                    b: c,
                },
                0xa0 => DexInsn::AndLong {
                    dest: a,
                    a: b,
                    b: c,
                },
                0xa1 => DexInsn::OrLong {
                    dest: a,
                    a: b,
                    b: c,
                },
                0xa2 => DexInsn::XorLong {
                    dest: a,
                    a: b,
                    b: c,
                },
                0xa3 => DexInsn::ShlLong {
                    dest: a,
                    a: b,
                    b: c,
                },
                0xa4 => DexInsn::ShrLong {
                    dest: a,
                    a: b,
                    b: c,
                },
                0xa5 => DexInsn::UshrLong {
                    dest: a,
                    a: b,
                    b: c,
                },
                0xa6 => DexInsn::AddFloat {
                    dest: a,
                    a: b,
                    b: c,
                },
                0xa7 => DexInsn::SubFloat {
                    dest: a,
                    a: b,
                    b: c,
                },
                0xa8 => DexInsn::MulFloat {
                    dest: a,
                    a: b,
                    b: c,
                },
                0xa9 => DexInsn::DivFloat {
                    dest: a,
                    a: b,
                    b: c,
                },
                0xaa => DexInsn::RemFloat {
                    dest: a,
                    a: b,
                    b: c,
                },
                0xab => DexInsn::AddDouble {
                    dest: a,
                    a: b,
                    b: c,
                },
                0xac => DexInsn::SubDouble {
                    dest: a,
                    a: b,
                    b: c,
                },
                0xad => DexInsn::MulDouble {
                    dest: a,
                    a: b,
                    b: c,
                },
                0xae => DexInsn::DivDouble {
                    dest: a,
                    a: b,
                    b: c,
                },
                0xaf => DexInsn::RemDouble {
                    dest: a,
                    a: b,
                    b: c,
                },
                _ => raw_from_opcode(r.opcode),
            }
        }
        Instruction::RegLiteral(r) => {
            let a: u8 = r.reg_a as u8;

            let b: u8 = r.reg_b as u8;
            match r.opcode {
                0x12 => DexInsn::Const4 {
                    dest: a,
                    value: r.literal as i8,
                },
                0x13 => DexInsn::Const16 {
                    dest: a,
                    value: r.literal as i16,
                },
                0x14 => DexInsn::Const {
                    dest: a,
                    value: r.literal as i32,
                },
                0x15 => DexInsn::ConstHigh16 {
                    dest: a,
                    value: r.literal as i16,
                },
                0x16 => DexInsn::ConstWide16 {
                    dest: a,
                    value: r.literal as i16,
                },
                0x17 => DexInsn::ConstWide32 {
                    dest: a,
                    value: r.literal as i32,
                },
                0x18 => DexInsn::ConstWide {
                    dest: a,
                    value: r.literal,
                },
                0x19 => DexInsn::ConstWideHigh16 {
                    dest: a,
                    value: r.literal as i16,
                },
                0xd0 => DexInsn::AddIntLit16 {
                    dest: a,
                    src: b,
                    literal: r.literal as i16,
                },
                0xd1 => DexInsn::RsubIntLit16 {
                    dest: a,
                    src: b,
                    literal: r.literal as i16,
                },
                0xd2 => DexInsn::MulIntLit16 {
                    dest: a,
                    src: b,
                    literal: r.literal as i16,
                },
                0xd3 => DexInsn::DivIntLit16 {
                    dest: a,
                    src: b,
                    literal: r.literal as i16,
                },
                0xd4 => DexInsn::RemIntLit16 {
                    dest: a,
                    src: b,
                    literal: r.literal as i16,
                },
                0xd5 => DexInsn::AndIntLit16 {
                    dest: a,
                    src: b,
                    literal: r.literal as i16,
                },
                0xd6 => DexInsn::OrIntLit16 {
                    dest: a,
                    src: b,
                    literal: r.literal as i16,
                },
                0xd7 => DexInsn::XorIntLit16 {
                    dest: a,
                    src: b,
                    literal: r.literal as i16,
                },
                0xd8 => DexInsn::AddIntLit8 {
                    dest: a,
                    src: b,
                    literal: r.literal as i8,
                },
                0xd9 => DexInsn::RsubIntLit8 {
                    dest: a,
                    src: b,
                    literal: r.literal as i8,
                },
                0xda => DexInsn::MulIntLit8 {
                    dest: a,
                    src: b,
                    literal: r.literal as i8,
                },
                0xdb => DexInsn::DivIntLit8 {
                    dest: a,
                    src: b,
                    literal: r.literal as i8,
                },
                0xdc => DexInsn::RemIntLit8 {
                    dest: a,
                    src: b,
                    literal: r.literal as i8,
                },
                0xdd => DexInsn::AndIntLit8 {
                    dest: a,
                    src: b,
                    literal: r.literal as i8,
                },
                0xde => DexInsn::OrIntLit8 {
                    dest: a,
                    src: b,
                    literal: r.literal as i8,
                },
                0xdf => DexInsn::XorIntLit8 {
                    dest: a,
                    src: b,
                    literal: r.literal as i8,
                },
                0xe0 => DexInsn::ShlIntLit8 {
                    dest: a,
                    src: b,
                    literal: r.literal as i8,
                },
                0xe1 => DexInsn::ShrIntLit8 {
                    dest: a,
                    src: b,
                    literal: r.literal as i8,
                },
                0xe2 => DexInsn::UshrIntLit8 {
                    dest: a,
                    src: b,
                    literal: r.literal as i8,
                },
                0xfe => DexInsn::ConstMethodHandle {
                    dest: a,
                    method_handle: r.literal as u32,
                },
                0xff => DexInsn::ConstMethodType {
                    dest: a,
                    proto: r.literal as u16,
                },
                _ => raw_from_opcode(r.opcode),
            }
        }
        Instruction::RegString(r) => {
            let string: u32 = index;
            match r.opcode {
                0x1a => DexInsn::ConstString {
                    dest: r.reg_a as u8,
                    string,
                },
                0x1b => DexInsn::ConstStringJumbo {
                    dest: r.reg_a as u8,
                    string,
                },
                _ => raw_from_opcode(r.opcode),
            }
        }
        Instruction::RegType(r) => {
            let type_: u32 = index;
            match r.opcode {
                0x1c => DexInsn::ConstClass {
                    dest: r.reg_a as u8,
                    type_,
                },
                0x1f => DexInsn::CheckCast {
                    ref_: r.reg_a as u8,
                    type_,
                },
                0x20 => DexInsn::InstanceOf {
                    dest: r.reg_a as u8,
                    ref_: r.reg_b as u8,
                    type_,
                },
                0x22 => DexInsn::NewInstance {
                    dest: r.reg_a as u8,
                    type_,
                },
                0x23 => DexInsn::NewArray {
                    dest: r.reg_a as u8,
                    size: r.reg_b as u8,
                    type_,
                },
                _ => raw_from_opcode(r.opcode),
            }
        }
        Instruction::RegField(r) => {
            let field: u32 = index;
            let a: u8 = r.reg_a as u8;

            let b: u8 = r.reg_b as u8;
            match r.opcode {
                0x52 => DexInsn::Iget {
                    dest: a,
                    obj: b,
                    field,
                },
                0x53 => DexInsn::IgetWide {
                    dest: a,
                    obj: b,
                    field,
                },
                0x54 => DexInsn::IgetObject {
                    dest: a,
                    obj: b,
                    field,
                },
                0x55 => DexInsn::IgetBoolean {
                    dest: a,
                    obj: b,
                    field,
                },
                0x56 => DexInsn::IgetByte {
                    dest: a,
                    obj: b,
                    field,
                },
                0x57 => DexInsn::IgetChar {
                    dest: a,
                    obj: b,
                    field,
                },
                0x58 => DexInsn::IgetShort {
                    dest: a,
                    obj: b,
                    field,
                },
                0x59 => DexInsn::Iput {
                    src: a,
                    obj: b,
                    field,
                },
                0x5a => DexInsn::IputWide {
                    src: a,
                    obj: b,
                    field,
                },
                0x5b => DexInsn::IputObject {
                    src: a,
                    obj: b,
                    field,
                },
                0x5c => DexInsn::IputBoolean {
                    src: a,
                    obj: b,
                    field,
                },
                0x5d => DexInsn::IputByte {
                    src: a,
                    obj: b,
                    field,
                },
                0x5e => DexInsn::IputChar {
                    src: a,
                    obj: b,
                    field,
                },
                0x5f => DexInsn::IputShort {
                    src: a,
                    obj: b,
                    field,
                },
                0x60 => DexInsn::Sget { dest: a, field },
                0x61 => DexInsn::SgetWide { dest: a, field },
                0x62 => DexInsn::SgetObject { dest: a, field },
                0x63 => DexInsn::SgetBoolean { dest: a, field },
                0x64 => DexInsn::SgetByte { dest: a, field },
                0x65 => DexInsn::SgetChar { dest: a, field },
                0x66 => DexInsn::SgetShort { dest: a, field },
                0x67 => DexInsn::Sput { src: a, field },
                0x68 => DexInsn::SputWide { src: a, field },
                0x69 => DexInsn::SputObject { src: a, field },
                0x6a => DexInsn::SputBoolean { src: a, field },
                0x6b => DexInsn::SputByte { src: a, field },
                0x6c => DexInsn::SputChar { src: a, field },
                0x6d => DexInsn::SputShort { src: a, field },
                _ => raw_from_opcode(r.opcode),
            }
        }
        Instruction::Invoke(r) => {
            let method: u32 = index;
            let needs_range: bool = needs_range(&r.registers);
            if needs_range {
                let first_reg: u16 = first_or_zero(&r.registers);
                let count: u8 = r.registers.len() as u8;
                match r.opcode {
                    0x6e => DexInsn::InvokeVirtualRange {
                        method,
                        first_reg,
                        count,
                    },
                    0x6f => DexInsn::InvokeSuperRange {
                        method,
                        first_reg,
                        count,
                    },
                    0x70 => DexInsn::InvokeDirectRange {
                        method,
                        first_reg,
                        count,
                    },
                    0x71 => DexInsn::InvokeStaticRange {
                        method,
                        first_reg,
                        count,
                    },
                    0x72 => DexInsn::InvokeInterfaceRange {
                        method,
                        first_reg,
                        count,
                    },
                    _ => raw_from_opcode(r.opcode),
                }
            } else {
                let args = narrow(&r.registers);
                match r.opcode {
                    0x6e => DexInsn::InvokeVirtual { method, args },
                    0x6f => DexInsn::InvokeSuper { method, args },
                    0x70 => DexInsn::InvokeDirect { method, args },
                    0x71 => DexInsn::InvokeStatic { method, args },
                    0x72 => DexInsn::InvokeInterface { method, args },
                    _ => raw_from_opcode(r.opcode),
                }
            }
        }
        Instruction::InvokeRange(r) => {
            let method: u32 = index;
            match r.opcode {
                0x74 => DexInsn::InvokeVirtualRange {
                    method,
                    first_reg: r.start_reg,
                    count: r.reg_count as u8,
                },
                0x75 => DexInsn::InvokeSuperRange {
                    method,
                    first_reg: r.start_reg,
                    count: r.reg_count as u8,
                },
                0x76 => DexInsn::InvokeDirectRange {
                    method,
                    first_reg: r.start_reg,
                    count: r.reg_count as u8,
                },
                0x77 => DexInsn::InvokeStaticRange {
                    method,
                    first_reg: r.start_reg,
                    count: r.reg_count as u8,
                },
                0x78 => DexInsn::InvokeInterfaceRange {
                    method,
                    first_reg: r.start_reg,
                    count: r.reg_count as u8,
                },
                _ => raw_from_opcode(r.opcode),
            }
        }
        Instruction::Branch0(r) => match r.opcode {
            0x28 => DexInsn::Goto {
                offset: r.offset as i8,
            },
            0x29 => DexInsn::Goto16 {
                offset: r.offset as i16,
            },
            0x2a => DexInsn::Goto32 { offset: r.offset },
            _ => raw_from_opcode(r.opcode),
        },
        Instruction::Branch(r) => {
            let a: u8 = r.reg_a as u8;
            match r.opcode {
                0x26 => DexInsn::FillArrayData {
                    array: a,
                    payload_offset: r.offset,
                },
                0x2b => DexInsn::PackedSwitch {
                    test: a,
                    payload_offset: r.offset,
                },
                0x2c => DexInsn::SparseSwitch {
                    test: a,
                    payload_offset: r.offset,
                },
                0x38 => DexInsn::IfEqz {
                    a,
                    offset: r.offset as i16,
                },
                0x39 => DexInsn::IfNez {
                    a,
                    offset: r.offset as i16,
                },
                0x3a => DexInsn::IfLtz {
                    a,
                    offset: r.offset as i16,
                },
                0x3b => DexInsn::IfGez {
                    a,
                    offset: r.offset as i16,
                },
                0x3c => DexInsn::IfGtz {
                    a,
                    offset: r.offset as i16,
                },
                0x3d => DexInsn::IfLez {
                    a,
                    offset: r.offset as i16,
                },
                _ => raw_from_opcode(r.opcode),
            }
        }
        Instruction::Branch2(r) => {
            let a: u8 = r.reg_a as u8;

            let b: u8 = r.reg_b as u8;
            match r.opcode {
                0x32 => DexInsn::IfEq {
                    a,
                    b,
                    offset: r.offset as i16,
                },
                0x33 => DexInsn::IfNe {
                    a,
                    b,
                    offset: r.offset as i16,
                },
                0x34 => DexInsn::IfLt {
                    a,
                    b,
                    offset: r.offset as i16,
                },
                0x35 => DexInsn::IfGe {
                    a,
                    b,
                    offset: r.offset as i16,
                },
                0x36 => DexInsn::IfGt {
                    a,
                    b,
                    offset: r.offset as i16,
                },
                0x37 => DexInsn::IfLe {
                    a,
                    b,
                    offset: r.offset as i16,
                },
                _ => raw_from_opcode(r.opcode),
            }
        }
        Instruction::FilledArray(r) => {
            let type_: u32 = index;
            DexInsn::FilledNewArray {
                type_,
                args: narrow(&r.registers),
            }
        }
        Instruction::FilledArrayRange(r) => {
            let type_: u32 = index;
            DexInsn::FilledNewArrayRange {
                type_,
                first_reg: r.start_reg,
                count: r.reg_count as u8,
            }
        }
        Instruction::PackedSwitchData(r) => DexInsn::PackedSwitchPayload {
            first_key: r.first_key,
            targets: copy_i32s(&r.targets),
        },
        Instruction::SparseSwitchData(r) => DexInsn::SparseSwitchPayload {
            keys_and_targets: zip_pairs(&r.keys, &r.targets),
        },
        Instruction::FillArrayData(r) => DexInsn::FillArrayDataPayload {
            element_width: r.element_width,
            data: copy_bytes(&r.data),
        },
        Instruction::Raw(bytes) => DexInsn::RawInstruction { code_units: code_units_of(bytes) },
    }
}

/// The pool index an instruction refers through, if any.
pub open spec fn ref_index(d: DexInsnView) -> u32 {
    match d {
        DexInsnView::ConstString { string, .. } => string,
        DexInsnView::ConstStringJumbo { string, .. } => string,
        DexInsnView::ConstClass { type_, .. } => type_,
        DexInsnView::CheckCast { type_, .. } => type_,
        DexInsnView::InstanceOf { type_, .. } => type_,
        DexInsnView::NewInstance { type_, .. } => type_,
        DexInsnView::NewArray { type_, .. } => type_,
        DexInsnView::Iget { field, .. } => field,
        DexInsnView::IgetWide { field, .. } => field,
        DexInsnView::IgetObject { field, .. } => field,
        DexInsnView::IgetBoolean { field, .. } => field,
        DexInsnView::IgetByte { field, .. } => field,
        DexInsnView::IgetChar { field, .. } => field,
        DexInsnView::IgetShort { field, .. } => field,
        DexInsnView::Iput { field, .. } => field,
        DexInsnView::IputWide { field, .. } => field,
        DexInsnView::IputObject { field, .. } => field,
        DexInsnView::IputBoolean { field, .. } => field,
        DexInsnView::IputByte { field, .. } => field,
        DexInsnView::IputChar { field, .. } => field,
        DexInsnView::IputShort { field, .. } => field,
        DexInsnView::Sget { field, .. } => field,
        DexInsnView::SgetWide { field, .. } => field,
        DexInsnView::SgetObject { field, .. } => field,
        DexInsnView::SgetBoolean { field, .. } => field,
        DexInsnView::SgetByte { field, .. } => field,
        DexInsnView::SgetChar { field, .. } => field,
        DexInsnView::SgetShort { field, .. } => field,
        DexInsnView::Sput { field, .. } => field,
        DexInsnView::SputWide { field, .. } => field,
        DexInsnView::SputObject { field, .. } => field,
        DexInsnView::SputBoolean { field, .. } => field,
        DexInsnView::SputByte { field, .. } => field,
        DexInsnView::SputChar { field, .. } => field,
        DexInsnView::SputShort { field, .. } => field,
        DexInsnView::InvokeVirtual { method, .. } => method,
        DexInsnView::InvokeSuper { method, .. } => method,
        DexInsnView::InvokeDirect { method, .. } => method,
        DexInsnView::InvokeStatic { method, .. } => method,
        DexInsnView::InvokeInterface { method, .. } => method,
        DexInsnView::InvokePolymorphic { method, .. } => method,
        DexInsnView::InvokeVirtualRange { method, .. } => method,
        DexInsnView::InvokeSuperRange { method, .. } => method,
        DexInsnView::InvokeDirectRange { method, .. } => method,
        DexInsnView::InvokeStaticRange { method, .. } => method,
        DexInsnView::InvokeInterfaceRange { method, .. } => method,
        DexInsnView::InvokePolymorphicRange { method, .. } => method,
        DexInsnView::FilledNewArray { type_, .. } => type_,
        DexInsnView::FilledNewArrayRange { type_, .. } => type_,
        _ => 0,
    }
}

/// The instructions a record writes back as themselves: all but the
/// custom and polymorphic calls, which records do not carry back, and the
/// short calls whose registers would need the range form.
pub open spec fn round_trips(d: DexInsnView) -> bool {
    match d {
        DexInsnView::InvokeCustom { .. } => false,
        DexInsnView::InvokeCustomRange { .. } => false,
        DexInsnView::InvokePolymorphic { .. } => false,
        DexInsnView::InvokePolymorphicRange { .. } => false,
        DexInsnView::InvokeVirtual { args, .. } => !needs_range_spec(args.map_values(|r: u8| r as u16)),
        DexInsnView::InvokeSuper { args, .. } => !needs_range_spec(args.map_values(|r: u8| r as u16)),
        DexInsnView::InvokeDirect { args, .. } => !needs_range_spec(args.map_values(|r: u8| r as u16)),
        DexInsnView::InvokeStatic { args, .. } => !needs_range_spec(args.map_values(|r: u8| r as u16)),
        DexInsnView::InvokeInterface { args, .. } => !needs_range_spec(args.map_values(|r: u8| r as u16)),
        _ => true,
    }
}

/// Reading an instruction as a record and writing the record back, with
/// the reference interned at the index it had, gives the instruction back.
#[verifier::rlimit(100)]
#[verifier::spinoff_prover]
pub proof fn lemma_dex_round_trip(d: DexInsn, p: PoolsView)
    requires
        round_trips(d@),
    ensures
        dex_of(kotlin_of(d, p), ref_index(d@)) == d@,
{
    match d {
        DexInsn::InvokeVirtual { args, .. } => {
            assert(args@.map_values(|r: u8| r as u16).map_values(|x: u16| x as u8) =~= args@);
        },
        DexInsn::InvokeSuper { args, .. } => {
            assert(args@.map_values(|r: u8| r as u16).map_values(|x: u16| x as u8) =~= args@);
        },
        DexInsn::InvokeDirect { args, .. } => {
            assert(args@.map_values(|r: u8| r as u16).map_values(|x: u16| x as u8) =~= args@);
        },
        DexInsn::InvokeStatic { args, .. } => {
            assert(args@.map_values(|r: u8| r as u16).map_values(|x: u16| x as u8) =~= args@);
        },
        DexInsn::InvokeInterface { args, .. } => {
            assert(args@.map_values(|r: u8| r as u16).map_values(|x: u16| x as u8) =~= args@);
        },
        DexInsn::FilledNewArray { args, .. } => {
            assert(args@.map_values(|r: u8| r as u16).map_values(|x: u16| x as u8) =~= args@);
        },
        DexInsn::SparseSwitchPayload { keys_and_targets } => {
            assert(zip_spec(
                keys_and_targets@.map_values(|e: (i32, i32)| e.0),
                keys_and_targets@.map_values(|e: (i32, i32)| e.1),
            ) =~= keys_and_targets@);
        },
        DexInsn::RawInstruction { code_units } => {
            lemma_units_of_le_bytes(code_units@);
        },
        _ => {},
    }
}

/// Code units written as little-endian bytes read back as themselves.
proof fn lemma_units_of_le_bytes(units: Seq<u16>)
    ensures
        units_of(le_bytes(units)) == units,
    decreases units.len(),
{
    if units.len() > 0 {
        lemma_units_of_le_bytes(units.drop_last());
        lemma_le_bytes_len(units);
        let b = le_bytes(units);
        let u = units.last();
        assert(b == le_bytes(units.drop_last()) + seq![(u % 256) as u8, (u / 256) as u8]);
        lemma_le_bytes_len(units.drop_last());
        assert forall|i: int| 0 <= i < units.len() implies #[trigger] units_of(b)[i] == units[i] by {
            if i < units.len() - 1 {
                assert(units_of(le_bytes(units.drop_last()))[i] == units.drop_last()[i]);
            } else {
                assert(b[2 * i] == (u % 256) as u8);
                assert(b[2 * i + 1] == (u / 256) as u8);
            }
        }
        assert(units_of(b) =~= units);
    } else {
        assert(units_of(le_bytes(units)) =~= units);
    }
}

proof fn lemma_le_bytes_len(units: Seq<u16>)
    ensures
        le_bytes(units).len() == 2 * units.len(),
    decreases units.len(),
{
    if units.len() > 0 {
        lemma_le_bytes_len(units.drop_last());
    }
}

/// The registers an instruction names in its own operand fields, in the
/// order the instruction format encodes them (vA or vAA first). A call's
/// argument list and a range's first register are not among them.
pub open spec fn operand_registers(d: DexInsnView) -> Seq<u16> {
    match d {
        DexInsnView::MoveResult { dest, .. } => seq![dest as u16],
        DexInsnView::MoveResultWide { dest, .. } => seq![dest as u16],
        DexInsnView::MoveResultObject { dest, .. } => seq![dest as u16],
        DexInsnView::MoveException { dest, .. } => seq![dest as u16],
        DexInsnView::Return { src, .. } => seq![src as u16],
        DexInsnView::ReturnWide { src, .. } => seq![src as u16],
        DexInsnView::ReturnObject { src, .. } => seq![src as u16],
        DexInsnView::MonitorEnter { ref_, .. } => seq![ref_ as u16],
        DexInsnView::MonitorExit { ref_, .. } => seq![ref_ as u16],
        DexInsnView::Throw { exception, .. } => seq![exception as u16],
        DexInsnView::Move { dest, src, .. } => seq![dest as u16, src as u16],
        DexInsnView::MoveFrom16 { dest, src, .. } => seq![dest as u16, src],
        DexInsnView::Move16 { dest, src, .. } => seq![dest, src],
        DexInsnView::MoveWide { dest, src, .. } => seq![dest as u16, src as u16],
        DexInsnView::MoveWideFrom16 { dest, src, .. } => seq![dest as u16, src],
        DexInsnView::MoveWide16 { dest, src, .. } => seq![dest, src],
        DexInsnView::MoveObject { dest, src, .. } => seq![dest as u16, src as u16],
        DexInsnView::MoveObjectFrom16 { dest, src, .. } => seq![dest as u16, src],
        DexInsnView::MoveObject16 { dest, src, .. } => seq![dest, src],
        DexInsnView::ArrayLength { dest, array, .. } => seq![dest as u16, array as u16],
        DexInsnView::NegInt { dest, src, .. } => seq![dest as u16, src as u16],
        DexInsnView::NotInt { dest, src, .. } => seq![dest as u16, src as u16],
        DexInsnView::NegLong { dest, src, .. } => seq![dest as u16, src as u16],
        DexInsnView::NotLong { dest, src, .. } => seq![dest as u16, src as u16],
        DexInsnView::NegFloat { dest, src, .. } => seq![dest as u16, src as u16],
        DexInsnView::NegDouble { dest, src, .. } => seq![dest as u16, src as u16],
        DexInsnView::IntToLong { dest, src, .. } => seq![dest as u16, src as u16],
        DexInsnView::IntToFloat { dest, src, .. } => seq![dest as u16, src as u16],
        DexInsnView::IntToDouble { dest, src, .. } => seq![dest as u16, src as u16],
        DexInsnView::LongToInt { dest, src, .. } => seq![dest as u16, src as u16],
        DexInsnView::LongToFloat { dest, src, .. } => seq![dest as u16, src as u16],
        DexInsnView::LongToDouble { dest, src, .. } => seq![dest as u16, src as u16],
        DexInsnView::FloatToInt { dest, src, .. } => seq![dest as u16, src as u16],
        DexInsnView::FloatToLong { dest, src, .. } => seq![dest as u16, src as u16],
        DexInsnView::FloatToDouble { dest, src, .. } => seq![dest as u16, src as u16],
        DexInsnView::DoubleToInt { dest, src, .. } => seq![dest as u16, src as u16],
        DexInsnView::DoubleToLong { dest, src, .. } => seq![dest as u16, src as u16],
        DexInsnView::DoubleToFloat { dest, src, .. } => seq![dest as u16, src as u16],
        DexInsnView::IntToByte { dest, src, .. } => seq![dest as u16, src as u16],
        DexInsnView::IntToChar { dest, src, .. } => seq![dest as u16, src as u16],
        DexInsnView::IntToShort { dest, src, .. } => seq![dest as u16, src as u16],
        DexInsnView::AddInt2Addr { dest_a, b, .. } => seq![dest_a as u16, b as u16],
        DexInsnView::SubInt2Addr { dest_a, b, .. } => seq![dest_a as u16, b as u16],
        DexInsnView::MulInt2Addr { dest_a, b, .. } => seq![dest_a as u16, b as u16],
        DexInsnView::DivInt2Addr { dest_a, b, .. } => seq![dest_a as u16, b as u16],
        DexInsnView::RemInt2Addr { dest_a, b, .. } => seq![dest_a as u16, b as u16],
        DexInsnView::AndInt2Addr { dest_a, b, .. } => seq![dest_a as u16, b as u16],
        DexInsnView::OrInt2Addr { dest_a, b, .. } => seq![dest_a as u16, b as u16],
        DexInsnView::XorInt2Addr { dest_a, b, .. } => seq![dest_a as u16, b as u16],
        DexInsnView::ShlInt2Addr { dest_a, b, .. } => seq![dest_a as u16, b as u16],
        DexInsnView::ShrInt2Addr { dest_a, b, .. } => seq![dest_a as u16, b as u16],
        DexInsnView::UshrInt2Addr { dest_a, b, .. } => seq![dest_a as u16, b as u16],
        DexInsnView::AddLong2Addr { dest_a, b, .. } => seq![dest_a as u16, b as u16],
        DexInsnView::SubLong2Addr { dest_a, b, .. } => seq![dest_a as u16, b as u16],
        DexInsnView::MulLong2Addr { dest_a, b, .. } => seq![dest_a as u16, b as u16],
        DexInsnView::DivLong2Addr { dest_a, b, .. } => seq![dest_a as u16, b as u16],
        DexInsnView::RemLong2Addr { dest_a, b, .. } => seq![dest_a as u16, b as u16],
        DexInsnView::AndLong2Addr { dest_a, b, .. } => seq![dest_a as u16, b as u16],
        DexInsnView::OrLong2Addr { dest_a, b, .. } => seq![dest_a as u16, b as u16],
        DexInsnView::XorLong2Addr { dest_a, b, .. } => seq![dest_a as u16, b as u16],
        DexInsnView::ShlLong2Addr { dest_a, b, .. } => seq![dest_a as u16, b as u16],
        DexInsnView::ShrLong2Addr { dest_a, b, .. } => seq![dest_a as u16, b as u16],
        DexInsnView::UshrLong2Addr { dest_a, b, .. } => seq![dest_a as u16, b as u16],
        DexInsnView::AddFloat2Addr { dest_a, b, .. } => seq![dest_a as u16, b as u16],
        DexInsnView::SubFloat2Addr { dest_a, b, .. } => seq![dest_a as u16, b as u16],
        DexInsnView::MulFloat2Addr { dest_a, b, .. } => seq![dest_a as u16, b as u16],
        DexInsnView::DivFloat2Addr { dest_a, b, .. } => seq![dest_a as u16, b as u16],
        DexInsnView::RemFloat2Addr { dest_a, b, .. } => seq![dest_a as u16, b as u16],
        DexInsnView::AddDouble2Addr { dest_a, b, .. } => seq![dest_a as u16, b as u16],
        DexInsnView::SubDouble2Addr { dest_a, b, .. } => seq![dest_a as u16, b as u16],
        DexInsnView::MulDouble2Addr { dest_a, b, .. } => seq![dest_a as u16, b as u16],
        DexInsnView::DivDouble2Addr { dest_a, b, .. } => seq![dest_a as u16, b as u16],
        DexInsnView::RemDouble2Addr { dest_a, b, .. } => seq![dest_a as u16, b as u16],
        DexInsnView::CmpLFloat { dest, a, b, .. } => seq![dest as u16, a as u16, b as u16],
        DexInsnView::CmpGFloat { dest, a, b, .. } => seq![dest as u16, a as u16, b as u16],
        DexInsnView::CmpLDouble { dest, a, b, .. } => seq![dest as u16, a as u16, b as u16],
        DexInsnView::CmpGDouble { dest, a, b, .. } => seq![dest as u16, a as u16, b as u16],
        DexInsnView::CmpLong { dest, a, b, .. } => seq![dest as u16, a as u16, b as u16],
        DexInsnView::Aget { dest, array, index, .. } => seq![dest as u16, array as u16, index as u16],
        DexInsnView::AgetWide { dest, array, index, .. } => seq![dest as u16, array as u16, index as u16],
        DexInsnView::AgetObject { dest, array, index, .. } => seq![dest as u16, array as u16, index as u16],
        DexInsnView::AgetBoolean { dest, array, index, .. } => seq![dest as u16, array as u16, index as u16],
        DexInsnView::AgetByte { dest, array, index, .. } => seq![dest as u16, array as u16, index as u16],
        DexInsnView::AgetChar { dest, array, index, .. } => seq![dest as u16, array as u16, index as u16],
        DexInsnView::AgetShort { dest, array, index, .. } => seq![dest as u16, array as u16, index as u16],
        DexInsnView::Aput { src, array, index, .. } => seq![src as u16, array as u16, index as u16],
        DexInsnView::AputWide { src, array, index, .. } => seq![src as u16, array as u16, index as u16],
        DexInsnView::AputObject { src, array, index, .. } => seq![src as u16, array as u16, index as u16],
        DexInsnView::AputBoolean { src, array, index, .. } => seq![src as u16, array as u16, index as u16],
        DexInsnView::AputByte { src, array, index, .. } => seq![src as u16, array as u16, index as u16],
        DexInsnView::AputChar { src, array, index, .. } => seq![src as u16, array as u16, index as u16],
        DexInsnView::AputShort { src, array, index, .. } => seq![src as u16, array as u16, index as u16],
        DexInsnView::AddInt { dest, a, b, .. } => seq![dest as u16, a as u16, b as u16],
        DexInsnView::SubInt { dest, a, b, .. } => seq![dest as u16, a as u16, b as u16],
        DexInsnView::MulInt { dest, a, b, .. } => seq![dest as u16, a as u16, b as u16],
        DexInsnView::DivInt { dest, a, b, .. } => seq![dest as u16, a as u16, b as u16],
        DexInsnView::RemInt { dest, a, b, .. } => seq![dest as u16, a as u16, b as u16],
        DexInsnView::AndInt { dest, a, b, .. } => seq![dest as u16, a as u16, b as u16],
        DexInsnView::OrInt { dest, a, b, .. } => seq![dest as u16, a as u16, b as u16],
        DexInsnView::XorInt { dest, a, b, .. } => seq![dest as u16, a as u16, b as u16],
        DexInsnView::ShlInt { dest, a, b, .. } => seq![dest as u16, a as u16, b as u16],
        DexInsnView::ShrInt { dest, a, b, .. } => seq![dest as u16, a as u16, b as u16],
        DexInsnView::UshrInt { dest, a, b, .. } => seq![dest as u16, a as u16, b as u16],
        DexInsnView::AddLong { dest, a, b, .. } => seq![dest as u16, a as u16, b as u16],
        DexInsnView::SubLong { dest, a, b, .. } => seq![dest as u16, a as u16, b as u16],
        DexInsnView::MulLong { dest, a, b, .. } => seq![dest as u16, a as u16, b as u16],
        DexInsnView::DivLong { dest, a, b, .. } => seq![dest as u16, a as u16, b as u16],
        DexInsnView::RemLong { dest, a, b, .. } => seq![dest as u16, a as u16, b as u16],
        DexInsnView::AndLong { dest, a, b, .. } => seq![dest as u16, a as u16, b as u16],
        DexInsnView::OrLong { dest, a, b, .. } => seq![dest as u16, a as u16, b as u16],
        DexInsnView::XorLong { dest, a, b, .. } => seq![dest as u16, a as u16, b as u16],
        DexInsnView::ShlLong { dest, a, b, .. } => seq![dest as u16, a as u16, b as u16],
        DexInsnView::ShrLong { dest, a, b, .. } => seq![dest as u16, a as u16, b as u16],
        DexInsnView::UshrLong { dest, a, b, .. } => seq![dest as u16, a as u16, b as u16],
        DexInsnView::AddFloat { dest, a, b, .. } => seq![dest as u16, a as u16, b as u16],
        DexInsnView::SubFloat { dest, a, b, .. } => seq![dest as u16, a as u16, b as u16],
        DexInsnView::MulFloat { dest, a, b, .. } => seq![dest as u16, a as u16, b as u16],
        DexInsnView::DivFloat { dest, a, b, .. } => seq![dest as u16, a as u16, b as u16],
        DexInsnView::RemFloat { dest, a, b, .. } => seq![dest as u16, a as u16, b as u16],
        DexInsnView::AddDouble { dest, a, b, .. } => seq![dest as u16, a as u16, b as u16],
        DexInsnView::SubDouble { dest, a, b, .. } => seq![dest as u16, a as u16, b as u16],
        DexInsnView::MulDouble { dest, a, b, .. } => seq![dest as u16, a as u16, b as u16],
        DexInsnView::DivDouble { dest, a, b, .. } => seq![dest as u16, a as u16, b as u16],
        DexInsnView::RemDouble { dest, a, b, .. } => seq![dest as u16, a as u16, b as u16],
        DexInsnView::Const4 { dest, .. } => seq![dest as u16],
        DexInsnView::Const16 { dest, .. } => seq![dest as u16],
        DexInsnView::Const { dest, .. } => seq![dest as u16],
        DexInsnView::ConstHigh16 { dest, .. } => seq![dest as u16],
        DexInsnView::ConstWide16 { dest, .. } => seq![dest as u16],
        DexInsnView::ConstWide32 { dest, .. } => seq![dest as u16],
        DexInsnView::ConstWide { dest, .. } => seq![dest as u16],
        DexInsnView::ConstWideHigh16 { dest, .. } => seq![dest as u16],
        DexInsnView::AddIntLit16 { dest, src, .. } => seq![dest as u16, src as u16],
        DexInsnView::RsubIntLit16 { dest, src, .. } => seq![dest as u16, src as u16],
        DexInsnView::MulIntLit16 { dest, src, .. } => seq![dest as u16, src as u16],
        DexInsnView::DivIntLit16 { dest, src, .. } => seq![dest as u16, src as u16],
        DexInsnView::RemIntLit16 { dest, src, .. } => seq![dest as u16, src as u16],
        DexInsnView::AndIntLit16 { dest, src, .. } => seq![dest as u16, src as u16],
        DexInsnView::OrIntLit16 { dest, src, .. } => seq![dest as u16, src as u16],
        DexInsnView::XorIntLit16 { dest, src, .. } => seq![dest as u16, src as u16],
        DexInsnView::AddIntLit8 { dest, src, .. } => seq![dest as u16, src as u16],
        DexInsnView::RsubIntLit8 { dest, src, .. } => seq![dest as u16, src as u16],
        DexInsnView::MulIntLit8 { dest, src, .. } => seq![dest as u16, src as u16],
        DexInsnView::DivIntLit8 { dest, src, .. } => seq![dest as u16, src as u16],
        DexInsnView::RemIntLit8 { dest, src, .. } => seq![dest as u16, src as u16],
        DexInsnView::AndIntLit8 { dest, src, .. } => seq![dest as u16, src as u16],
        DexInsnView::OrIntLit8 { dest, src, .. } => seq![dest as u16, src as u16],
        DexInsnView::XorIntLit8 { dest, src, .. } => seq![dest as u16, src as u16],
        DexInsnView::ShlIntLit8 { dest, src, .. } => seq![dest as u16, src as u16],
        DexInsnView::ShrIntLit8 { dest, src, .. } => seq![dest as u16, src as u16],
        DexInsnView::UshrIntLit8 { dest, src, .. } => seq![dest as u16, src as u16],
        DexInsnView::ConstString { dest, .. } => seq![dest as u16],
        DexInsnView::ConstStringJumbo { dest, .. } => seq![dest as u16],
        DexInsnView::ConstClass { dest, .. } => seq![dest as u16],
        DexInsnView::CheckCast { ref_, .. } => seq![ref_ as u16],
        DexInsnView::InstanceOf { dest, ref_, .. } => seq![dest as u16, ref_ as u16],
        DexInsnView::NewInstance { dest, .. } => seq![dest as u16],
        DexInsnView::NewArray { dest, size, .. } => seq![dest as u16, size as u16],
        DexInsnView::Iget { dest, obj, .. } => seq![dest as u16, obj as u16],
        DexInsnView::IgetWide { dest, obj, .. } => seq![dest as u16, obj as u16],
        DexInsnView::IgetObject { dest, obj, .. } => seq![dest as u16, obj as u16],
        DexInsnView::IgetBoolean { dest, obj, .. } => seq![dest as u16, obj as u16],
        DexInsnView::IgetByte { dest, obj, .. } => seq![dest as u16, obj as u16],
        DexInsnView::IgetChar { dest, obj, .. } => seq![dest as u16, obj as u16],
        DexInsnView::IgetShort { dest, obj, .. } => seq![dest as u16, obj as u16],
        DexInsnView::Iput { src, obj, .. } => seq![src as u16, obj as u16],
        DexInsnView::IputWide { src, obj, .. } => seq![src as u16, obj as u16],
        DexInsnView::IputObject { src, obj, .. } => seq![src as u16, obj as u16],
        DexInsnView::IputBoolean { src, obj, .. } => seq![src as u16, obj as u16],
        DexInsnView::IputByte { src, obj, .. } => seq![src as u16, obj as u16],
        DexInsnView::IputChar { src, obj, .. } => seq![src as u16, obj as u16],
        DexInsnView::IputShort { src, obj, .. } => seq![src as u16, obj as u16],
        DexInsnView::Sget { dest, .. } => seq![dest as u16],
        DexInsnView::SgetWide { dest, .. } => seq![dest as u16],
        DexInsnView::SgetObject { dest, .. } => seq![dest as u16],
        DexInsnView::SgetBoolean { dest, .. } => seq![dest as u16],
        DexInsnView::SgetByte { dest, .. } => seq![dest as u16],
        DexInsnView::SgetChar { dest, .. } => seq![dest as u16],
        DexInsnView::SgetShort { dest, .. } => seq![dest as u16],
        DexInsnView::Sput { src, .. } => seq![src as u16],
        DexInsnView::SputWide { src, .. } => seq![src as u16],
        DexInsnView::SputObject { src, .. } => seq![src as u16],
        DexInsnView::SputBoolean { src, .. } => seq![src as u16],
        DexInsnView::SputByte { src, .. } => seq![src as u16],
        DexInsnView::SputChar { src, .. } => seq![src as u16],
        DexInsnView::SputShort { src, .. } => seq![src as u16],
        DexInsnView::ConstMethodHandle { dest, .. } => seq![dest as u16],
        DexInsnView::ConstMethodType { dest, .. } => seq![dest as u16],
        DexInsnView::IfEqz { a, .. } => seq![a as u16],
        DexInsnView::IfNez { a, .. } => seq![a as u16],
        DexInsnView::IfLtz { a, .. } => seq![a as u16],
        DexInsnView::IfGez { a, .. } => seq![a as u16],
        DexInsnView::IfGtz { a, .. } => seq![a as u16],
        DexInsnView::IfLez { a, .. } => seq![a as u16],
        DexInsnView::PackedSwitch { test, .. } => seq![test as u16],
        DexInsnView::SparseSwitch { test, .. } => seq![test as u16],
        DexInsnView::FillArrayData { array, .. } => seq![array as u16],
        DexInsnView::IfEq { a, b, .. } => seq![a as u16, b as u16],
        DexInsnView::IfNe { a, b, .. } => seq![a as u16, b as u16],
        DexInsnView::IfLt { a, b, .. } => seq![a as u16, b as u16],
        DexInsnView::IfGe { a, b, .. } => seq![a as u16, b as u16],
        DexInsnView::IfGt { a, b, .. } => seq![a as u16, b as u16],
        DexInsnView::IfLe { a, b, .. } => seq![a as u16, b as u16],
        _ => Seq::empty(),
    }
}

/// The registers a record carries in its fixed register slots, `reg_a`
/// first.
pub open spec fn record_registers(r: InstructionView) -> Seq<u16> {
    match r {
        InstructionView::Reg1 { reg_a, .. } => seq![reg_a],
        InstructionView::Reg2 { reg_a, reg_b, .. } => seq![reg_a, reg_b],
        InstructionView::Reg3 { reg_a, reg_b, reg_c, .. } => seq![reg_a, reg_b, reg_c],
        InstructionView::RegLiteral { reg_a, reg_b, .. } => seq![reg_a, reg_b],
        InstructionView::RegString { reg_a, .. } => seq![reg_a],
        InstructionView::RegType { reg_a, reg_b, .. } => seq![reg_a, reg_b],
        InstructionView::RegField { reg_a, reg_b, .. } => seq![reg_a, reg_b],
        InstructionView::Branch { reg_a, .. } => seq![reg_a],
        InstructionView::Branch2 { reg_a, reg_b, .. } => seq![reg_a, reg_b],
        _ => Seq::empty(),
    }
}

/// Reading an instruction puts its register operands into the record's
/// slots in encoding order: `reg_a` holds vA, `reg_b` vB, `reg_c` vC; a
/// slot the instruction has no register for holds 0.
#[verifier::rlimit(100)]
#[verifier::spinoff_prover]
pub proof fn lemma_record_registers_in_operand_order(d: DexInsn, p: PoolsView)
    ensures
        operand_registers(d@).len() <= record_registers(kotlin_of(d, p)).len(),
        forall|k: int|
            0 <= k < operand_registers(d@).len() ==> #[trigger] record_registers(kotlin_of(d, p))[k]
                == operand_registers(d@)[k],
        forall|k: int|
            operand_registers(d@).len() <= k < record_registers(kotlin_of(d, p)).len()
                ==> #[trigger] record_registers(kotlin_of(d, p))[k] == 0,
{
}

/// Writing a record back takes the instruction's register operands from
/// the record's slots in encoding order: vA from `reg_a`, vB from `reg_b`,
/// vC from `reg_c`, each narrowed to a byte where the operand is one.
#[verifier::rlimit(100)]
#[verifier::spinoff_prover]
pub proof fn lemma_operands_from_record_slots(r: InstructionView, index: u32)
    ensures
        operand_registers(dex_of(r, index)).len() <= record_registers(r).len(),
        forall|k: int|
            0 <= k < operand_registers(dex_of(r, index)).len() ==> #[trigger] operand_registers(dex_of(r, index))[k]
                == record_registers(r)[k] || operand_registers(dex_of(r, index))[k] == (record_registers(r)[k] as u8) as u16,
{
    match r {
        InstructionView::Reg1 { .. } => {},
        InstructionView::Reg2 { .. } => {},
        InstructionView::Reg3 { .. } => {},
        InstructionView::RegLiteral { .. } => {},
        InstructionView::RegString { .. } => {},
        InstructionView::RegType { .. } => {},
        InstructionView::RegField { .. } => {},
        InstructionView::Branch { .. } => {},
        InstructionView::Branch2 { .. } => {},
        _ => {},
    }
}

/// The opcode byte an instruction is encoded with; `None` for the payload
/// pseudo-instructions and raw code units.
pub open spec fn dex_opcode(d: DexInsnView) -> Option<u16> {
    match d {
        DexInsnView::Nop => Some(0x00),
        DexInsnView::ReturnVoid => Some(0x0e),
        DexInsnView::MoveResult { .. } => Some(0x0a),
        DexInsnView::MoveResultWide { .. } => Some(0x0b),
        DexInsnView::MoveResultObject { .. } => Some(0x0c),
        DexInsnView::MoveException { .. } => Some(0x0d),
        DexInsnView::Return { .. } => Some(0x0f),
        DexInsnView::ReturnWide { .. } => Some(0x10),
        DexInsnView::ReturnObject { .. } => Some(0x11),
        DexInsnView::MonitorEnter { .. } => Some(0x1d),
        DexInsnView::MonitorExit { .. } => Some(0x1e),
        DexInsnView::Throw { .. } => Some(0x27),
        DexInsnView::Move { .. } => Some(0x01),
        DexInsnView::MoveFrom16 { .. } => Some(0x02),
        DexInsnView::Move16 { .. } => Some(0x03),
        DexInsnView::MoveWide { .. } => Some(0x04),
        DexInsnView::MoveWideFrom16 { .. } => Some(0x05),
        DexInsnView::MoveWide16 { .. } => Some(0x06),
        DexInsnView::MoveObject { .. } => Some(0x07),
        DexInsnView::MoveObjectFrom16 { .. } => Some(0x08),
        DexInsnView::MoveObject16 { .. } => Some(0x09),
        DexInsnView::ArrayLength { .. } => Some(0x21),
        DexInsnView::NegInt { .. } => Some(0x7b),
        DexInsnView::NotInt { .. } => Some(0x7c),
        DexInsnView::NegLong { .. } => Some(0x7d),
        DexInsnView::NotLong { .. } => Some(0x7e),
        DexInsnView::NegFloat { .. } => Some(0x7f),
        DexInsnView::NegDouble { .. } => Some(0x80),
        DexInsnView::IntToLong { .. } => Some(0x81),
        DexInsnView::IntToFloat { .. } => Some(0x82),
        DexInsnView::IntToDouble { .. } => Some(0x83),
        DexInsnView::LongToInt { .. } => Some(0x84),
        DexInsnView::LongToFloat { .. } => Some(0x85),
        DexInsnView::LongToDouble { .. } => Some(0x86),
        DexInsnView::FloatToInt { .. } => Some(0x87),
        DexInsnView::FloatToLong { .. } => Some(0x88),
        DexInsnView::FloatToDouble { .. } => Some(0x89),
        DexInsnView::DoubleToInt { .. } => Some(0x8a),
        DexInsnView::DoubleToLong { .. } => Some(0x8b),
        DexInsnView::DoubleToFloat { .. } => Some(0x8c),
        DexInsnView::IntToByte { .. } => Some(0x8d),
        DexInsnView::IntToChar { .. } => Some(0x8e),
        DexInsnView::IntToShort { .. } => Some(0x8f),
        DexInsnView::AddInt2Addr { .. } => Some(0xb0),
        DexInsnView::SubInt2Addr { .. } => Some(0xb1),
        DexInsnView::MulInt2Addr { .. } => Some(0xb2),
        DexInsnView::DivInt2Addr { .. } => Some(0xb3),
        DexInsnView::RemInt2Addr { .. } => Some(0xb4),
        DexInsnView::AndInt2Addr { .. } => Some(0xb5),
        DexInsnView::OrInt2Addr { .. } => Some(0xb6),
        DexInsnView::XorInt2Addr { .. } => Some(0xb7),
        DexInsnView::ShlInt2Addr { .. } => Some(0xb8),
        DexInsnView::ShrInt2Addr { .. } => Some(0xb9),
        DexInsnView::UshrInt2Addr { .. } => Some(0xba),
        DexInsnView::AddLong2Addr { .. } => Some(0xbb),
        DexInsnView::SubLong2Addr { .. } => Some(0xbc),
        DexInsnView::MulLong2Addr { .. } => Some(0xbd),
        DexInsnView::DivLong2Addr { .. } => Some(0xbe),
        DexInsnView::RemLong2Addr { .. } => Some(0xbf),
        DexInsnView::AndLong2Addr { .. } => Some(0xc0),
        DexInsnView::OrLong2Addr { .. } => Some(0xc1),
        DexInsnView::XorLong2Addr { .. } => Some(0xc2),
        DexInsnView::ShlLong2Addr { .. } => Some(0xc3),
        DexInsnView::ShrLong2Addr { .. } => Some(0xc4),
        DexInsnView::UshrLong2Addr { .. } => Some(0xc5),
        DexInsnView::AddFloat2Addr { .. } => Some(0xc6),
        DexInsnView::SubFloat2Addr { .. } => Some(0xc7),
        DexInsnView::MulFloat2Addr { .. } => Some(0xc8),
        DexInsnView::DivFloat2Addr { .. } => Some(0xc9),
        DexInsnView::RemFloat2Addr { .. } => Some(0xca),
        DexInsnView::AddDouble2Addr { .. } => Some(0xcb),
        DexInsnView::SubDouble2Addr { .. } => Some(0xcc),
        DexInsnView::MulDouble2Addr { .. } => Some(0xcd),
        DexInsnView::DivDouble2Addr { .. } => Some(0xce),
        DexInsnView::RemDouble2Addr { .. } => Some(0xcf),
        DexInsnView::CmpLFloat { .. } => Some(0x2d),
        DexInsnView::CmpGFloat { .. } => Some(0x2e),
        DexInsnView::CmpLDouble { .. } => Some(0x2f),
        DexInsnView::CmpGDouble { .. } => Some(0x30),
        DexInsnView::CmpLong { .. } => Some(0x31),
        DexInsnView::Aget { .. } => Some(0x44),
        DexInsnView::AgetWide { .. } => Some(0x45),
        DexInsnView::AgetObject { .. } => Some(0x46),
        DexInsnView::AgetBoolean { .. } => Some(0x47),
        DexInsnView::AgetByte { .. } => Some(0x48),
        DexInsnView::AgetChar { .. } => Some(0x49),
        DexInsnView::AgetShort { .. } => Some(0x4a),
        DexInsnView::Aput { .. } => Some(0x4b),
        DexInsnView::AputWide { .. } => Some(0x4c),
        DexInsnView::AputObject { .. } => Some(0x4d),
        DexInsnView::AputBoolean { .. } => Some(0x4e),
        DexInsnView::AputByte { .. } => Some(0x4f),
        DexInsnView::AputChar { .. } => Some(0x50),
        DexInsnView::AputShort { .. } => Some(0x51),
        DexInsnView::AddInt { .. } => Some(0x90),
        DexInsnView::SubInt { .. } => Some(0x91),
        DexInsnView::MulInt { .. } => Some(0x92),
        DexInsnView::DivInt { .. } => Some(0x93),
        DexInsnView::RemInt { .. } => Some(0x94),
        DexInsnView::AndInt { .. } => Some(0x95),
        DexInsnView::OrInt { .. } => Some(0x96),
        DexInsnView::XorInt { .. } => Some(0x97),
        DexInsnView::ShlInt { .. } => Some(0x98),
        DexInsnView::ShrInt { .. } => Some(0x99),
        DexInsnView::UshrInt { .. } => Some(0x9a),
        DexInsnView::AddLong { .. } => Some(0x9b),
        DexInsnView::SubLong { .. } => Some(0x9c),
        DexInsnView::MulLong { .. } => Some(0x9d),
        DexInsnView::DivLong { .. } => Some(0x9e),
        DexInsnView::RemLong { .. } => Some(0x9f),
        DexInsnView::AndLong { .. } => Some(0xa0),
        DexInsnView::OrLong { .. } => Some(0xa1),
        DexInsnView::XorLong { .. } => Some(0xa2),
        DexInsnView::ShlLong { .. } => Some(0xa3),
        DexInsnView::ShrLong { .. } => Some(0xa4),
        DexInsnView::UshrLong { .. } => Some(0xa5),
        DexInsnView::AddFloat { .. } => Some(0xa6),
        DexInsnView::SubFloat { .. } => Some(0xa7),
        DexInsnView::MulFloat { .. } => Some(0xa8),
        DexInsnView::DivFloat { .. } => Some(0xa9),
        DexInsnView::RemFloat { .. } => Some(0xaa),
        DexInsnView::AddDouble { .. } => Some(0xab),
        DexInsnView::SubDouble { .. } => Some(0xac),
        DexInsnView::MulDouble { .. } => Some(0xad),
        DexInsnView::DivDouble { .. } => Some(0xae),
        DexInsnView::RemDouble { .. } => Some(0xaf),
        DexInsnView::Const4 { .. } => Some(0x12),
        DexInsnView::Const16 { .. } => Some(0x13),
        DexInsnView::Const { .. } => Some(0x14),
        DexInsnView::ConstHigh16 { .. } => Some(0x15),
        DexInsnView::ConstWide16 { .. } => Some(0x16),
        DexInsnView::ConstWide32 { .. } => Some(0x17),
        DexInsnView::ConstWide { .. } => Some(0x18),
        DexInsnView::ConstWideHigh16 { .. } => Some(0x19),
        DexInsnView::AddIntLit16 { .. } => Some(0xd0),
        DexInsnView::RsubIntLit16 { .. } => Some(0xd1),
        DexInsnView::MulIntLit16 { .. } => Some(0xd2),
        DexInsnView::DivIntLit16 { .. } => Some(0xd3),
        DexInsnView::RemIntLit16 { .. } => Some(0xd4),
        DexInsnView::AndIntLit16 { .. } => Some(0xd5),
        DexInsnView::OrIntLit16 { .. } => Some(0xd6),
        DexInsnView::XorIntLit16 { .. } => Some(0xd7),
        DexInsnView::AddIntLit8 { .. } => Some(0xd8),
        DexInsnView::RsubIntLit8 { .. } => Some(0xd9),
        DexInsnView::MulIntLit8 { .. } => Some(0xda),
        DexInsnView::DivIntLit8 { .. } => Some(0xdb),
        DexInsnView::RemIntLit8 { .. } => Some(0xdc),
        DexInsnView::AndIntLit8 { .. } => Some(0xdd),
        DexInsnView::OrIntLit8 { .. } => Some(0xde),
        DexInsnView::XorIntLit8 { .. } => Some(0xdf),
        DexInsnView::ShlIntLit8 { .. } => Some(0xe0),
        DexInsnView::ShrIntLit8 { .. } => Some(0xe1),
        DexInsnView::UshrIntLit8 { .. } => Some(0xe2),
        DexInsnView::ConstString { .. } => Some(0x1a),
        DexInsnView::ConstStringJumbo { .. } => Some(0x1b),
        DexInsnView::ConstClass { .. } => Some(0x1c),
        DexInsnView::CheckCast { .. } => Some(0x1f),
        DexInsnView::InstanceOf { .. } => Some(0x20),
        DexInsnView::NewInstance { .. } => Some(0x22),
        DexInsnView::NewArray { .. } => Some(0x23),
        DexInsnView::Iget { .. } => Some(0x52),
        DexInsnView::IgetWide { .. } => Some(0x53),
        DexInsnView::IgetObject { .. } => Some(0x54),
        DexInsnView::IgetBoolean { .. } => Some(0x55),
        DexInsnView::IgetByte { .. } => Some(0x56),
        DexInsnView::IgetChar { .. } => Some(0x57),
        DexInsnView::IgetShort { .. } => Some(0x58),
        DexInsnView::Iput { .. } => Some(0x59),
        DexInsnView::IputWide { .. } => Some(0x5a),
        DexInsnView::IputObject { .. } => Some(0x5b),
        DexInsnView::IputBoolean { .. } => Some(0x5c),
        DexInsnView::IputByte { .. } => Some(0x5d),
        DexInsnView::IputChar { .. } => Some(0x5e),
        DexInsnView::IputShort { .. } => Some(0x5f),
        DexInsnView::Sget { .. } => Some(0x60),
        DexInsnView::SgetWide { .. } => Some(0x61),
        DexInsnView::SgetObject { .. } => Some(0x62),
        DexInsnView::SgetBoolean { .. } => Some(0x63),
        DexInsnView::SgetByte { .. } => Some(0x64),
        DexInsnView::SgetChar { .. } => Some(0x65),
        DexInsnView::SgetShort { .. } => Some(0x66),
        DexInsnView::Sput { .. } => Some(0x67),
        DexInsnView::SputWide { .. } => Some(0x68),
        DexInsnView::SputObject { .. } => Some(0x69),
        DexInsnView::SputBoolean { .. } => Some(0x6a),
        DexInsnView::SputByte { .. } => Some(0x6b),
        DexInsnView::SputChar { .. } => Some(0x6c),
        DexInsnView::SputShort { .. } => Some(0x6d),
        DexInsnView::InvokeVirtual { .. } => Some(0x6e),
        DexInsnView::InvokeSuper { .. } => Some(0x6f),
        DexInsnView::InvokeDirect { .. } => Some(0x70),
        DexInsnView::InvokeStatic { .. } => Some(0x71),
        DexInsnView::InvokeInterface { .. } => Some(0x72),
        DexInsnView::InvokePolymorphic { .. } => Some(0xfa),
        DexInsnView::InvokeCustom { .. } => Some(0xfc),
        DexInsnView::InvokeVirtualRange { .. } => Some(0x74),
        DexInsnView::InvokeSuperRange { .. } => Some(0x75),
        DexInsnView::InvokeDirectRange { .. } => Some(0x76),
        DexInsnView::InvokeStaticRange { .. } => Some(0x77),
        DexInsnView::InvokeInterfaceRange { .. } => Some(0x78),
        DexInsnView::InvokePolymorphicRange { .. } => Some(0xfb),
        DexInsnView::InvokeCustomRange { .. } => Some(0xfd),
        DexInsnView::ConstMethodHandle { .. } => Some(0xfe),
        DexInsnView::ConstMethodType { .. } => Some(0xff),
        DexInsnView::Goto { .. } => Some(0x28),
        DexInsnView::Goto16 { .. } => Some(0x29),
        DexInsnView::Goto32 { .. } => Some(0x2a),
        DexInsnView::IfEqz { .. } => Some(0x38),
        DexInsnView::IfNez { .. } => Some(0x39),
        DexInsnView::IfLtz { .. } => Some(0x3a),
        DexInsnView::IfGez { .. } => Some(0x3b),
        DexInsnView::IfGtz { .. } => Some(0x3c),
        DexInsnView::IfLez { .. } => Some(0x3d),
        DexInsnView::PackedSwitch { .. } => Some(0x2b),
        DexInsnView::SparseSwitch { .. } => Some(0x2c),
        DexInsnView::FillArrayData { .. } => Some(0x26),
        DexInsnView::IfEq { .. } => Some(0x32),
        DexInsnView::IfNe { .. } => Some(0x33),
        DexInsnView::IfLt { .. } => Some(0x34),
        DexInsnView::IfGe { .. } => Some(0x35),
        DexInsnView::IfGt { .. } => Some(0x36),
        DexInsnView::IfLe { .. } => Some(0x37),
        DexInsnView::FilledNewArray { .. } => Some(0x24),
        DexInsnView::FilledNewArrayRange { .. } => Some(0x25),
        _ => None,
    }
}

/// The opcode a record carries; `None` for payload and raw records.
pub open spec fn record_opcode(r: InstructionView) -> Option<u16> {
    match r {
        InstructionView::Simple { opcode } => Some(opcode),
        InstructionView::Reg1 { opcode, .. } => Some(opcode),
        InstructionView::Reg2 { opcode, .. } => Some(opcode),
        InstructionView::Reg3 { opcode, .. } => Some(opcode),
        InstructionView::RegLiteral { opcode, .. } => Some(opcode),
        InstructionView::RegString { opcode, .. } => Some(opcode),
        InstructionView::RegType { opcode, .. } => Some(opcode),
        InstructionView::RegField { opcode, .. } => Some(opcode),
        InstructionView::Invoke { opcode, .. } => Some(opcode),
        InstructionView::InvokeRange { opcode, .. } => Some(opcode),
        InstructionView::Branch0 { opcode, .. } => Some(opcode),
        InstructionView::Branch { opcode, .. } => Some(opcode),
        InstructionView::Branch2 { opcode, .. } => Some(opcode),
        InstructionView::FilledArray { opcode, .. } => Some(opcode),
        InstructionView::FilledArrayRange { opcode, .. } => Some(opcode),
        _ => None,
    }
}

/// Reading an instruction keeps its opcode: the record carries the opcode
/// byte the instruction is encoded with.
#[verifier::rlimit(100)]
#[verifier::spinoff_prover]
pub proof fn lemma_record_keeps_opcode(d: DexInsn, p: PoolsView)
    ensures
        record_opcode(kotlin_of(d, p)) == dex_opcode(d@),
{
}

/// Writing a record back gives an instruction with the record's opcode,
/// except that a short call whose registers need the range form becomes
/// that call's `/range` form, six opcodes on, and that a filled-array
/// record always writes `filled-new-array` or its `/range` form, as its
/// shape says.
#[verifier::rlimit(100)]
#[verifier::spinoff_prover]
pub proof fn lemma_written_opcode(r: InstructionView, index: u32)
    ensures
        dex_opcode(dex_of(r, index)) matches Some(op) ==> match r {
            InstructionView::FilledArray { .. } => op == 0x24,
            InstructionView::FilledArrayRange { .. } => op == 0x25,
            InstructionView::Invoke { opcode, registers, .. } => op == opcode || (needs_range_spec(registers) && op
                == opcode + 6),
            _ => record_opcode(r) == Some(op),
        },
{
    match r {
        InstructionView::Simple { .. } => {},
        InstructionView::Reg1 { .. } => {},
        InstructionView::Reg2 { .. } => {},
        InstructionView::Reg3 { .. } => {},
        InstructionView::RegLiteral { .. } => {},
        InstructionView::RegString { .. } => {},
        InstructionView::RegType { .. } => {},
        InstructionView::RegField { .. } => {},
        InstructionView::Invoke { .. } => {},
        InstructionView::InvokeRange { .. } => {},
        InstructionView::Branch0 { .. } => {},
        InstructionView::Branch { .. } => {},
        InstructionView::Branch2 { .. } => {},
        _ => {},
    }
}

/// The constant an instruction carries in its own operands: the literal of
/// a `const` or literal-arithmetic instruction, the pool index of a
/// method handle or method type constant, or a branch offset.
pub open spec fn operand_constant(d: DexInsnView) -> Option<int> {
    match d {
        DexInsnView::Const4 { value, .. } => Some(value as int),
        DexInsnView::Const16 { value, .. } => Some(value as int),
        DexInsnView::Const { value, .. } => Some(value as int),
        DexInsnView::ConstHigh16 { value, .. } => Some(value as int),
        DexInsnView::ConstWide16 { value, .. } => Some(value as int),
        DexInsnView::ConstWide32 { value, .. } => Some(value as int),
        DexInsnView::ConstWide { value, .. } => Some(value as int),
        DexInsnView::ConstWideHigh16 { value, .. } => Some(value as int),
        DexInsnView::AddIntLit16 { literal, .. } => Some(literal as int),
        DexInsnView::RsubIntLit16 { literal, .. } => Some(literal as int),
        DexInsnView::MulIntLit16 { literal, .. } => Some(literal as int),
        DexInsnView::DivIntLit16 { literal, .. } => Some(literal as int),
        DexInsnView::RemIntLit16 { literal, .. } => Some(literal as int),
        DexInsnView::AndIntLit16 { literal, .. } => Some(literal as int),
        DexInsnView::OrIntLit16 { literal, .. } => Some(literal as int),
        DexInsnView::XorIntLit16 { literal, .. } => Some(literal as int),
        DexInsnView::AddIntLit8 { literal, .. } => Some(literal as int),
        DexInsnView::RsubIntLit8 { literal, .. } => Some(literal as int),
        DexInsnView::MulIntLit8 { literal, .. } => Some(literal as int),
        DexInsnView::DivIntLit8 { literal, .. } => Some(literal as int),
        DexInsnView::RemIntLit8 { literal, .. } => Some(literal as int),
        DexInsnView::AndIntLit8 { literal, .. } => Some(literal as int),
        DexInsnView::OrIntLit8 { literal, .. } => Some(literal as int),
        DexInsnView::XorIntLit8 { literal, .. } => Some(literal as int),
        DexInsnView::ShlIntLit8 { literal, .. } => Some(literal as int),
        DexInsnView::ShrIntLit8 { literal, .. } => Some(literal as int),
        DexInsnView::UshrIntLit8 { literal, .. } => Some(literal as int),
        DexInsnView::ConstMethodHandle { method_handle, .. } => Some(method_handle as int),
        DexInsnView::ConstMethodType { proto, .. } => Some(proto as int),
        DexInsnView::Goto { offset, .. } => Some(offset as int),
        DexInsnView::Goto16 { offset, .. } => Some(offset as int),
        DexInsnView::Goto32 { offset, .. } => Some(offset as int),
        DexInsnView::IfEqz { offset, .. } => Some(offset as int),
        DexInsnView::IfNez { offset, .. } => Some(offset as int),
        DexInsnView::IfLtz { offset, .. } => Some(offset as int),
        DexInsnView::IfGez { offset, .. } => Some(offset as int),
        DexInsnView::IfGtz { offset, .. } => Some(offset as int),
        DexInsnView::IfLez { offset, .. } => Some(offset as int),
        DexInsnView::PackedSwitch { payload_offset, .. } => Some(payload_offset as int),
        DexInsnView::SparseSwitch { payload_offset, .. } => Some(payload_offset as int),
        DexInsnView::FillArrayData { payload_offset, .. } => Some(payload_offset as int),
        DexInsnView::IfEq { offset, .. } => Some(offset as int),
        DexInsnView::IfNe { offset, .. } => Some(offset as int),
        DexInsnView::IfLt { offset, .. } => Some(offset as int),
        DexInsnView::IfGe { offset, .. } => Some(offset as int),
        DexInsnView::IfGt { offset, .. } => Some(offset as int),
        DexInsnView::IfLe { offset, .. } => Some(offset as int),
        _ => None,
    }
}

/// The constant a record carries: its literal or its branch offset.
pub open spec fn record_constant(r: InstructionView) -> Option<int> {
    match r {
        InstructionView::RegLiteral { literal, .. } => Some(literal as int),
        InstructionView::Branch0 { offset, .. } => Some(offset as int),
        InstructionView::Branch { offset, .. } => Some(offset as int),
        InstructionView::Branch2 { offset, .. } => Some(offset as int),
        _ => None,
    }
}

/// Reading an instruction keeps its constant operand unchanged in value:
/// literals and branch offsets widen without changing sign or magnitude.
#[verifier::rlimit(100)]
#[verifier::spinoff_prover]
pub proof fn lemma_record_keeps_constant(d: DexInsn, p: PoolsView)
    ensures
        record_constant(kotlin_of(d, p)) == operand_constant(d@),
{
}

/// Reading an instruction spells out the pool entry at the index it refers
/// through: the string, type descriptor, field or method there. Custom
/// call sites, which have no method entry, are left aside.
#[verifier::rlimit(100)]
#[verifier::spinoff_prover]
pub proof fn lemma_record_names_referenced_entry(d: DexInsn, p: PoolsView)
    ensures
        !(d@ is InvokeCustom) && !(d@ is InvokeCustomRange) ==> match kotlin_of(d, p) {
            InstructionView::RegString { value, .. } => value == p.strings[ref_index(d@) as int],
            InstructionView::RegType { type_descriptor, .. } => type_descriptor == type_desc(p, ref_index(d@)),
            InstructionView::FilledArray { type_descriptor, .. } => type_descriptor == type_desc(p, ref_index(d@)),
            InstructionView::FilledArrayRange { type_descriptor, .. } => type_descriptor == type_desc(p, ref_index(d@)),
            InstructionView::RegField { field, .. } => field == field_ref_of(p, ref_index(d@)),
            InstructionView::Invoke { method, .. } => method == method_ref_of(p, ref_index(d@)),
            InstructionView::InvokeRange { method, .. } => method == method_ref_of(p, ref_index(d@)),
            _ => true,
        },
{
}

} // verus!
