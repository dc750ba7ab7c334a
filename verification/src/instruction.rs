//! The instruction records patches read and write: one record shape per
//! instruction format, with the opcode, its registers, and any constant
//! pool entry it refers to spelled out as text.

use vstd::prelude::*;

verus! {
/// A method named by its class, name and prototype.
#[derive(Debug, Clone, PartialEq)]
pub struct MethodRef {
    pub defining_class: String,
    pub name: String,
    pub proto: String,
}

/// What a MethodRef holds.
pub struct MethodRefView {
    pub defining_class: Seq<char>,
    pub name: Seq<char>,
    pub proto: Seq<char>,
}

impl View for MethodRef {
    type V = MethodRefView;

    open spec fn view(&self) -> MethodRefView {
        MethodRefView { defining_class: self.defining_class@, name: self.name@, proto: self.proto@ }
    }
}

/// A field named by its class, name and type.
#[derive(Debug, Clone, PartialEq)]
pub struct FieldRef {
    pub defining_class: String,
    pub name: String,
    pub field_type: String,
}

/// What a FieldRef holds.
pub struct FieldRefView {
    pub defining_class: Seq<char>,
    pub name: Seq<char>,
    pub field_type: Seq<char>,
}

impl View for FieldRef {
    type V = FieldRefView;

    open spec fn view(&self) -> FieldRefView {
        FieldRefView { defining_class: self.defining_class@, name: self.name@, field_type: self.field_type@ }
    }
}

#[derive(Debug, Clone, PartialEq)]
pub struct SimpleInsn {
    pub opcode: u16,
}

#[derive(Debug, Clone, PartialEq)]
pub struct Reg1Insn {
    pub opcode: u16,
    pub reg_a: u16,
}

#[derive(Debug, Clone, PartialEq)]
pub struct Reg2Insn {
    pub opcode: u16,
    pub reg_a: u16,
    pub reg_b: u16,
}

#[derive(Debug, Clone, PartialEq)]
pub struct Reg3Insn {
    pub opcode: u16,
    pub reg_a: u16,
    pub reg_b: u16,
    pub reg_c: u16,
}

#[derive(Debug, Clone, PartialEq)]
pub struct RegLiteralInsn {
    pub opcode: u16,
    pub reg_a: u16,
    pub reg_b: u16,
    pub literal: i64,
}

#[derive(Debug, Clone, PartialEq)]
pub struct RegStringInsn {
    pub opcode: u16,
    pub reg_a: u16,
    pub value: String,
}

#[derive(Debug, Clone, PartialEq)]
pub struct RegTypeInsn {
    pub opcode: u16,
    pub reg_a: u16,
    pub reg_b: u16,
    pub type_descriptor: String,
}

#[derive(Debug, Clone, PartialEq)]
pub struct RegFieldInsn {
    pub opcode: u16,
    pub reg_a: u16,
    pub reg_b: u16,
    pub field: FieldRef,
}

#[derive(Debug, Clone, PartialEq)]
pub struct InvokeInsn {
    pub opcode: u16,
    pub registers: Vec<u16>,
    pub method: MethodRef,
}

#[derive(Debug, Clone, PartialEq)]
pub struct InvokeRangeInsn {
    pub opcode: u16,
    pub start_reg: u16,
    pub reg_count: u16,
    pub method: MethodRef,
}

#[derive(Debug, Clone, PartialEq)]
pub struct Branch0Insn {
    pub opcode: u16,
    pub offset: i32,
}

#[derive(Debug, Clone, PartialEq)]
pub struct BranchInsn {
    pub opcode: u16,
    pub reg_a: u16,
    pub offset: i32,
}

#[derive(Debug, Clone, PartialEq)]
pub struct Branch2Insn {
    pub opcode: u16,
    pub reg_a: u16,
    pub reg_b: u16,
    pub offset: i32,
}

#[derive(Debug, Clone, PartialEq)]
pub struct FilledArrayInsn {
    pub opcode: u16,
    pub registers: Vec<u16>,
    pub type_descriptor: String,
}

#[derive(Debug, Clone, PartialEq)]
pub struct FilledArrayRangeInsn {
    pub opcode: u16,
    pub start_reg: u16,
    pub reg_count: u16,
    pub type_descriptor: String,
}

#[derive(Debug, Clone, PartialEq)]
pub struct PackedSwitchInsn {
    pub first_key: i32,
    pub targets: Vec<i32>,
}

#[derive(Debug, Clone, PartialEq)]
pub struct SparseSwitchInsn {
    pub keys: Vec<i32>,
    pub targets: Vec<i32>,
}

#[derive(Debug, Clone, PartialEq)]
pub struct FillArrayInsn {
    pub element_width: u16,
    pub data: Vec<u8>,
}

/// An instruction, by format.
#[derive(Debug, Clone, PartialEq)]
pub enum Instruction {
    Simple(SimpleInsn),
    Reg1(Reg1Insn),
    Reg2(Reg2Insn),
    Reg3(Reg3Insn),
    RegLiteral(RegLiteralInsn),
    RegString(RegStringInsn),
    RegType(RegTypeInsn),
    RegField(RegFieldInsn),
    Invoke(InvokeInsn),
    InvokeRange(InvokeRangeInsn),
    Branch0(Branch0Insn),
    Branch(BranchInsn),
    Branch2(Branch2Insn),
    FilledArray(FilledArrayInsn),
    FilledArrayRange(FilledArrayRangeInsn),
    PackedSwitchData(PackedSwitchInsn),
    SparseSwitchData(SparseSwitchInsn),
    FillArrayData(FillArrayInsn),
    Raw(Vec<u8>),
}

/// What an instruction holds.
pub enum InstructionView {
    Simple { opcode: u16 },
    Reg1 { opcode: u16, reg_a: u16 },
    Reg2 { opcode: u16, reg_a: u16, reg_b: u16 },
    Reg3 { opcode: u16, reg_a: u16, reg_b: u16, reg_c: u16 },
    RegLiteral { opcode: u16, reg_a: u16, reg_b: u16, literal: i64 },
    RegString { opcode: u16, reg_a: u16, value: Seq<char> },
    RegType { opcode: u16, reg_a: u16, reg_b: u16, type_descriptor: Seq<char> },
    RegField { opcode: u16, reg_a: u16, reg_b: u16, field: FieldRefView },
    Invoke { opcode: u16, registers: Seq<u16>, method: MethodRefView },
    InvokeRange { opcode: u16, start_reg: u16, reg_count: u16, method: MethodRefView },
    Branch0 { opcode: u16, offset: i32 },
    Branch { opcode: u16, reg_a: u16, offset: i32 },
    Branch2 { opcode: u16, reg_a: u16, reg_b: u16, offset: i32 },
    FilledArray { opcode: u16, registers: Seq<u16>, type_descriptor: Seq<char> },
    FilledArrayRange { opcode: u16, start_reg: u16, reg_count: u16, type_descriptor: Seq<char> },
    PackedSwitchData { first_key: i32, targets: Seq<i32> },
    SparseSwitchData { keys: Seq<i32>, targets: Seq<i32> },
    FillArrayData { element_width: u16, data: Seq<u8> },
    Raw(Seq<u8>),
}

impl View for Instruction {
    type V = InstructionView;

    open spec fn view(&self) -> InstructionView {
        match self {
            Instruction::Simple(i) => InstructionView::Simple { opcode: i.opcode },
            Instruction::Reg1(i) => InstructionView::Reg1 { opcode: i.opcode, reg_a: i.reg_a },
            Instruction::Reg2(i) => InstructionView::Reg2 { opcode: i.opcode, reg_a: i.reg_a, reg_b: i.reg_b },
            Instruction::Reg3(i) => InstructionView::Reg3 { opcode: i.opcode, reg_a: i.reg_a, reg_b: i.reg_b, reg_c: i.reg_c },
            Instruction::RegLiteral(i) => InstructionView::RegLiteral { opcode: i.opcode, reg_a: i.reg_a, reg_b: i.reg_b, literal: i.literal },
            Instruction::RegString(i) => InstructionView::RegString { opcode: i.opcode, reg_a: i.reg_a, value: i.value@ },
            Instruction::RegType(i) => InstructionView::RegType { opcode: i.opcode, reg_a: i.reg_a, reg_b: i.reg_b, type_descriptor: i.type_descriptor@ },
            Instruction::RegField(i) => InstructionView::RegField { opcode: i.opcode, reg_a: i.reg_a, reg_b: i.reg_b, field: i.field@ },
            Instruction::Invoke(i) => InstructionView::Invoke { opcode: i.opcode, registers: i.registers@, method: i.method@ },
            Instruction::InvokeRange(i) => InstructionView::InvokeRange { opcode: i.opcode, start_reg: i.start_reg, reg_count: i.reg_count, method: i.method@ },
            Instruction::Branch0(i) => InstructionView::Branch0 { opcode: i.opcode, offset: i.offset },
            Instruction::Branch(i) => InstructionView::Branch { opcode: i.opcode, reg_a: i.reg_a, offset: i.offset },
            Instruction::Branch2(i) => InstructionView::Branch2 { opcode: i.opcode, reg_a: i.reg_a, reg_b: i.reg_b, offset: i.offset },
            Instruction::FilledArray(i) => InstructionView::FilledArray { opcode: i.opcode, registers: i.registers@, type_descriptor: i.type_descriptor@ },
            Instruction::FilledArrayRange(i) => InstructionView::FilledArrayRange { opcode: i.opcode, start_reg: i.start_reg, reg_count: i.reg_count, type_descriptor: i.type_descriptor@ },
            Instruction::PackedSwitchData(i) => InstructionView::PackedSwitchData { first_key: i.first_key, targets: i.targets@ },
            Instruction::SparseSwitchData(i) => InstructionView::SparseSwitchData { keys: i.keys@, targets: i.targets@ },
            Instruction::FillArrayData(i) => InstructionView::FillArrayData { element_width: i.element_width, data: i.data@ },
            Instruction::Raw(b) => InstructionView::Raw(b@),
        }
    }
}

} // verus!
