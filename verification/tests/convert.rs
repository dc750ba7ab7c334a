use reseam_patcher::convert::{dex_to_kotlin, kotlin_to_dex, DexInsn, DexPools, FieldId, MethodId, ProtoId};
use reseam_patcher::instruction::{FieldRef, Instruction, InvokeInsn, MethodRef, Reg1Insn, RegLiteralInsn};

fn pools() -> DexPools {
    DexPools {
        strings: vec![
            "Lapp/Main;".to_string(),
            "I".to_string(),
            "run".to_string(),
            "count".to_string(),
            "Ljava/lang/String;".to_string(),
        ],
        types: vec![0, 1, 4],
        protos: vec![ProtoId { return_type: 1, parameters: vec![2, 1] }],
        fields: vec![FieldId { class: 0, name: 3, field_type: 1 }],
        methods: vec![MethodId { class: 0, name: 2, proto: 0 }],
    }
}

#[test]
fn instructions_read_as_records() {
    let p = pools();
    assert_eq!(
        dex_to_kotlin(&DexInsn::MoveResult { dest: 7 }, &p),
        Instruction::Reg1(Reg1Insn { opcode: 0x0a, reg_a: 7 })
    );
    assert_eq!(
        dex_to_kotlin(&DexInsn::Const4 { dest: 1, value: -3 }, &p),
        Instruction::RegLiteral(RegLiteralInsn { opcode: 0x12, reg_a: 1, reg_b: 0, literal: -3 })
    );
    assert_eq!(
        dex_to_kotlin(&DexInsn::InvokeStatic { method: 0, args: vec![2, 3] }, &p),
        Instruction::Invoke(InvokeInsn {
            opcode: 0x71,
            registers: vec![2, 3],
            method: MethodRef {
                defining_class: "Lapp/Main;".to_string(),
                name: "run".to_string(),
                proto: "(Ljava/lang/String;I)I".to_string(),
            },
        })
    );
    match dex_to_kotlin(&DexInsn::Sget { dest: 0, field: 0 }, &p) {
        Instruction::RegField(f) => assert_eq!(
            f.field,
            FieldRef { defining_class: "Lapp/Main;".to_string(), name: "count".to_string(), field_type: "I".to_string() }
        ),
        other => panic!("{other:?}"),
    }
    assert_eq!(
        dex_to_kotlin(&DexInsn::RawInstruction { code_units: vec![0x1234, 0x00ff] }, &p),
        Instruction::Raw(vec![0x34, 0x12, 0xff, 0x00])
    );
    match dex_to_kotlin(&DexInsn::InvokeCustom { call_site: 12, args: vec![] }, &p) {
        Instruction::Invoke(i) => assert_eq!(i.method.name, "call_site_12"),
        other => panic!("{other:?}"),
    }
}

#[test]
fn records_write_back_as_instructions() {
    let p = pools();
    for insn in [
        DexInsn::MoveResult { dest: 7 },
        DexInsn::Const4 { dest: 1, value: -3 },
        DexInsn::InvokeStatic { method: 0, args: vec![2, 3] },
        DexInsn::Sget { dest: 0, field: 0 },
        DexInsn::IfEq { a: 1, b: 2, offset: -9 },
        DexInsn::SparseSwitchPayload { keys_and_targets: vec![(1, 10), (5, 20)] },
        DexInsn::RawInstruction { code_units: vec![0x1234, 0x00ff] },
    ] {
        assert_eq!(kotlin_to_dex(&dex_to_kotlin(&insn, &p), 0), insn);
    }
    let wide = Instruction::Invoke(InvokeInsn {
        opcode: 0x71,
        registers: vec![20, 21],
        method: MethodRef { defining_class: String::new(), name: String::new(), proto: String::new() },
    });
    assert_eq!(kotlin_to_dex(&wide, 4), DexInsn::InvokeStaticRange { method: 4, first_reg: 20, count: 2 });
    assert_eq!(
        kotlin_to_dex(&Instruction::Reg1(Reg1Insn { opcode: 0x99, reg_a: 0 }), 0),
        DexInsn::RawInstruction { code_units: vec![0x99] }
    );
    assert_eq!(
        kotlin_to_dex(&Instruction::Raw(vec![0x34, 0x12, 0x07]), 0),
        DexInsn::RawInstruction { code_units: vec![0x1234, 0x0007] }
    );
}
