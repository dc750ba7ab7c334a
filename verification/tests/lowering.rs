use reseam_patcher::invoke::{build_move, lower_call_with_result, lower_static_invoke, CallInsn};
use reseam_patcher::descriptor::MoveKind;
use reseam_patcher::search::{find_all_indices, index_of_first, index_of_first_reversed, index_of_opcode_sequence};

#[test]
fn small_registers_call_directly() {
    assert_eq!(
        lower_static_invoke(7, "(II)V", &[1, 2], None),
        Some(vec![CallInsn::InvokeStatic { method: 7, args: vec![1, 2] }])
    );
}

#[test]
fn consecutive_registers_use_a_range() {
    assert_eq!(
        lower_static_invoke(7, "(IIIIII)V", &[20, 21, 22, 23, 24, 25], None),
        Some(vec![CallInsn::InvokeStaticRange { method: 7, first_reg: 20, count: 6 }])
    );
}

#[test]
fn scattered_registers_move_into_scratch() {
    assert_eq!(
        lower_static_invoke(9, "(JLjava/lang/Object;)V", &[30, 31, 16], Some(40)),
        Some(vec![
            CallInsn::MoveWideFrom16 { dest: 40, src: 30 },
            CallInsn::MoveObjectFrom16 { dest: 42, src: 16 },
            CallInsn::InvokeStaticRange { method: 9, first_reg: 40, count: 3 },
        ])
    );
    assert_eq!(lower_static_invoke(9, "(JLjava/lang/Object;)V", &[30, 32, 16], Some(40)), None);
    assert_eq!(lower_static_invoke(9, "(I)V", &[30, 16], Some(40)), None);
    assert_eq!(lower_static_invoke(9, "(IJ)V", &[30, 16, 17], None), None);
}

#[test]
fn moves_pick_the_shortest_form() {
    assert_eq!(build_move(MoveKind::Narrow, 1, 2), CallInsn::Move { dest: 1, src: 2 });
    assert_eq!(build_move(MoveKind::Narrow, 200, 2), CallInsn::MoveFrom16 { dest: 200, src: 2 });
    assert_eq!(build_move(MoveKind::Object, 300, 2), CallInsn::MoveObject16 { dest: 300, src: 2 });
    assert_eq!(build_move(MoveKind::Wide, 3, 4), CallInsn::MoveWide { dest: 3, src: 4 });
}

#[test]
fn results_are_moved_when_asked() {
    assert_eq!(
        lower_call_with_result(7, "()I", &[], None, Some((5, false))),
        Some(vec![
            CallInsn::InvokeStatic { method: 7, args: vec![] },
            CallInsn::MoveResult { dest: 5 },
        ])
    );
    assert_eq!(lower_call_with_result(7, "()I", &[], None, Some((300, true))), None);
}

#[test]
fn opcode_sequences_are_found() {
    let code = [Some(0x12), Some(0x13), None, Some(0x12), Some(0x0e)];
    assert_eq!(index_of_opcode_sequence(&code, &[0x12, -1], 0), Some(0));
    assert_eq!(index_of_opcode_sequence(&code, &[0x12, -1], 1), Some(3));
    assert_eq!(index_of_opcode_sequence(&code, &[0x13, 0x12], 0), None);
    assert_eq!(index_of_opcode_sequence(&code, &[], 0), None);
    assert_eq!(index_of_first(&code, 1, 0x12), Some(3));
    assert_eq!(index_of_first_reversed(&code, 3, 0x12), Some(0));
    assert_eq!(index_of_first_reversed(&code, 100, 0x12), Some(3));
    assert_eq!(find_all_indices(&code, 0x12), vec![0, 3]);
}
