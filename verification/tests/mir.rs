use mircode::hir::{ModScopeId, StructId};
use mircode::mir::{
    BlockState, CStrBytes, Const, Function, Instr, InstrId, InstrIdList, MirCode, OffsetList,
    StrId, Struct, StructLayout, TypeList,
};
use mircode::ty::Type;
use mircode::{Block, Code, Op, OpId};

fn int32() -> Type {
    Type::Int {
        width: 32,
        is_signed: true,
    }
}

fn new_code() -> Code {
    Code {
        blocks: Vec::new(),
        mir_code: MirCode::default(),
    }
}

#[test]
fn const_ty_int() {
    let c = Const::Int {
        lit: 7,
        ty: int32(),
    };
    assert_eq!(c.ty(), int32());
}

#[test]
fn const_ty_float() {
    let c = Const::Float {
        bits: 1.5f64.to_bits(),
        ty: Type::Float { width: 64 },
    };
    assert_eq!(c.ty(), Type::Float { width: 64 });
}

#[test]
fn const_ty_str() {
    let ptr_u8 = Type::Pointer {
        pointee: Box::new(Type::Int {
            width: 8,
            is_signed: false,
        }),
        is_mut: false,
    };
    let c = Const::Str {
        id: StrId(0),
        ty: Type::Pointer {
            pointee: Box::new(Type::Int {
                width: 8,
                is_signed: false,
            }),
            is_mut: false,
        },
    };
    assert_eq!(c.ty(), ptr_u8);
}

#[test]
fn const_ty_bool() {
    assert_eq!(Const::Bool(true).ty(), Type::Bool);
    assert_eq!(Const::Bool(false).ty(), Type::Bool);
}

#[test]
fn const_ty_ty() {
    assert_eq!(Const::Ty(Type::Void).ty(), Type::Ty);
    assert_eq!(Const::Ty(Type::Bool).ty(), Type::Ty);
    assert_eq!(Const::Ty(int32()).ty(), Type::Ty);
}

#[test]
fn const_ty_mod() {
    assert_eq!(Const::Mod(ModScopeId(3)).ty(), Type::Mod);
}

#[test]
fn const_ty_struct_lit_round_trip() {
    let c = Const::StructLit {
        fields: vec![Const::Int {
            lit: 1,
            ty: int32(),
        }],
        id: StructId(5),
    };
    assert_eq!(c.ty(), Type::Struct(StructId(5)));
}

#[test]
fn empty_function() {
    let mut code = new_code();
    let void_id = code.mir_code.add_instr(Instr::Void);
    let zero = code.mir_code.add_instr(Instr::Const(Const::Int {
        lit: 0,
        ty: int32(),
    }));
    let ret = code.mir_code.add_instr(Instr::Ret(zero));
    let b0 = code.add_block(Block {
        ops: vec![Op::MirInstr(void_id), Op::MirInstr(zero), Op::MirInstr(ret)],
    });
    let mut func = Function::default();
    func.blocks.push(b0);
    code.mir_code.start_block(b0);
    code.mir_code.end_block(b0);
    assert_eq!(code.mir_code.first_unended_block(&func), None);
    code.mir_code.check_all_blocks_ended(&func);
    assert!(code.entry_is_wf(&func));
    assert_eq!(code.num_parameters(&func), 0);
}

#[test]
fn parameters_counted() {
    let mut code = new_code();
    let void_id = code.mir_code.add_instr(Instr::Void);
    let p0 = code.mir_code.add_instr(Instr::Parameter(int32()));
    let p1 = code.mir_code.add_instr(Instr::Parameter(Type::Bool));
    let seven = code.mir_code.add_instr(Instr::Const(Const::Int {
        lit: 7,
        ty: int32(),
    }));
    let ret = code.mir_code.add_instr(Instr::Ret(seven));
    let b0 = code.add_block(Block {
        ops: vec![
            Op::MirInstr(void_id),
            Op::MirInstr(p0),
            Op::MirInstr(p1),
            Op::MirInstr(seven),
            Op::MirInstr(ret),
        ],
    });
    let mut func = Function::default();
    func.blocks.push(b0);
    assert!(code.entry_is_wf(&func));
    assert_eq!(code.num_parameters(&func), 2);
}

#[test]
fn parameter_interrupted() {
    let mut code = new_code();
    let void_id = code.mir_code.add_instr(Instr::Void);
    let p0 = code.mir_code.add_instr(Instr::Parameter(int32()));
    let c = code.mir_code.add_instr(Instr::Const(Const::Bool(true)));
    let p1 = code.mir_code.add_instr(Instr::Parameter(int32()));
    let ret = code.mir_code.add_instr(Instr::Ret(c));
    let b0 = code.add_block(Block {
        ops: vec![
            Op::MirInstr(void_id),
            Op::MirInstr(p0),
            Op::MirInstr(c),
            Op::MirInstr(p1),
            Op::MirInstr(ret),
        ],
    });
    let mut func = Function::default();
    func.blocks.push(b0);
    assert_eq!(code.num_parameters(&func), 1);
}

#[test]
fn missing_void_rejected() {
    let mut code = new_code();
    let p0 = code.mir_code.add_instr(Instr::Parameter(int32()));
    let zero = code.mir_code.add_instr(Instr::Const(Const::Int {
        lit: 0,
        ty: int32(),
    }));
    let ret = code.mir_code.add_instr(Instr::Ret(zero));
    let b0 = code.add_block(Block {
        ops: vec![Op::MirInstr(p0), Op::MirInstr(zero), Op::MirInstr(ret)],
    });
    let mut func = Function::default();
    func.blocks.push(b0);
    // The Void-sentinel invariant is violated, so the parameter count is not
    // available for this function.
    assert!(!code.entry_is_wf(&func));
}

#[test]
fn double_end_rejected() {
    let mut code = new_code();
    let b0 = code.add_block(Block { ops: Vec::new() });
    code.mir_code.start_block(b0);
    code.mir_code.end_block(b0);
    // Ending again would be an emitter bug: the block is already in the
    // Ended state, which end_block's precondition rules out.
    assert_eq!(code.mir_code.get_block_state(b0), BlockState::Ended);
}

#[test]
fn unfinished_block_found() {
    let mut code = new_code();
    let b0 = code.add_block(Block { ops: Vec::new() });
    let b1 = code.add_block(Block { ops: Vec::new() });
    let mut func = Function::default();
    func.blocks.push(b0);
    func.blocks.push(b1);
    code.mir_code.start_block(b0);
    code.mir_code.start_block(b1);
    code.mir_code.end_block(b0);
    // The second listed block was never ended; it is named by position.
    assert_eq!(code.mir_code.first_unended_block(&func), Some(1));
    assert_ne!(code.mir_code.get_block_state(b1), BlockState::Ended);
}

#[test]
fn ledger_states_advance() {
    let mut code = new_code();
    let b0 = code.add_block(Block { ops: Vec::new() });
    let b1 = code.add_block(Block { ops: Vec::new() });
    assert_eq!(code.mir_code.get_block_state(b0), BlockState::Created);
    code.mir_code.start_block(b0);
    assert_eq!(code.mir_code.get_block_state(b0), BlockState::Started);
    // Starting an already-started block is idempotent re-entry.
    code.mir_code.start_block(b0);
    assert_eq!(code.mir_code.get_block_state(b0), BlockState::Started);
    // Other blocks are untouched.
    assert_eq!(code.mir_code.get_block_state(b1), BlockState::Created);
    code.mir_code.end_block(b0);
    assert_eq!(code.mir_code.get_block_state(b0), BlockState::Ended);
    assert_eq!(code.mir_code.get_block_state(b1), BlockState::Created);
}

#[test]
fn get_mir_instr_both_forms() {
    let mut code = new_code();
    let void_id = code.mir_code.add_instr(Instr::Void);
    let b0 = code.add_block(Block {
        ops: vec![Op::MirInstr(void_id), Op::Other],
    });
    // By block id.
    match code.get_mir_instr(b0, OpId::new(0)) {
        Some(instr) => assert!(matches!(instr, Instr::Void)),
        None => panic!("op 0 holds a MIR instruction"),
    }
    // A non-MIR op slot has no MIR instruction.
    assert!(code.get_mir_instr(b0, OpId::new(1)).is_none());
    // By borrowed block.
    let block = &code.blocks[0];
    match code.get_mir_instr(block, OpId::new(0)) {
        Some(instr) => assert!(matches!(instr, Instr::Void)),
        None => panic!("op 0 holds a MIR instruction"),
    }
}

#[test]
fn identifier_stability_across_appends() {
    let mut mir = MirCode::default();
    let s0 = mir.add_string(CStrBytes::new(b"first".to_vec()));
    let s1 = mir.add_string(CStrBytes::new(b"second".to_vec()));
    let k0 = mir.add_static(Const::Bool(true));
    let i0 = mir.add_instr(Instr::Void);
    let f0 = mir.add_function(Function::default());
    // Later appends leave every earlier identifier resolving to the same record.
    let _ = mir.add_string(CStrBytes::new(b"third".to_vec()));
    let _ = mir.add_static(Const::Mod(ModScopeId(1)));
    let _ = mir.add_instr(Instr::Parameter(Type::Bool));
    let _ = mir.add_function(Function::default());
    assert_eq!(mir.string(s0).as_bytes_with_nul(), &b"first\0".to_vec());
    assert_eq!(mir.string(s1).as_bytes_with_nul(), &b"second\0".to_vec());
    assert_eq!(mir.static_value(k0), &Const::Bool(true));
    assert!(matches!(mir.instr(i0), Instr::Void));
    assert!(mir.function(f0).name.is_none());
}

#[test]
fn interned_string_is_nul_terminated() {
    let s = CStrBytes::new(b"hi".to_vec());
    assert_eq!(s.as_bytes_with_nul(), &vec![b'h', b'i', 0]);
    let empty = CStrBytes::new(Vec::new());
    assert_eq!(empty.as_bytes_with_nul(), &vec![0]);
}

#[test]
fn function_default_is_empty() {
    let f = Function::default();
    assert!(f.name.is_none());
    assert_eq!(f.ret_ty, Type::Void);
    assert!(f.blocks.is_empty());
}

#[test]
fn function_name_symbol_kept() {
    let mut interner = string_interner::StringInterner::<string_interner::DefaultBackend>::new();
    let sym = interner.get_or_intern("main");
    let mut mir = MirCode::default();
    let f = mir.add_function(Function {
        name: Some(sym),
        ret_ty: Type::Void,
        blocks: Vec::new(),
    });
    assert_eq!(mir.function(f).name, Some(sym));
}

#[test]
fn struct_registry() {
    let mut mir = MirCode::default();
    let id = StructId(9);
    assert!(mir.get_struct(id).is_none());
    mir.add_struct(
        id,
        Struct {
            field_tys: TypeList::from_vec(vec![int32(), Type::Bool]),
            layout: StructLayout {
                field_offsets: OffsetList::from_vec(vec![0, 4]),
                alignment: 4,
                size: 5,
                stride: 8,
            },
        },
    );
    let desc = mir.get_struct(id).expect("registered");
    assert_eq!(desc.layout.alignment, 4);
    assert_eq!(desc.layout.size, 5);
    assert_eq!(desc.layout.stride, 8);
    assert!(mir.get_struct(StructId(10)).is_none());
}

#[test]
fn instr_id_list_round_trip() {
    let items = vec![InstrId(4), InstrId(8), InstrId(15)];
    let list = InstrIdList::from_vec(items.clone());
    assert_eq!(list.into_vec(), items);
}

#[test]
fn type_list_round_trip() {
    let items = vec![int32(), Type::Bool, Type::Mod];
    let list = TypeList::from_vec(items.clone());
    assert_eq!(list.into_vec(), items);
}

#[test]
fn offset_list_round_trip() {
    let items = vec![0usize, 8, 24];
    let list = OffsetList::from_vec(items.clone());
    assert_eq!(list.into_vec(), items);
}
