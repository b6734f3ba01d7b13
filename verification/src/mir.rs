//! The MIR data model: the instruction taxonomy, the constant sub-language,
//! function and struct records, the per-process MIR arena, and the build-time
//! block-state ledger.

use vstd::prelude::*;

use std::collections::HashMap;

use smallvec::SmallVec;
use string_interner::DefaultSymbol as Sym;

use crate::hir::{Intrinsic, ModScopeId, StructId};
use crate::ty::Type;
use crate::{Block, BlockId, Code, Op, OpId};

verus! {

broadcast use vstd::std_specs::hash::group_hash_axioms;

/// Relied on from `string_interner`: `DefaultSymbol` (`SymbolU32`) is an
/// opaque interned-string handle. The MIR layer stores it and hands it back;
/// it never looks inside.
#[verifier::external_type_specification]
#[verifier::external_body]
pub struct ExSymbolU32(string_interner::symbol::SymbolU32);

/// The items held by an [`InstrIdList`], in order.
pub uninterp spec fn instr_id_list(list: InstrIdList) -> Seq<InstrId>;

/// An argument or field list of an instruction, stored inline for short
/// lists: a `smallvec::SmallVec` of instruction ids, which Verus sees only
/// through [`instr_id_list`].
#[verifier::external_body]
pub struct InstrIdList {
    list: SmallVec<[InstrId; 2]>,
}

impl InstrIdList {
    /// Relies on `smallvec::SmallVec::from_vec`: the list holds exactly the
    /// given items, in order.
    #[verifier::external_body]
    pub fn from_vec(items: Vec<InstrId>) -> (r: InstrIdList)
        ensures
            instr_id_list(r) == items@,
    {
        InstrIdList { list: SmallVec::from_vec(items) }
    }

    /// Relies on `smallvec::SmallVec::into_vec`: hands the held items back,
    /// in order.
    #[verifier::external_body]
    pub fn into_vec(self) -> (r: Vec<InstrId>)
        ensures
            r@ == instr_id_list(self),
    {
        self.list.into_vec()
    }
}

/// The items held by a [`TypeList`], in order.
pub uninterp spec fn type_list(list: TypeList) -> Seq<Type>;

/// The field types of a struct descriptor, stored inline for short lists: a
/// `smallvec::SmallVec` of types, which Verus sees only through [`type_list`].
#[verifier::external_body]
pub struct TypeList {
    list: SmallVec<[Type; 2]>,
}

impl TypeList {
    /// Relies on `smallvec::SmallVec::from_vec`: the list holds exactly the
    /// given items, in order.
    #[verifier::external_body]
    pub fn from_vec(items: Vec<Type>) -> (r: TypeList)
        ensures
            type_list(r) == items@,
    {
        TypeList { list: SmallVec::from_vec(items) }
    }

    /// Relies on `smallvec::SmallVec::into_vec`: hands the held items back,
    /// in order.
    #[verifier::external_body]
    pub fn into_vec(self) -> (r: Vec<Type>)
        ensures
            r@ == type_list(self),
    {
        self.list.into_vec()
    }
}

/// The items held by an [`OffsetList`], in order.
pub uninterp spec fn offset_list(list: OffsetList) -> Seq<usize>;

/// The per-field byte offsets of a struct layout, stored inline for short
/// lists: a `smallvec::SmallVec` of offsets, which Verus sees only through
/// [`offset_list`].
#[verifier::external_body]
pub struct OffsetList {
    list: SmallVec<[usize; 2]>,
}

impl OffsetList {
    /// Relies on `smallvec::SmallVec::from_vec`: the list holds exactly the
    /// given items, in order.
    #[verifier::external_body]
    pub fn from_vec(items: Vec<usize>) -> (r: OffsetList)
        ensures
            offset_list(r) == items@,
    {
        OffsetList { list: SmallVec::from_vec(items) }
    }

    /// Relies on `smallvec::SmallVec::into_vec`: hands the held items back,
    /// in order.
    #[verifier::external_body]
    pub fn into_vec(self) -> (r: Vec<usize>)
        ensures
            r@ == offset_list(self),
    {
        self.list.into_vec()
    }
}

/// Identifies a function in the MIR arena.
#[derive(Clone, Copy, Debug, PartialEq, Eq, Hash, Structural)]
pub struct FuncId(pub u32);

/// Identifies an instruction in the MIR arena.
#[derive(Clone, Copy, Debug, PartialEq, Eq, Hash, Structural)]
pub struct InstrId(pub u32);

/// Identifies a static in the MIR arena.
#[derive(Clone, Copy, Debug, PartialEq, Eq, Hash, Structural)]
pub struct StaticId(pub u32);

/// Identifies an interned string in the MIR arena.
#[derive(Clone, Copy, Debug, PartialEq, Eq, Hash, Structural)]
pub struct StrId(pub u32);

/// One MIR operation. Operations either produce a value, perform a side
/// effect (`Store`), or terminate a block (`Ret`, `Br`, `CondBr`).
pub enum Instr {
    /// Sentinel placed at op-index 0 of every entry block.
    Void,
    Const(Const),
    Alloca(Type),
    LogicalNot(InstrId),
    Call { arguments: InstrIdList, func: FuncId },
    Intrinsic { arguments: InstrIdList, ty: Type, intr: Intrinsic },
    Reinterpret(InstrId, Type),
    Truncate(InstrId, Type),
    SignExtend(InstrId, Type),
    ZeroExtend(InstrId, Type),
    FloatCast(InstrId, Type),
    FloatToInt(InstrId, Type),
    IntToFloat(InstrId, Type),
    Load(InstrId),
    Store { location: InstrId, value: InstrId },
    AddressOfStatic(StaticId),
    Pointer { op: InstrId, is_mut: bool },
    Struct { fields: InstrIdList, id: StructId },
    StructLit { fields: InstrIdList, id: StructId },
    DirectFieldAccess { val: InstrId, index: usize },
    IndirectFieldAccess { val: InstrId, index: usize },
    Ret(InstrId),
    Br(BlockId),
    CondBr { condition: InstrId, true_bb: BlockId, false_bb: BlockId },
    /// Only valid at the beginning of a function, right after the void instruction.
    Parameter(Type),
}

/// A compile-time constant. Every constant carries its own type, which
/// [`Const::ty`] reads off locally.
#[derive(Debug, PartialEq)]
pub enum Const {
    Int { lit: u64, ty: Type },
    /// The literal is carried as the IEEE-754 bit pattern of the value.
    Float { bits: u64, ty: Type },
    Str { id: StrId, ty: Type },
    Bool(bool),
    Ty(Type),
    Mod(ModScopeId),
    StructLit { fields: Vec<Const>, id: StructId },
}

impl Const {
    /// The type of this constant: the embedded type for `Int`, `Float` and
    /// `Str`; `Bool` for booleans; `Ty` for types; `Mod` for module
    /// references; the nominated struct type for struct literals.
    pub open spec fn spec_ty(self) -> Type {
        match self {
            Const::Int { ty, .. } => ty,
            Const::Float { ty, .. } => ty,
            Const::Str { ty, .. } => ty,
            Const::Bool(_) => Type::Bool,
            Const::Ty(_) => Type::Ty,
            Const::Mod(_) => Type::Mod,
            Const::StructLit { id, .. } => Type::Struct(id),
        }
    }

    /// Computes the type of this constant from its own payload alone.
    pub fn ty(&self) -> (t: Type)
        ensures
            t == self.spec_ty(),
    {
        match self {
            Const::Int { ty, .. } => ty.clone(),
            Const::Float { ty, .. } => ty.clone(),
            Const::Str { ty, .. } => ty.clone(),
            Const::Bool(_) => Type::Bool,
            Const::Ty(_) => Type::Ty,
            Const::Mod(_) => Type::Mod,
            Const::StructLit { id, .. } => Type::Struct(*id),
        }
    }
}

/// A function: an optional symbolic name, a return type, and the ordered
/// list of its blocks.
#[derive(Debug)]
pub struct Function {
    pub name: Option<Sym>,
    pub ret_ty: Type,
    /// Index 0 is defined to be the entry block.
    pub blocks: Vec<BlockId>,
}

impl Default for Function {
    /// An anonymous function with no blocks that returns nothing.
    fn default() -> (r: Self)
        ensures
            r.name is None,
            r.ret_ty == Type::Void,
            r.blocks@ == Seq::<BlockId>::empty(),
    {
        Function { name: None, ret_ty: Type::Void, blocks: Vec::new() }
    }
}

/// Seals [`GetBlock`]: exactly the two block-reference forms below implement
/// it, so adding a third requires an intentional change here.
pub trait Sealed {}

/// A block reference: either a [`BlockId`] still to be resolved against the
/// code arena, or an already borrowed [`Block`].
pub trait GetBlock<'a>: Sealed {
    /// Whether this reference resolves in `code`.
    spec fn resolves_in(self, code: Code) -> bool;

    /// The block this reference denotes in `code`.
    spec fn block_in(self, code: Code) -> Block;

    /// Resolves this reference against `code`.
    fn get_block(self, code: &'a Code) -> (r: &'a Block)
        requires
            self.resolves_in(*code),
        ensures
            *r == self.block_in(*code),
    ;
}

impl Sealed for BlockId {
}

impl<'a> GetBlock<'a> for BlockId {
    open spec fn resolves_in(self, code: Code) -> bool {
        (self.0 as int) < code.blocks@.len()
    }

    open spec fn block_in(self, code: Code) -> Block {
        code.blocks@[self.0 as int]
    }

    fn get_block(self, code: &'a Code) -> (r: &'a Block) {
        &code.blocks[self.0 as usize]
    }
}

impl<'a> Sealed for &'a Block {
}

impl<'a> GetBlock<'a> for &'a Block {
    open spec fn resolves_in(self, code: Code) -> bool {
        true
    }

    open spec fn block_in(self, code: Code) -> Block {
        *self
    }

    fn get_block(self, code: &'a Code) -> (r: &'a Block) {
        self
    }
}

impl Code {
    /// Whether op slot `i` of `block` refers to an instruction present in
    /// the MIR arena.
    pub open spec fn slot_is_instr(self, block: Block, i: int) -> bool {
        block.ops@[i] matches Op::MirInstr(id) && (id.0 as int)
            < self.mir_code.spec_instrs().len()
    }

    /// The instruction op slot `i` of `block` refers to.
    pub open spec fn slot_instr(self, block: Block, i: int) -> Instr
        recommends
            self.slot_is_instr(block, i),
    {
        match block.ops@[i] {
            Op::MirInstr(id) => self.mir_code.spec_instrs()[id.0 as int],
            Op::Other => arbitrary(),
        }
    }

    /// Given a block reference and an op index local to that block, returns
    /// the MIR instruction the op slot refers to, or `None` if the slot
    /// holds some other kind of op.
    pub fn get_mir_instr<'a, B: GetBlock<'a>>(&'a self, block: B, op: OpId) -> (r: Option<
        &'a Instr,
    >)
        requires
            block.resolves_in(*self),
            (op.0 as int) < block.block_in(*self).ops@.len(),
            block.block_in(*self).ops@[op.0 as int] matches Op::MirInstr(id) ==> (id.0 as int)
                < self.mir_code.spec_instrs().len(),
        ensures
            match block.block_in(*self).ops@[op.0 as int] {
                Op::MirInstr(id) => r matches Some(instr) && *instr
                    == self.mir_code.spec_instrs()[id.0 as int],
                Op::Other => r is None,
            },
    {
        let block = block.get_block(self);
        match block.ops[op.0].as_mir_instr() {
            Some(instr) => Some(&self.mir_code.instrs[instr.0 as usize]),
            None => None,
        }
    }

    /// The entry block of `func`.
    pub open spec fn entry_block(self, func: Function) -> Block
        recommends
            func.blocks@.len() >= 1,
    {
        self.blocks@[func.blocks@[0].0 as int]
    }

    /// Structural well-formedness of `func`'s entry block: the function has
    /// an entry block resolving in this arena, every op slot of that block
    /// refers to a MIR instruction present in the arena, and op 0 is the
    /// Void sentinel. The emitter is required to uphold this; a violation is
    /// an emitter bug, which [`Code::num_parameters`]'s callers rule out up
    /// front (see [`Code::entry_is_wf`]).
    pub open spec fn entry_wf(self, func: Function) -> bool {
        &&& func.blocks@.len() >= 1
        &&& (func.blocks@[0].0 as int) < self.blocks@.len()
        &&& self.entry_block(func).ops@.len() >= 1
        &&& forall|i: int|
            0 <= i < self.entry_block(func).ops@.len() ==> self.slot_is_instr(
                self.entry_block(func),
                i,
            )
        &&& self.slot_instr(self.entry_block(func), 0) is Void
    }

    /// The length of the run of Parameter instructions in `block` starting
    /// at slot `i`.
    pub open spec fn param_run(self, block: Block, i: int) -> int
        decreases block.ops@.len() - i,
    {
        if 0 <= i && i < block.ops@.len() && self.slot_is_instr(block, i) && self.slot_instr(
            block,
            i,
        ) is Parameter {
            1 + self.param_run(block, i + 1)
        } else {
            0
        }
    }

    /// The number of parameters of `func`: the length of the maximal run of
    /// Parameter instructions immediately after the entry block's Void
    /// sentinel. The count is not stored anywhere; it is derived from the
    /// entry block's prefix.
    pub open spec fn spec_num_parameters(self, func: Function) -> int {
        self.param_run(self.entry_block(func), 1)
    }

    proof fn lemma_param_run_exact(self, block: Block, i: int, end: int)
        requires
            0 <= i <= end <= block.ops@.len(),
            forall|j: int|
                i <= j < end ==> self.slot_is_instr(block, j) && self.slot_instr(
                    block,
                    j,
                ) is Parameter,
            end == block.ops@.len() || !(self.slot_is_instr(block, end) && self.slot_instr(
                block,
                end,
            ) is Parameter),
        ensures
            self.param_run(block, i) == end - i,
        decreases end - i,
    {
        if i < end {
            self.lemma_param_run_exact(block, i + 1, end);
        }
    }

    /// Decides [`Code::entry_wf`] at run time; callers use it to establish
    /// [`Code::num_parameters`]'s precondition.
    pub fn entry_is_wf(&self, func: &Function) -> (r: bool)
        ensures
            r == self.entry_wf(*func),
    {
        if func.blocks.len() == 0 {
            return false;
        }
        let entry = func.blocks[0];
        if entry.0 as usize >= self.blocks.len() {
            return false;
        }
        let block = &self.blocks[entry.0 as usize];
        if block.ops.len() == 0 {
            return false;
        }
        let num_instrs = self.mir_code.num_instrs();
        let mut i: usize = 0;
        while i < block.ops.len()
            invariant
                func.blocks@.len() >= 1,
                entry == func.blocks@[0],
                (entry.0 as int) < self.blocks@.len(),
                *block == self.entry_block(*func),
                block.ops@.len() >= 1,
                num_instrs == self.mir_code.spec_instrs().len(),
                i <= block.ops@.len(),
                forall|j: int| 0 <= j < i ==> self.slot_is_instr(*block, j),
            decreases block.ops@.len() - i,
        {
            match block.ops[i].as_mir_instr() {
                Some(id) => {
                    if id.0 as usize >= num_instrs {
                        proof {
                            assert(!self.slot_is_instr(*block, i as int));
                        }
                        return false;
                    }
                },
                None => {
                    proof {
                        assert(!self.slot_is_instr(*block, i as int));
                    }
                    return false;
                },
            }
            i += 1;
        }
        proof {
            assert(self.slot_is_instr(*block, 0));
        }
        match self.get_mir_instr(block, OpId::new(0)) {
            Some(Instr::Void) => true,
            _ => false,
        }
    }

    /// Reads the entry block, confirms that op 0 is the Void sentinel, and
    /// counts the maximal run of Parameter instructions starting at op 1.
    pub fn num_parameters(&self, func: &Function) -> (n: usize)
        requires
            self.entry_wf(*func),
        ensures
            n == self.spec_num_parameters(*func),
    {
        let entry = func.blocks[0];
        let block = &self.blocks[entry.0 as usize];
        proof {
            assert(*block == self.entry_block(*func));
            assert(self.slot_is_instr(*block, 0));
        }
        match self.get_mir_instr(block, OpId::new(0)) {
            Some(Instr::Void) => {},
            _ => {
                // Unreachable: the precondition gives the Void sentinel.
                assert(false);
            },
        }
        let ops_len = block.ops.len();
        let mut n: usize = 0;
        let mut i: usize = 1;
        while i < ops_len
            invariant
                *block == self.entry_block(*func),
                self.entry_wf(*func),
                ops_len == block.ops@.len(),
                1 <= i <= ops_len,
                n == i - 1,
                forall|j: int|
                    1 <= j < i ==> self.slot_is_instr(*block, j) && self.slot_instr(
                        *block,
                        j,
                    ) is Parameter,
            decreases ops_len - i,
        {
            proof {
                assert(self.slot_is_instr(*block, i as int));
            }
            match self.get_mir_instr(block, OpId::new(i)) {
                Some(Instr::Parameter(_)) => {
                    n += 1;
                },
                _ => {
                    // The first slot past the maximal Parameter run.
                    proof {
                        self.lemma_param_run_exact(*block, 1, i as int);
                    }
                    return n;
                },
            }
            i += 1;
        }
        proof {
            self.lemma_param_run_exact(*block, 1, ops_len as int);
        }
        n
    }
}

/// Identifier stability: appending a record to an arena leaves every record
/// that an earlier identifier resolves to unchanged, and the new identifier
/// resolves to the appended record.
pub proof fn lemma_identifier_stability<T>(arena: Seq<T>, record: T)
    ensures
        forall|i: int| 0 <= i < arena.len() ==> arena.push(record)[i] == arena[i],
        arena.push(record)[arena.len() as int] == record,
{
}

/// Ledger monotonicity: along any chain of arena states in which each step
/// advances the ledger — as [`MirCode::start_block`] and
/// [`MirCode::end_block`] do — the sequence of states observed for a block
/// never moves backwards in the `Created` → `Started` → `Ended` order.
pub proof fn lemma_ledger_monotonic(states: Seq<MirCode>, block: BlockId, i: int, j: int)
    requires
        0 <= i <= j < states.len(),
        forall|k: int|
            0 <= k < states.len() - 1 ==> #[trigger] states[k].ledger_advances(states[k + 1]),
    ensures
        states[i].spec_block_state(block).stage() <= states[j].spec_block_state(block).stage(),
    decreases j - i,
{
    if i < j {
        lemma_ledger_monotonic(states, block, i, j - 1);
        assert(states[j - 1].ledger_advances(states[(j - 1) + 1]));
    }
}

/// A struct descriptor: the ordered field types and the computed layout.
/// Both are populated by the front end before consumers read them.
pub struct Struct {
    pub field_tys: TypeList,
    pub layout: StructLayout,
}

/// The computed byte-level placement of a struct: per-field offsets, overall
/// alignment, size, and stride (size rounded up to alignment).
pub struct StructLayout {
    pub field_offsets: OffsetList,
    pub alignment: usize,
    pub size: usize,
    pub stride: usize,
}

/// The construction-time state of a block. A block not yet touched is
/// `Created`; states advance monotonically `Created` → `Started` → `Ended`.
#[derive(Clone, Copy, Debug, PartialEq, Eq, Structural)]
pub enum BlockState {
    Created,
    Started,
    Ended,
}

impl BlockState {
    /// The position of a state in the `Created` → `Started` → `Ended` order.
    pub open spec fn stage(self) -> int {
        match self {
            BlockState::Created => 0,
            BlockState::Started => 1,
            BlockState::Ended => 2,
        }
    }
}

/// An interned C-compatible string: its bytes followed by a terminating nul.
/// The MIR layer does not validate absence of interior nuls; the emitter must.
pub struct CStrBytes {
    bytes: Vec<u8>,
}

impl CStrBytes {
    /// The stored bytes, terminating nul included.
    pub closed spec fn bytes_with_nul(self) -> Seq<u8> {
        self.bytes@
    }

    /// The string's content, without the terminating nul.
    pub open spec fn content(self) -> Seq<u8> {
        self.bytes_with_nul().take(self.bytes_with_nul().len() - 1)
    }

    /// Well-formed: at least the terminating nul is present, and it is last.
    pub open spec fn wf(self) -> bool {
        &&& self.bytes_with_nul().len() >= 1
        &&& self.bytes_with_nul().last() == 0u8
    }

    /// Builds an interned string from its content by appending the nul.
    pub fn new(content: Vec<u8>) -> (r: CStrBytes)
        ensures
            r.wf(),
            r.content() == content@,
            r.bytes_with_nul() == content@.push(0u8),
    {
        let ghost orig = content@;
        let mut bytes = content;
        bytes.push(0);
        proof {
            assert(bytes@.take(orig.len() as int) =~= orig);
        }
        CStrBytes { bytes }
    }

    /// The bytes in a form directly passable to a C-style consumer.
    pub fn as_bytes_with_nul(&self) -> (r: &Vec<u8>)
        ensures
            r@ == self.bytes_with_nul(),
    {
        &self.bytes
    }
}

/// The MIR arena: five append-only containers, plus the transient block-state
/// ledger used only while functions are being built.
///
/// Append operations return the new record's identifier; identifiers already
/// handed out keep resolving to the records they named.
pub struct MirCode {
    strings: Vec<CStrBytes>,
    functions: Vec<Function>,
    statics: Vec<Const>,
    structs: HashMap<u32, Struct>,
    instrs: Vec<Instr>,
    block_states: HashMap<u32, BlockState>,
}

impl MirCode {
    /// The interned strings, in order of appending.
    pub closed spec fn spec_strings(self) -> Seq<CStrBytes> {
        self.strings@
    }

    /// The functions, in order of appending.
    pub closed spec fn spec_functions(self) -> Seq<Function> {
        self.functions@
    }

    /// The statics, in order of appending.
    pub closed spec fn spec_statics(self) -> Seq<Const> {
        self.statics@
    }

    /// The instructions, in order of appending.
    pub closed spec fn spec_instrs(self) -> Seq<Instr> {
        self.instrs@
    }

    /// The descriptor registered for a struct id, if any.
    pub closed spec fn spec_struct_for(self, id: StructId) -> Option<Struct> {
        if self.structs@.contains_key(id.0) {
            Some(self.structs@[id.0])
        } else {
            None
        }
    }

    /// The ledger state of a block. A block with no ledger entry is `Created`.
    pub closed spec fn spec_block_state(self, block: BlockId) -> BlockState {
        if self.block_states@.contains_key(block.0) {
            self.block_states@[block.0]
        } else {
            BlockState::Created
        }
    }

    /// The arenas of `self` and `r` hold the same records.
    pub open spec fn arenas_unchanged(self, r: MirCode) -> bool {
        &&& r.spec_strings() == self.spec_strings()
        &&& r.spec_functions() == self.spec_functions()
        &&& r.spec_statics() == self.spec_statics()
        &&& r.spec_instrs() == self.spec_instrs()
        &&& forall|id: StructId| r.spec_struct_for(id) == self.spec_struct_for(id)
    }

    /// The ledger of `self` and `r` gives every block the same state.
    pub open spec fn ledger_unchanged(self, r: MirCode) -> bool {
        forall|b: BlockId| r.spec_block_state(b) == self.spec_block_state(b)
    }

    /// Every block's ledger state in `r` stands at least as far along the
    /// `Created` → `Started` → `Ended` order as it does in `self`.
    pub open spec fn ledger_advances(self, r: MirCode) -> bool {
        forall|b: BlockId| self.spec_block_state(b).stage() <= r.spec_block_state(b).stage()
    }

    /// Appends an interned string and returns its identifier.
    pub fn add_string(&mut self, string: CStrBytes) -> (id: StrId)
        requires
            old(self).spec_strings().len() < 0x1_0000_0000,
        ensures
            final(self).spec_strings() == old(self).spec_strings().push(string),
            id.0 == old(self).spec_strings().len(),
            final(self).spec_functions() == old(self).spec_functions(),
            final(self).spec_statics() == old(self).spec_statics(),
            final(self).spec_instrs() == old(self).spec_instrs(),
            forall|s: StructId| final(self).spec_struct_for(s) == old(self).spec_struct_for(s),
            old(self).ledger_unchanged(*final(self)),
    {
        let id = StrId(self.strings.len() as u32);
        self.strings.push(string);
        id
    }

    /// Appends a function and returns its identifier.
    pub fn add_function(&mut self, function: Function) -> (id: FuncId)
        requires
            old(self).spec_functions().len() < 0x1_0000_0000,
        ensures
            final(self).spec_functions() == old(self).spec_functions().push(function),
            id.0 == old(self).spec_functions().len(),
            final(self).spec_strings() == old(self).spec_strings(),
            final(self).spec_statics() == old(self).spec_statics(),
            final(self).spec_instrs() == old(self).spec_instrs(),
            forall|s: StructId| final(self).spec_struct_for(s) == old(self).spec_struct_for(s),
            old(self).ledger_unchanged(*final(self)),
    {
        let id = FuncId(self.functions.len() as u32);
        self.functions.push(function);
        id
    }

    /// Appends a static and returns its identifier.
    pub fn add_static(&mut self, value: Const) -> (id: StaticId)
        requires
            old(self).spec_statics().len() < 0x1_0000_0000,
        ensures
            final(self).spec_statics() == old(self).spec_statics().push(value),
            id.0 == old(self).spec_statics().len(),
            final(self).spec_strings() == old(self).spec_strings(),
            final(self).spec_functions() == old(self).spec_functions(),
            final(self).spec_instrs() == old(self).spec_instrs(),
            forall|s: StructId| final(self).spec_struct_for(s) == old(self).spec_struct_for(s),
            old(self).ledger_unchanged(*final(self)),
    {
        let id = StaticId(self.statics.len() as u32);
        self.statics.push(value);
        id
    }

    /// Appends an instruction and returns its identifier.
    pub fn add_instr(&mut self, instr: Instr) -> (id: InstrId)
        requires
            old(self).spec_instrs().len() < 0x1_0000_0000,
        ensures
            final(self).spec_instrs() == old(self).spec_instrs().push(instr),
            id.0 == old(self).spec_instrs().len(),
            final(self).spec_strings() == old(self).spec_strings(),
            final(self).spec_functions() == old(self).spec_functions(),
            final(self).spec_statics() == old(self).spec_statics(),
            forall|s: StructId| final(self).spec_struct_for(s) == old(self).spec_struct_for(s),
            old(self).ledger_unchanged(*final(self)),
    {
        let id = InstrId(self.instrs.len() as u32);
        self.instrs.push(instr);
        id
    }

    /// Registers the descriptor for a struct id, replacing any earlier one.
    pub fn add_struct(&mut self, id: StructId, desc: Struct)
        ensures
            final(self).spec_struct_for(id) == Some(desc),
            forall|s: StructId| s.0 != id.0 ==> final(self).spec_struct_for(s) == old(
                self,
            ).spec_struct_for(s),
            final(self).spec_strings() == old(self).spec_strings(),
            final(self).spec_functions() == old(self).spec_functions(),
            final(self).spec_statics() == old(self).spec_statics(),
            final(self).spec_instrs() == old(self).spec_instrs(),
            old(self).ledger_unchanged(*final(self)),
    {
        self.structs.insert(id.0, desc);
    }

    /// Looks up the interned string an identifier resolves to.
    pub fn string(&self, id: StrId) -> (r: &CStrBytes)
        requires
            id.0 < self.spec_strings().len(),
        ensures
            *r == self.spec_strings()[id.0 as int],
    {
        &self.strings[id.0 as usize]
    }

    /// Looks up the function an identifier resolves to.
    pub fn function(&self, id: FuncId) -> (r: &Function)
        requires
            id.0 < self.spec_functions().len(),
        ensures
            *r == self.spec_functions()[id.0 as int],
    {
        &self.functions[id.0 as usize]
    }

    /// Looks up the static an identifier resolves to.
    pub fn static_value(&self, id: StaticId) -> (r: &Const)
        requires
            id.0 < self.spec_statics().len(),
        ensures
            *r == self.spec_statics()[id.0 as int],
    {
        &self.statics[id.0 as usize]
    }

    /// Looks up the instruction an identifier resolves to.
    pub fn instr(&self, id: InstrId) -> (r: &Instr)
        requires
            id.0 < self.spec_instrs().len(),
        ensures
            *r == self.spec_instrs()[id.0 as int],
    {
        &self.instrs[id.0 as usize]
    }

    /// The number of instructions appended so far.
    pub fn num_instrs(&self) -> (n: usize)
        ensures
            n == self.spec_instrs().len(),
    {
        self.instrs.len()
    }

    /// Looks up the descriptor registered for a struct id.
    pub fn get_struct(&self, id: StructId) -> (r: Option<&Struct>)
        ensures
            match r {
                Some(desc) => self.spec_struct_for(id) == Some(*desc),
                None => self.spec_struct_for(id) is None,
            },
    {
        self.structs.get(&id.0)
    }

    /// Reads a block's ledger state; a block never touched is `Created`.
    pub fn get_block_state(&self, block: BlockId) -> (state: BlockState)
        ensures
            state == self.spec_block_state(block),
    {
        match self.block_states.get(&block.0) {
            Some(state) => *state,
            None => BlockState::Created,
        }
    }

    /// Marks a block as started. Starting an already-started block is
    /// permitted (idempotent re-entry); starting an ended block is an emitter
    /// bug, which callers rule out up front. The touched block's state only
    /// ever advances in the `Created` → `Started` → `Ended` order, and no
    /// other block's state moves.
    pub fn start_block(&mut self, block: BlockId)
        requires
            old(self).spec_block_state(block) != BlockState::Ended,
        ensures
            final(self).spec_block_state(block) == BlockState::Started,
            forall|b: BlockId| b.0 != block.0 ==> final(self).spec_block_state(b) == old(
                self,
            ).spec_block_state(b),
            old(self).ledger_advances(*final(self)),
            old(self).arenas_unchanged(*final(self)),
    {
        self.block_states.insert(block.0, BlockState::Started);
    }

    /// Marks a started block as ended. Ending a block in any other state is
    /// an emitter bug, which callers rule out up front. The touched block's
    /// state only ever advances in the `Created` → `Started` → `Ended` order,
    /// and no other block's state moves.
    pub fn end_block(&mut self, block: BlockId)
        requires
            old(self).spec_block_state(block) == BlockState::Started,
        ensures
            final(self).spec_block_state(block) == BlockState::Ended,
            forall|b: BlockId| b.0 != block.0 ==> final(self).spec_block_state(b) == old(
                self,
            ).spec_block_state(b),
            old(self).ledger_advances(*final(self)),
            old(self).arenas_unchanged(*final(self)),
    {
        self.block_states.insert(block.0, BlockState::Ended);
    }

    /// The position in `func.blocks` of the first block whose ledger state is
    /// not `Ended`, or `None` when every listed block has been ended. Callers
    /// use it to establish [`MirCode::check_all_blocks_ended`]'s precondition.
    pub fn first_unended_block(&self, func: &Function) -> (r: Option<usize>)
        ensures
            match r {
                None => forall|i: int|
                    0 <= i < func.blocks@.len() ==> self.spec_block_state(func.blocks@[i])
                        == BlockState::Ended,
                Some(pos) => {
                    &&& pos < func.blocks@.len()
                    &&& self.spec_block_state(func.blocks@[pos as int]) != BlockState::Ended
                    &&& forall|j: int|
                        0 <= j < pos ==> self.spec_block_state(func.blocks@[j])
                            == BlockState::Ended
                },
            },
    {
        let mut i: usize = 0;
        while i < func.blocks.len()
            invariant
                i <= func.blocks@.len(),
                forall|j: int|
                    0 <= j < i ==> self.spec_block_state(func.blocks@[j]) == BlockState::Ended,
            decreases func.blocks@.len() - i,
        {
            let state = self.get_block_state(func.blocks[i]);
            match state {
                BlockState::Ended => {},
                _ => {
                    return Some(i);
                },
            }
            i += 1;
        }
        None
    }

    /// Confirms that every block the function lists has been ended. A block
    /// still `Created` or `Started` at this point is an emitter bug, which
    /// callers rule out up front (see [`MirCode::first_unended_block`]).
    pub fn check_all_blocks_ended(&self, func: &Function)
        requires
            forall|i: int|
                0 <= i < func.blocks@.len() ==> self.spec_block_state(func.blocks@[i])
                    == BlockState::Ended,
    {
        let mut i: usize = 0;
        while i < func.blocks.len()
            invariant
                i <= func.blocks@.len(),
                forall|j: int|
                    0 <= j < func.blocks@.len() ==> self.spec_block_state(func.blocks@[j])
                        == BlockState::Ended,
            decreases func.blocks@.len() - i,
        {
            let state = self.get_block_state(func.blocks[i]);
            assert(state == BlockState::Ended);
            i += 1;
        }
    }
}

impl Default for MirCode {
    /// An empty arena: no records, and every block's ledger state `Created`.
    fn default() -> (r: Self)
        ensures
            r.spec_strings() == Seq::<CStrBytes>::empty(),
            r.spec_functions() == Seq::<Function>::empty(),
            r.spec_statics() == Seq::<Const>::empty(),
            r.spec_instrs() == Seq::<Instr>::empty(),
            forall|id: StructId| r.spec_struct_for(id) is None,
            forall|b: BlockId| r.spec_block_state(b) == BlockState::Created,
    {
        MirCode {
            strings: Vec::new(),
            functions: Vec::new(),
            statics: Vec::new(),
            structs: HashMap::new(),
            instrs: Vec::new(),
            block_states: HashMap::new(),
        }
    }
}

} // verus!
