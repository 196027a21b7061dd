//! Derives the value types that instructions leave on the evaluation stack.
//!
//! The pass walks an instruction tree once, from the root down, and stops at
//! the first index that does not fit its table. It recurses as deep as the
//! tree is nested, so a tree nested deeper than the call stack allows is
//! beyond it.

use crate::context::BlockContext;
use crate::utils::{LoError, LoErrorView, LoLocationView};
use crate::wasm::{WasmInstr, WasmType};
use vstd::prelude::*;

verus! {

/// The table in which an index was looked up and not found.
pub enum IndexFault {
    /// A global index beyond the module's globals.
    Global,
    /// A type index beyond the module's function types.
    FnType,
    /// A local index beyond the function's parameters and locals.
    Local,
}

/// The type of the global, or the error for a global that does not exist.
fn checked_global_type(ctx: &BlockContext, index: u32) -> (result: Result<WasmType, LoError>)
    ensures
        match result {
            Ok(value_type) => ctx.global_type(index) == Some(value_type),
            Err(err) => ctx.global_type(index) is None && err@ == IndexFault::Global.error(),
        },
{
    if (index as usize) < ctx.module.globals.len() {
        Ok(ctx.module.globals[index as usize].kind.value_type)
    } else {
        Err(LoError::unreachable("src/type_checker.rs", 36))
    }
}

/// The outputs of the function type, or the error for a type that does not
/// exist.
fn checked_outputs(ctx: &BlockContext, index: u32) -> (result: Result<Vec<WasmType>, LoError>)
    ensures
        match result {
            Ok(outputs) => ctx.fn_type_outputs(index) == Some(outputs@),
            Err(err) => ctx.fn_type_outputs(index) is None && err@ == IndexFault::FnType.error(),
        },
{
    if (index as usize) < ctx.module.types.len() {
        let outputs = &ctx.module.types[index as usize].outputs;
        let mut copy: Vec<WasmType> = Vec::new();
        let mut i: usize = 0;
        while i < outputs.len()
            invariant
                i <= outputs.len(),
                copy@ == outputs@.take(i as int),
            decreases outputs.len() - i,
        {
            copy.push(outputs[i]);
            i += 1;
        }
        Ok(copy)
    } else {
        Err(LoError::unreachable("src/type_checker.rs", 64))
    }
}

/// The type of the local, or the error for a local that does not exist.
fn checked_local_type(ctx: &BlockContext, index: u32) -> (result: Result<WasmType, LoError>)
    ensures
        match result {
            Ok(value_type) => ctx.local_type(index) == Some(value_type),
            Err(err) => ctx.local_type(index) is None && err@ == IndexFault::Local.error(),
        },
{
    match ctx.get_local_type(index) {
        Some(value_type) => Ok(value_type),
        None => Err(LoError::unreachable("src/type_checker.rs", 78)),
    }
}

impl IndexFault {
    /// The line of this file on which the fault is found.
    pub open spec fn line(self) -> u32 {
        match self {
            IndexFault::Global => 36,
            IndexFault::FnType => 64,
            IndexFault::Local => 78,
        }
    }

    /// The error that reports the fault: a broken invariant of the
    /// compiler, at no place in the user's source.
    pub open spec fn error(self) -> LoErrorView {
        LoErrorView::unreachable("src/type_checker.rs"@, self.line())
    }
}

/// The types that an optional block type stands for: itself, or nothing.
pub open spec fn block_types(block_type: Option<WasmType>) -> Seq<WasmType> {
    match block_type {
        Some(value_type) => seq![value_type],
        None => Seq::empty(),
    }
}

/// The types that `second` leaves, once `first` has been checked and what it
/// leaves set aside: the fault of `first`, if it has one, else `second`.
pub open spec fn after<T>(
    first: Result<T, IndexFault>,
    second: Result<Seq<WasmType>, IndexFault>,
) -> Result<Seq<WasmType>, IndexFault> {
    match first {
        Ok(_) => second,
        Err(fault) => Err(fault),
    }
}

/// The types that the instruction leaves on the stack, in order, or the
/// first fault met on the way to them.
///
/// Forms that stand for several values are typed through their parts. The
/// statement forms leave nothing and are not looked into: whoever emits them
/// answers for what they hold. A binary operator is typed by its left
/// operand, after its right operand has been checked; the operators are all
/// of one type on both sides. Memory instructions and loads check their
/// operand and then leave a fixed type. A call is typed by the function type
/// whose index it carries, and structured control by its declared result.
pub open spec fn type_of(ctx: &BlockContext, instr: &WasmInstr) -> Result<Seq<WasmType>, IndexFault>
    decreases instr,
{
    match instr {
        WasmInstr::Unreachable => Ok(Seq::empty()),
        WasmInstr::I32ConstLazy { .. } => Ok(seq![WasmType::I32]),
        WasmInstr::I32Const { .. } => Ok(seq![WasmType::I32]),
        WasmInstr::I64Const { .. } => Ok(seq![WasmType::I64]),
        WasmInstr::MultiValueEmit { values } => types_of(ctx, values@),
        WasmInstr::StructLoad { primitive_loads, .. } => types_of(ctx, primitive_loads@),
        WasmInstr::StructGet { primitive_gets, .. } => types_of(ctx, primitive_gets@),
        WasmInstr::NoEmit { instr } => type_of(ctx, instr),
        WasmInstr::NoTypeCheck { .. } => Ok(Seq::empty()),
        WasmInstr::Assign { .. } => Ok(Seq::empty()),
        WasmInstr::Drop { .. } => Ok(Seq::empty()),
        WasmInstr::Return { .. } => Ok(Seq::empty()),
        WasmInstr::Branch { .. } => Ok(Seq::empty()),
        WasmInstr::MemorySize => Ok(seq![WasmType::I32]),
        WasmInstr::MemoryGrow { size } => after(type_of(ctx, size), Ok(seq![WasmType::I32])),
        WasmInstr::BinaryOp { lhs, rhs, .. } => after(type_of(ctx, rhs), type_of(ctx, lhs)),
        WasmInstr::Load { kind, address_instr, .. } => after(
            type_of(ctx, address_instr),
            Ok(seq![kind.value_type()]),
        ),
        WasmInstr::GlobalGet { global_index } => match ctx.global_type(*global_index) {
            Some(value_type) => Ok(seq![value_type]),
            None => Err(IndexFault::Global),
        },
        WasmInstr::LocalGet { local_index } => match ctx.local_type(*local_index) {
            Some(value_type) => Ok(seq![value_type]),
            None => Err(IndexFault::Local),
        },
        WasmInstr::Call { fn_type_index, .. } => match ctx.fn_type_outputs(*fn_type_index) {
            Some(outputs) => Ok(outputs),
            None => Err(IndexFault::FnType),
        },
        WasmInstr::Block { block_type, .. } => Ok(block_types(*block_type)),
        WasmInstr::Loop { block_type, .. } => Ok(block_types(*block_type)),
        WasmInstr::If { block_type, .. } => Ok(block_types(*block_type)),
    }
}

/// The types that the instructions leave on the stack when they run one
/// after the other: the types of each, in order. A fault in one of them is
/// the fault of the sequence, and the earliest one wins.
pub open spec fn types_of(ctx: &BlockContext, instrs: Seq<WasmInstr>) -> Result<
    Seq<WasmType>,
    IndexFault,
>
    decreases instrs,
{
    if instrs.len() == 0 {
        Ok(Seq::empty())
    } else {
        match types_of(ctx, instrs.drop_last()) {
            Ok(front) => match type_of(ctx, &instrs.last()) {
                Ok(back) => Ok(front + back),
                Err(fault) => Err(fault),
            },
            Err(fault) => Err(fault),
        }
    }
}

/// Derives the types that a sequence of instructions leaves on the stack:
/// the types of each instruction, in the order of the instructions. The empty
/// sequence leaves nothing. Checking stops at the first instruction that has
/// a fault, and that fault is returned as an error at the internal location.
pub fn get_types(ctx: &BlockContext, instrs: &Vec<WasmInstr>) -> (result: Result<
    Vec<WasmType>,
    LoError,
>)
    ensures
        match result {
            Ok(types) => types_of(ctx, instrs@) == Ok::<Seq<WasmType>, IndexFault>(types@),
            Err(err) => types_of(ctx, instrs@) matches Err(fault) && err@ == fault.error(),
        },
        instrs@.len() == 0 ==> (result matches Ok(types) && types@.len() == 0),
    decreases instrs,
{
    let mut types: Vec<WasmType> = Vec::new();
    let mut i: usize = 0;
    while i < instrs.len()
        invariant
            i <= instrs.len(),
            types_of(ctx, instrs@.take(i as int)) == Ok::<Seq<WasmType>, IndexFault>(types@),
        decreases instrs.len() - i,
    {
        proof {
            assert(instrs@.take(i + 1).drop_last() == instrs@.take(i as int));
            assert(instrs@.take(i + 1).last() == instrs@[i as int]);
        }
        match get_type(ctx, &instrs[i]) {
            Ok(mut more) => {
                types.append(&mut more);
            },
            Err(err) => {
                proof {
                    lemma_fault_stays(ctx, instrs@, i + 1);
                }
                return Err(err);
            },
        }
        i += 1;
    }
    proof {
        assert(instrs@.take(i as int) == instrs@);
    }
    Ok(types)
}

/// Derives the types that one instruction leaves on the stack, as `type_of`
/// states them for each form of instruction.
///
/// The only things that can go wrong are indices that do not fit their
/// table: a global or a function type that the module does not have, or a
/// local beyond the parameters and locals of the function. Each is a broken
/// invariant of the stages that built the tree, so each is returned as an
/// error at the internal location, never as an error in the user's source.
/// Operands are checked in a fixed order and the first fault is the one
/// returned; no partial list of types comes back with it.
pub fn get_type(ctx: &BlockContext, instr: &WasmInstr) -> (result: Result<Vec<WasmType>, LoError>)
    ensures
        match result {
            Ok(types) => type_of(ctx, instr) == Ok::<Seq<WasmType>, IndexFault>(types@),
            Err(err) => type_of(ctx, instr) matches Err(fault) && err@ == fault.error(),
        },
    decreases instr,
{
    match instr {
        WasmInstr::Unreachable => Ok(Vec::new()),
        WasmInstr::I32ConstLazy { .. } => Ok(single(WasmType::I32)),
        WasmInstr::I32Const { .. } => Ok(single(WasmType::I32)),
        WasmInstr::I64Const { .. } => Ok(single(WasmType::I64)),
        WasmInstr::MultiValueEmit { values } => get_types(ctx, values),
        WasmInstr::StructLoad { primitive_loads, .. } => get_types(ctx, primitive_loads),
        WasmInstr::StructGet { primitive_gets, .. } => get_types(ctx, primitive_gets),
        WasmInstr::NoEmit { instr } => get_type(ctx, instr),
        WasmInstr::NoTypeCheck { .. } => Ok(Vec::new()),
        WasmInstr::Assign { .. } => Ok(Vec::new()),
        WasmInstr::Drop { .. } => Ok(Vec::new()),
        WasmInstr::Return { .. } => Ok(Vec::new()),
        WasmInstr::Branch { .. } => Ok(Vec::new()),
        WasmInstr::MemorySize => Ok(single(WasmType::I32)),
        WasmInstr::MemoryGrow { size } => match get_type(ctx, size) {
            Ok(_) => Ok(single(WasmType::I32)),
            Err(err) => Err(err),
        },
        WasmInstr::BinaryOp { lhs, rhs, .. } => match get_type(ctx, rhs) {
            Ok(_) => get_type(ctx, lhs),
            Err(err) => Err(err),
        },
        WasmInstr::Load { kind, address_instr, .. } => match get_type(ctx, address_instr) {
            Ok(_) => Ok(single(kind.get_value_type())),
            Err(err) => Err(err),
        },
        WasmInstr::GlobalGet { global_index } => match checked_global_type(ctx, *global_index) {
            Ok(value_type) => Ok(single(value_type)),
            Err(err) => Err(err),
        },
        WasmInstr::LocalGet { local_index } => match checked_local_type(ctx, *local_index) {
            Ok(value_type) => Ok(single(value_type)),
            Err(err) => Err(err),
        },
        WasmInstr::Call { fn_type_index, .. } => checked_outputs(ctx, *fn_type_index),
        WasmInstr::Block { block_type, .. } => Ok(block_type_list(block_type)),
        WasmInstr::Loop { block_type, .. } => Ok(block_type_list(block_type)),
        WasmInstr::If { block_type, .. } => Ok(block_type_list(block_type)),
    }
}

/// The list that holds one type.
fn single(value_type: WasmType) -> (types: Vec<WasmType>)
    ensures
        types@ == seq![value_type],
{
    let mut types: Vec<WasmType> = Vec::new();
    types.push(value_type);
    types
}

/// The result type of a structured control instruction as a list.
fn block_type_list(block_type: &Option<WasmType>) -> (types: Vec<WasmType>)
    ensures
        types@ == block_types(*block_type),
{
    match block_type {
        Some(value_type) => single(*value_type),
        None => Vec::new(),
    }
}

/// A fault in the first `n` instructions is the fault of the whole sequence.
pub proof fn lemma_fault_stays(ctx: &BlockContext, instrs: Seq<WasmInstr>, n: int)
    requires
        0 <= n <= instrs.len(),
        types_of(ctx, instrs.take(n)) is Err,
    ensures
        types_of(ctx, instrs) == types_of(ctx, instrs.take(n)),
    decreases instrs.len() - n,
{
    if n < instrs.len() {
        assert(instrs.take(n + 1).drop_last() == instrs.take(n));
        lemma_fault_stays(ctx, instrs, n + 1);
    } else {
        assert(instrs.take(n) == instrs);
    }
}

/// The types of each instruction of a sequence, one list per instruction. An
/// instruction with a fault counts as leaving nothing.
pub open spec fn each_type_of(ctx: &BlockContext, instrs: Seq<WasmInstr>) -> Seq<Seq<WasmType>> {
    Seq::new(
        instrs.len(),
        |i: int|
            match type_of(ctx, &instrs[i]) {
                Ok(types) => types,
                Err(_) => Seq::empty(),
            },
    )
}

/// The empty sequence leaves nothing on the stack, whatever the context.
pub proof fn lemma_types_of_empty(ctx: &BlockContext)
    ensures
        types_of(ctx, Seq::empty()) == Ok::<Seq<WasmType>, IndexFault>(Seq::empty()),
{
}

/// A sequence of one instruction has the types of that instruction.
pub proof fn lemma_types_of_one(ctx: &BlockContext, instr: WasmInstr)
    ensures
        types_of(ctx, seq![instr]) == type_of(ctx, &instr),
{
    let instrs = seq![instr];
    assert(instrs.drop_last() =~= Seq::empty());
    assert(instrs.last() == instr);
    assert(types_of(ctx, instrs.drop_last()) == Ok::<Seq<WasmType>, IndexFault>(Seq::empty()));
    match type_of(ctx, &instr) {
        Ok(types) => {
            assert(Seq::<WasmType>::empty() + types =~= types);
        },
        Err(_) => {},
    }
}

/// Two sequences run one after the other leave the types of the first
/// followed by the types of the second. A fault in the first is the fault of
/// the whole, and only then does a fault in the second count.
pub proof fn lemma_types_of_concat(
    ctx: &BlockContext,
    first: Seq<WasmInstr>,
    second: Seq<WasmInstr>,
)
    ensures
        types_of(ctx, first + second) == (match types_of(ctx, first) {
            Ok(front) => match types_of(ctx, second) {
                Ok(back) => Ok(front + back),
                Err(fault) => Err(fault),
            },
            Err(fault) => Err(fault),
        }),
    decreases second.len(),
{
    if second.len() == 0 {
        assert(first + second =~= first);
        match types_of(ctx, first) {
            Ok(front) => {
                assert(front + Seq::<WasmType>::empty() =~= front);
            },
            Err(_) => {},
        }
    } else {
        let whole = first + second;
        assert(whole.drop_last() =~= first + second.drop_last());
        assert(whole.last() == second.last());
        lemma_types_of_concat(ctx, first, second.drop_last());
        match (types_of(ctx, first), types_of(ctx, second.drop_last()), type_of(ctx, &second.last())) {
            (Ok(front), Ok(middle), Ok(back)) => {
                assert((front + middle) + back =~= front + (middle + back));
            },
            _ => {},
        }
    }
}

/// Where every instruction of a sequence has types, the sequence has the
/// types of its instructions, joined in the order of the instructions.
pub proof fn lemma_types_of_is_concatenation(ctx: &BlockContext, instrs: Seq<WasmInstr>)
    requires
        forall|i: int| 0 <= i < instrs.len() ==> (#[trigger] type_of(ctx, &instrs[i])) is Ok,
    ensures
        types_of(ctx, instrs) == Ok::<Seq<WasmType>, IndexFault>(
            each_type_of(ctx, instrs).flatten(),
        ),
    decreases instrs.len(),
{
    let lists = each_type_of(ctx, instrs);
    lists.lemma_flatten_and_flatten_alt_are_equivalent();
    if instrs.len() == 0 {
    } else {
        let front = instrs.drop_last();
        assert forall|i: int| 0 <= i < front.len() implies (#[trigger] type_of(ctx, &front[i])) is Ok by {
            assert(front[i] == instrs[i]);
        }
        lemma_types_of_is_concatenation(ctx, front);
        each_type_of(ctx, front).lemma_flatten_and_flatten_alt_are_equivalent();
        assert(lists.drop_last() =~= each_type_of(ctx, front));
        assert(type_of(ctx, &instrs[instrs.len() - 1]) is Ok);
    }
}

/// The first instruction of a sequence that has a fault gives the sequence
/// its fault: checking stops there.
pub proof fn lemma_types_of_first_fault(ctx: &BlockContext, instrs: Seq<WasmInstr>, at: int)
    requires
        0 <= at < instrs.len(),
        type_of(ctx, &instrs[at]) is Err,
        forall|i: int| 0 <= i < at ==> (#[trigger] type_of(ctx, &instrs[i])) is Ok,
    ensures
        types_of(ctx, instrs) == type_of(ctx, &instrs[at]),
{
    let front = instrs.take(at);
    assert forall|i: int| 0 <= i < front.len() implies (#[trigger] type_of(ctx, &front[i])) is Ok by {
        assert(front[i] == instrs[i]);
    }
    lemma_types_of_is_concatenation(ctx, front);
    let upto = instrs.take(at + 1);
    assert(upto.drop_last() =~= front);
    assert(upto.last() == instrs[at]);
    lemma_fault_stays(ctx, instrs, at + 1);
}

/// An integer constant has the type of its width, whatever its value, and
/// whether the value is there already or is filled in later.
pub proof fn lemma_const_types(ctx: &BlockContext, instr: &WasmInstr)
    ensures
        instr is I32Const ==> type_of(ctx, instr) == Ok::<Seq<WasmType>, IndexFault>(
            seq![WasmType::I32],
        ),
        instr is I32ConstLazy ==> type_of(ctx, instr) == Ok::<Seq<WasmType>, IndexFault>(
            seq![WasmType::I32],
        ),
        instr is I64Const ==> type_of(ctx, instr) == Ok::<Seq<WasmType>, IndexFault>(
            seq![WasmType::I64],
        ),
{
}

/// A binary operator has the types of its left operand. Its right operand
/// is checked first all the same: a fault in it is the fault of the
/// operator, whatever the left operand is.
pub proof fn lemma_binary_op_type(ctx: &BlockContext, instr: &WasmInstr)
    ensures
        instr matches WasmInstr::BinaryOp { lhs, rhs, .. } ==> {
            &&& type_of(ctx, rhs) is Ok ==> type_of(ctx, instr) == type_of(ctx, lhs)
            &&& type_of(ctx, rhs) is Err ==> type_of(ctx, instr) == type_of(ctx, rhs)
        },
{
}

/// Growing the memory leaves a 32-bit integer, whatever its operand leaves;
/// a fault in the operand is the fault of the instruction.
pub proof fn lemma_memory_grow_type(ctx: &BlockContext, instr: &WasmInstr)
    ensures
        instr matches WasmInstr::MemoryGrow { size } ==> {
            &&& type_of(ctx, size) is Ok ==> type_of(ctx, instr) == Ok::<
                Seq<WasmType>,
                IndexFault,
            >(seq![WasmType::I32])
            &&& type_of(ctx, size) is Err ==> type_of(ctx, instr) == type_of(ctx, size)
        },
        instr is MemorySize ==> type_of(ctx, instr) == Ok::<Seq<WasmType>, IndexFault>(
            seq![WasmType::I32],
        ),
{
}

/// A load leaves the one type that goes with its kind; a fault in its
/// address is the fault of the load.
pub proof fn lemma_load_type(ctx: &BlockContext, instr: &WasmInstr)
    ensures
        instr matches WasmInstr::Load { kind, address_instr, .. } ==> {
            &&& type_of(ctx, address_instr) is Ok ==> type_of(ctx, instr) == Ok::<
                Seq<WasmType>,
                IndexFault,
            >(seq![kind.value_type()])
            &&& type_of(ctx, address_instr) is Err ==> type_of(ctx, instr) == type_of(
                ctx,
                address_instr,
            )
        },
{
}

/// A call leaves exactly the outputs of the function type whose index it
/// carries, be they none, one or many. An index beyond the module's types is
/// a fault.
pub proof fn lemma_call_type(ctx: &BlockContext, instr: &WasmInstr)
    ensures
        instr matches WasmInstr::Call { fn_type_index, .. } ==> {
            &&& *fn_type_index < ctx.module.types@.len() ==> type_of(ctx, instr) == Ok::<
                Seq<WasmType>,
                IndexFault,
            >(ctx.module.types@[*fn_type_index as int].outputs@)
            &&& *fn_type_index >= ctx.module.types@.len() ==> type_of(ctx, instr) == Err::<
                Seq<WasmType>,
                IndexFault,
            >(IndexFault::FnType)
        },
{
}

/// A local index below the number of parameters names a parameter; from
/// there on it names the other locals, counted from the first of them. An
/// index beyond both is a fault.
pub proof fn lemma_local_get_type(ctx: &BlockContext, instr: &WasmInstr)
    ensures
        instr matches WasmInstr::LocalGet { local_index } ==> {
            let params = ctx.fn_type.inputs@;
            let locals = ctx.non_arg_locals@;
            &&& *local_index < params.len() ==> type_of(ctx, instr) == Ok::<
                Seq<WasmType>,
                IndexFault,
            >(seq![params[*local_index as int]])
            &&& params.len() <= *local_index < params.len() + locals.len() ==> type_of(ctx, instr)
                == Ok::<Seq<WasmType>, IndexFault>(seq![locals[*local_index - params.len()]])
            &&& *local_index >= params.len() + locals.len() ==> type_of(ctx, instr) == Err::<
                Seq<WasmType>,
                IndexFault,
            >(IndexFault::Local)
        },
{
}

/// Reading a global leaves the declared type of that global. An index
/// beyond the module's globals is a fault, and the error that reports it
/// carries the internal location.
pub proof fn lemma_global_get_type(ctx: &BlockContext, instr: &WasmInstr)
    ensures
        instr matches WasmInstr::GlobalGet { global_index } ==> {
            let globals = ctx.module.globals@;
            &&& *global_index < globals.len() ==> type_of(ctx, instr) == Ok::<
                Seq<WasmType>,
                IndexFault,
            >(seq![globals[*global_index as int].kind.value_type])
            &&& *global_index >= globals.len() ==> type_of(ctx, instr) == Err::<
                Seq<WasmType>,
                IndexFault,
            >(IndexFault::Global)
        },
{
}

/// Every fault is reported at the internal location: none of them is an
/// error in the user's source.
pub proof fn lemma_fault_is_internal(fault: IndexFault)
    ensures
        fault.error().loc == LoLocationView::internal(),
{
}

/// The parts of a form that stands for several values: the primitive loads
/// of an aggregate load, the primitive reads of an aggregate read, the
/// values of a multi-value emission. Other forms have no parts in this sense.
pub open spec fn aggregate_parts(instr: &WasmInstr) -> Option<Seq<WasmInstr>> {
    match instr {
        WasmInstr::StructLoad { primitive_loads, .. } => Some(primitive_loads@),
        WasmInstr::StructGet { primitive_gets, .. } => Some(primitive_gets@),
        WasmInstr::MultiValueEmit { values } => Some(values@),
        _ => None,
    }
}

/// A form that stands for several values is not typed by name: it has the
/// types of its parts, taken as a sequence.
pub proof fn lemma_aggregate_type(ctx: &BlockContext, instr: &WasmInstr)
    ensures
        aggregate_parts(instr) matches Some(parts) ==> type_of(ctx, instr) == types_of(ctx, parts),
{
}

/// Where every part of an aggregate has types, the aggregate has the types
/// of its parts, joined in the order of the parts.
pub proof fn lemma_aggregate_is_concatenation(
    ctx: &BlockContext,
    instr: &WasmInstr,
    parts: Seq<WasmInstr>,
)
    requires
        aggregate_parts(instr) == Some(parts),
        forall|i: int| 0 <= i < parts.len() ==> (#[trigger] type_of(ctx, &parts[i])) is Ok,
    ensures
        type_of(ctx, instr) == Ok::<Seq<WasmType>, IndexFault>(
            each_type_of(ctx, parts).flatten(),
        ),
{
    lemma_types_of_is_concatenation(ctx, parts);
}

/// The wrapper that emits nothing has the types of what it wraps.
pub proof fn lemma_no_emit_type(ctx: &BlockContext, instr: &WasmInstr)
    ensures
        instr matches WasmInstr::NoEmit { instr: inner } ==> type_of(ctx, instr) == type_of(
            ctx,
            inner,
        ),
{
}

/// Whether the instruction is a statement: an assignment, a discarded
/// value, a return, a branch, the wrapper that is not checked, or the
/// unreachable instruction. Every other form is taken to produce values.
pub open spec fn is_statement(instr: &WasmInstr) -> bool {
    instr is Assign || instr is Drop || instr is Return || instr is Branch || instr is NoTypeCheck
        || instr is Unreachable
}

/// A statement leaves nothing, whatever it holds: what is inside it is not
/// looked at, so nothing inside it can make the check fail.
pub proof fn lemma_statement_type(ctx: &BlockContext, instr: &WasmInstr)
    ensures
        is_statement(instr) ==> type_of(ctx, instr) == Ok::<Seq<WasmType>, IndexFault>(
            Seq::empty(),
        ),
{
}

/// A block, a loop and a conditional leave their declared result type, or
/// nothing where they declare none.
pub proof fn lemma_block_type(ctx: &BlockContext, instr: &WasmInstr)
    ensures
        instr matches WasmInstr::Block { block_type, .. } ==> type_of(ctx, instr) == Ok::<
            Seq<WasmType>,
            IndexFault,
        >(block_types(*block_type)),
        instr matches WasmInstr::Loop { block_type, .. } ==> type_of(ctx, instr) == Ok::<
            Seq<WasmType>,
            IndexFault,
        >(block_types(*block_type)),
        instr matches WasmInstr::If { block_type, .. } ==> type_of(ctx, instr) == Ok::<
            Seq<WasmType>,
            IndexFault,
        >(block_types(*block_type)),
{
}

} // verus!
