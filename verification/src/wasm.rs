//! The module-level and instruction-level data model of a WebAssembly module.
//!
//! Nothing is validated when these values are assembled: a module is put
//! together field by field, and the passes that read it say what they expect.

use vstd::prelude::*;
use vstd::string::*;

verus! {

/// A complete module, section by section.
pub struct WasmModule {
    /// Function types. The same type may occur more than once.
    pub types: Vec<WasmFnType>,
    pub imports: Vec<WasmImport>,
    /// One type index per defined function, parallel to `codes`.
    pub functions: Vec<u32>,
    pub memories: Vec<WasmLimits>,
    pub globals: Vec<WasmGlobal>,
    pub exports: Vec<WasmExport>,
    pub codes: Vec<WasmFn>,
    /// Data segments. Segments are still appended after the rest of the
    /// module has been assembled, by whoever holds the module mutably.
    pub datas: Vec<WasmData>,
}

impl Default for WasmModule {
    /// The module in which every section is empty.
    fn default() -> (module: Self)
        ensures
            module.types@.len() == 0,
            module.imports@.len() == 0,
            module.functions@.len() == 0,
            module.memories@.len() == 0,
            module.globals@.len() == 0,
            module.exports@.len() == 0,
            module.codes@.len() == 0,
            module.datas@.len() == 0,
    {
        WasmModule {
            types: Vec::new(),
            imports: Vec::new(),
            functions: Vec::new(),
            memories: Vec::new(),
            globals: Vec::new(),
            exports: Vec::new(),
            codes: Vec::new(),
            datas: Vec::new(),
        }
    }
}

/// The signature of a function: the types it takes and the types it leaves.
#[derive(Debug, PartialEq)]
pub struct WasmFnType {
    pub inputs: Vec<WasmType>,
    pub outputs: Vec<WasmType>,
}

pub struct WasmImport {
    pub module_name: String,
    pub item_name: String,
    pub item_desc: WasmImportDesc,
}

pub enum WasmImportDesc {
    Func { type_index: u32 },
}

/// A function body.
pub struct WasmFn {
    /// The declared locals, run-length encoded, parameters not included.
    pub locals: Vec<WasmLocals>,
    pub expr: WasmExpr,
}

pub struct WasmLocals {
    pub count: u32,
    pub value_type: WasmType,
}

pub struct WasmExpr {
    pub instrs: Vec<WasmInstr>,
}

#[derive(Clone, Copy, Debug, PartialEq, Eq, Structural)]
pub enum WasmBinaryOpKind {
    I32Equals,
    I32LessThenSigned,
    I32GreaterThenSigned,
    I32GreaterEqualSigned,
    I32NotEqual,
    I32Add,
    I32Sub,
    I32Mul,
    I32DivUnsigned,
    I32RemUnsigned,
    I32And,
    I32Or,
}

#[derive(Clone, Copy, Debug, PartialEq, Eq, Structural)]
pub enum WasmLoadKind {
    I32,
    I32U8,
}

#[derive(Clone, Copy, Debug, PartialEq, Eq, Structural)]
pub enum WasmStoreKind {
    I32,
    I32U8,
}

/// One node of an instruction tree.
///
/// A node owns its operands. The one thing that several nodes may share is
/// the integer behind `I32ConstLazy`: they share it by carrying the same
/// handle into a table of such values, a `LazyConsts`.
#[derive(Debug)]
pub enum WasmInstr {
    Unreachable,
    Drop { value: Box<WasmInstr>, drop_count: usize },
    BinaryOp { kind: WasmBinaryOpKind, lhs: Box<WasmInstr>, rhs: Box<WasmInstr> },
    MemorySize,
    MemoryGrow { size: Box<WasmInstr> },
    Load { kind: WasmLoadKind, align: u32, offset: u32, address_instr: Box<WasmInstr> },
    StructLoad {
        struct_name: String,
        address_instr: Box<WasmInstr>,
        address_local_index: u32,
        base_byte_offset: u32,
        primitive_loads: Vec<WasmInstr>,
    },
    LocalGet { local_index: u32 },
    GlobalGet { global_index: u32 },
    StructGet { struct_name: String, base_index: u32, primitive_gets: Vec<WasmInstr> },
    /// A 32-bit constant whose value a later pass fills in.
    I32ConstLazy { handle: u32 },
    I32Const { value: i32 },
    I64Const { value: i64 },
    /// An assignment to a local, a global or a memory location.
    Assign { bind: WasmSetBind },
    Return { value: Box<WasmInstr> },
    Block { block_type: Option<WasmType>, body: Vec<WasmInstr> },
    Loop { block_type: Option<WasmType>, body: Vec<WasmInstr> },
    If {
        block_type: Option<WasmType>,
        cond: Box<WasmInstr>,
        then_branch: Box<WasmInstr>,
        else_branch: Option<Box<WasmInstr>>,
    },
    Branch { label_index: u32 },
    Call {
        fn_index: u32,
        /// The index of the callee's type, carried for the type checker.
        fn_type_index: u32,
        args: Vec<WasmInstr>,
    },
    MultiValueEmit { values: Vec<WasmInstr> },
    /// Emits no bytecode; stands for a value that is already on the stack.
    NoEmit { instr: Box<WasmInstr> },
    /// Emits bytecode; the type checker does not look inside.
    NoTypeCheck { instr: Box<WasmInstr> },
}

#[derive(Clone, Copy, Debug, PartialEq, Eq, Structural)]
pub enum WasmType {
    I32,
    I64,
    F32,
    F64,
    V128,
    FuncRef,
    ExternRef,
}

#[derive(Clone, Copy)]
pub struct WasmLimits {
    pub min: u32,
    pub max: Option<u32>,
}

pub struct WasmGlobal {
    pub kind: WasmGlobalKind,
    pub initial_value: WasmExpr,
}

#[derive(Clone, Copy)]
pub struct WasmGlobalKind {
    pub value_type: WasmType,
    pub mutable: bool,
}

pub struct WasmExport {
    pub export_type: WasmExportType,
    pub export_name: String,
    pub exported_item_index: u32,
}

#[derive(Clone, Copy, Debug, PartialEq, Eq, Structural)]
pub enum WasmExportType {
    Func,
    Mem,
}

pub enum WasmData {
    Active { offset: WasmExpr, bytes: Vec<u8> },
}

#[derive(Debug)]
pub enum WasmSetBind {
    Local { index: u32 },
    Global { index: u32 },
    Memory {
        align: u32,
        offset: u32,
        kind: WasmStoreKind,
        address_instr: Box<WasmInstr>,
        value_local_index: u32,
    },
}

impl WasmType {
    /// The byte that stands for this type in the binary format.
    pub open spec fn code(self) -> u8 {
        match self {
            WasmType::I32 => 0x7f,
            WasmType::I64 => 0x7e,
            WasmType::F32 => 0x7d,
            WasmType::F64 => 0x7c,
            WasmType::V128 => 0x7b,
            WasmType::FuncRef => 0x70,
            WasmType::ExternRef => 0x6f,
        }
    }

    /// The number of bytes a value of this type takes in memory, where the
    /// type has a fixed size. Reference types have none.
    pub open spec fn byte_width(self) -> Option<u32> {
        match self {
            WasmType::I32 | WasmType::F32 => Some(4),
            WasmType::I64 | WasmType::F64 => Some(8),
            WasmType::V128 => Some(16),
            WasmType::FuncRef | WasmType::ExternRef => None,
        }
    }

    /// The name of the variant, as it is written in source.
    pub open spec fn name(self) -> Seq<char> {
        match self {
            WasmType::I32 => "I32"@,
            WasmType::I64 => "I64"@,
            WasmType::F32 => "F32"@,
            WasmType::F64 => "F64"@,
            WasmType::V128 => "V128"@,
            WasmType::FuncRef => "FuncRef"@,
            WasmType::ExternRef => "ExternRef"@,
        }
    }

    pub fn to_byte(&self) -> (byte: u8)
        ensures
            byte == self.code(),
    {
        match self {
            WasmType::I32 => 0x7f,
            WasmType::I64 => 0x7e,
            WasmType::F32 => 0x7d,
            WasmType::F64 => 0x7c,
            WasmType::V128 => 0x7b,
            WasmType::FuncRef => 0x70,
            WasmType::ExternRef => 0x6f,
        }
    }

    /// The width of a value of this type in memory: 4 for `I32` and `F32`,
    /// 8 for `I64` and `F64`, 16 for `V128`. A reference type has no width,
    /// and asking for it is an error.
    pub fn byte_length(&self) -> (result: Result<u32, String>)
        ensures
            match result {
                Ok(width) => self.byte_width() == Some(width),
                Err(message) => self.byte_width() is None
                    && message@ == "Cannot get byte size of FuncRef/ExternRef"@,
            },
    {
        match self {
            WasmType::I32 | WasmType::F32 => Ok(4),
            WasmType::I64 | WasmType::F64 => Ok(8),
            WasmType::V128 => Ok(16),
            WasmType::FuncRef | WasmType::ExternRef => Err(
                String::from_str("Cannot get byte size of FuncRef/ExternRef"),
            ),
        }
    }

    /// The variant's name as text.
    pub fn variant_name(&self) -> (text: &'static str)
        ensures
            text@ == self.name(),
    {
        match self {
            WasmType::I32 => "I32",
            WasmType::I64 => "I64",
            WasmType::F32 => "F32",
            WasmType::F64 => "F64",
            WasmType::V128 => "V128",
            WasmType::FuncRef => "FuncRef",
            WasmType::ExternRef => "ExternRef",
        }
    }
}

impl WasmBinaryOpKind {
    /// The opcode of the operator.
    pub open spec fn code(self) -> u8 {
        match self {
            WasmBinaryOpKind::I32Equals => 0x46,
            WasmBinaryOpKind::I32LessThenSigned => 0x48,
            WasmBinaryOpKind::I32GreaterThenSigned => 0x4a,
            WasmBinaryOpKind::I32GreaterEqualSigned => 0x4e,
            WasmBinaryOpKind::I32NotEqual => 0x47,
            WasmBinaryOpKind::I32Add => 0x6a,
            WasmBinaryOpKind::I32Sub => 0x6b,
            WasmBinaryOpKind::I32Mul => 0x6c,
            WasmBinaryOpKind::I32DivUnsigned => 0x6e,
            WasmBinaryOpKind::I32RemUnsigned => 0x70,
            WasmBinaryOpKind::I32And => 0x71,
            WasmBinaryOpKind::I32Or => 0x72,
        }
    }

    pub fn to_byte(&self) -> (byte: u8)
        ensures
            byte == self.code(),
    {
        match self {
            WasmBinaryOpKind::I32Equals => 0x46,
            WasmBinaryOpKind::I32LessThenSigned => 0x48,
            WasmBinaryOpKind::I32GreaterThenSigned => 0x4a,
            WasmBinaryOpKind::I32GreaterEqualSigned => 0x4e,
            WasmBinaryOpKind::I32NotEqual => 0x47,
            WasmBinaryOpKind::I32Add => 0x6a,
            WasmBinaryOpKind::I32Sub => 0x6b,
            WasmBinaryOpKind::I32Mul => 0x6c,
            WasmBinaryOpKind::I32DivUnsigned => 0x6e,
            WasmBinaryOpKind::I32RemUnsigned => 0x70,
            WasmBinaryOpKind::I32And => 0x71,
            WasmBinaryOpKind::I32Or => 0x72,
        }
    }
}

impl WasmStoreKind {
    /// The opcode of the store.
    pub open spec fn code(self) -> u8 {
        match self {
            WasmStoreKind::I32 => 0x36,
            WasmStoreKind::I32U8 => 0x3a,
        }
    }

    /// The store that writes what `kind` reads.
    pub open spec fn of_load_kind(kind: WasmLoadKind) -> WasmStoreKind {
        match kind {
            WasmLoadKind::I32 => WasmStoreKind::I32,
            WasmLoadKind::I32U8 => WasmStoreKind::I32U8,
        }
    }

    pub fn to_byte(&self) -> (byte: u8)
        ensures
            byte == self.code(),
    {
        match self {
            WasmStoreKind::I32 => 0x36,
            WasmStoreKind::I32U8 => 0x3a,
        }
    }

    /// The store kind of the same width as the load kind.
    pub fn from_load_kind(kind: &WasmLoadKind) -> (store: Self)
        ensures
            store == Self::of_load_kind(*kind),
    {
        match kind {
            WasmLoadKind::I32 => WasmStoreKind::I32,
            WasmLoadKind::I32U8 => WasmStoreKind::I32U8,
        }
    }
}

impl WasmLoadKind {
    /// The opcode of the load.
    pub open spec fn code(self) -> u8 {
        match self {
            WasmLoadKind::I32 => 0x28,
            WasmLoadKind::I32U8 => 0x2d,
        }
    }

    /// The type of the value that the load leaves on the stack.
    pub open spec fn value_type(self) -> WasmType {
        match self {
            WasmLoadKind::I32 => WasmType::I32,
            WasmLoadKind::I32U8 => WasmType::I32,
        }
    }

    /// The load that reads a whole value of the type, where there is one.
    pub open spec fn of_value_type(value_type: WasmType) -> Option<WasmLoadKind> {
        match value_type {
            WasmType::I32 => Some(WasmLoadKind::I32),
            _ => None,
        }
    }

    pub fn to_byte(&self) -> (byte: u8)
        ensures
            byte == self.code(),
    {
        match self {
            WasmLoadKind::I32 => 0x28,
            WasmLoadKind::I32U8 => 0x2d,
        }
    }

    pub fn get_value_type(&self) -> (value_type: WasmType)
        ensures
            value_type == self.value_type(),
    {
        match self {
            WasmLoadKind::I32 => WasmType::I32,
            WasmLoadKind::I32U8 => WasmType::I32,
        }
    }

    /// The load kind for a value of the given type. Only `I32` can be
    /// loaded; any other type is an error that names the type.
    pub fn from_value_type(value_type: &WasmType) -> (result: Result<Self, String>)
        ensures
            match result {
                Ok(kind) => Self::of_value_type(*value_type) == Some(kind),
                Err(message) => Self::of_value_type(*value_type) is None
                    && message@ == "Unsupported type for load: "@ + value_type.name(),
            },
    {
        match value_type {
            WasmType::I32 => Ok(WasmLoadKind::I32),
            _ => {
                let message = String::from_str("Unsupported type for load: ");
                Err(message.concat(value_type.variant_name()))
            },
        }
    }
}

impl WasmExportType {
    /// The byte that stands for this kind of export in the binary format.
    pub open spec fn code(self) -> u8 {
        match self {
            WasmExportType::Func => 0x00,
            WasmExportType::Mem => 0x02,
        }
    }

    pub fn to_byte(&self) -> (byte: u8)
        ensures
            byte == self.code(),
    {
        match self {
            WasmExportType::Func => 0x00,
            WasmExportType::Mem => 0x02,
        }
    }
}

} // verus!
