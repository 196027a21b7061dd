//! What a function body is checked against: the module around it and the
//! layout of its locals.

use crate::wasm::{WasmFnType, WasmModule, WasmType};
use vstd::prelude::*;

verus! {

/// A read-only view of the module and of the function whose body is being
/// checked. It owns nothing and is built anew for each check.
pub struct BlockContext<'a> {
    /// The module that the function belongs to.
    pub module: &'a WasmModule,
    /// The signature of the function.
    pub fn_type: &'a WasmFnType,
    /// The types of the function's locals that are not parameters, one entry
    /// per local, in the order of their declaration.
    pub non_arg_locals: &'a Vec<WasmType>,
}

impl<'a> BlockContext<'a> {
    /// The type of the local with the given index. The index space holds
    /// the parameters first, in the order of the signature, and after them
    /// the other locals, in the order of their declaration. An index beyond
    /// both has no type.
    pub open spec fn local_type(&self, index: u32) -> Option<WasmType> {
        let params = self.fn_type.inputs@;
        let locals = self.non_arg_locals@;
        if index < params.len() {
            Some(params[index as int])
        } else if index - params.len() < locals.len() {
            Some(locals[index - params.len()])
        } else {
            None
        }
    }

    /// The declared type of the global with the given index, where the
    /// module has such a global.
    pub open spec fn global_type(&self, index: u32) -> Option<WasmType> {
        let globals = self.module.globals@;
        if index < globals.len() {
            Some(globals[index as int].kind.value_type)
        } else {
            None
        }
    }

    /// The types that a function of the type with the given index leaves on
    /// the stack, where the module has such a type.
    pub open spec fn fn_type_outputs(&self, index: u32) -> Option<Seq<WasmType>> {
        let types = self.module.types@;
        if index < types.len() {
            Some(types[index as int].outputs@)
        } else {
            None
        }
    }

    /// Resolves a local index to the type of the local. This is the one
    /// place where the offset between parameters and other locals is
    /// applied.
    pub fn get_local_type(&self, index: u32) -> (result: Option<WasmType>)
        ensures
            result == self.local_type(index),
    {
        let index = index as usize;
        let params_len = self.fn_type.inputs.len();
        if index < params_len {
            Some(self.fn_type.inputs[index])
        } else if index - params_len < self.non_arg_locals.len() {
            Some(self.non_arg_locals[index - params_len])
        } else {
            None
        }
    }
}

} // verus!
