use vstd::prelude::*;

use mlua::LuaSerdeExt;

use crate::error::Error;
use crate::question::Answer;
use crate::svalue::SValue;

verus! {

#[verifier::external_type_specification]
#[verifier::external_body]
pub struct ExLua(mlua::Lua);

#[verifier::external_type_specification]
#[verifier::external_body]
pub struct ExLuaFunction(mlua::Function);

#[verifier::external_type_specification]
#[verifier::external_body]
pub struct ExLuaTable(mlua::Table);

#[verifier::external_type_specification]
#[verifier::external_body]
pub struct ExLuaValue(mlua::Value);

#[verifier::external_type_specification]
#[verifier::external_body]
pub struct ExJsonValue(serde_json::Value);

/// Relies on mlua's `Lua::clone`: another handle onto the same VM.
#[verifier::external_body]
pub(crate) fn vm_clone(vm: &mlua::Lua) -> mlua::Lua {
    vm.clone()
}

/// Relies on mlua's `Lua::load` and `Chunk::exec`: runs the script's top
/// level inside the VM, reporting any load or runtime error as text.
#[verifier::external_body]
pub(crate) fn vm_load_script(vm: &mlua::Lua, script: &str) -> Result<(), String> {
    vm.load(script).exec().map_err(|e| format!("{}", e))
}

/// Relies on mlua's `Lua::globals` and `Table::get`: fetches the global
/// `Main` when it is a function, and fails otherwise.
#[verifier::external_body]
pub(crate) fn vm_get_main(vm: &mlua::Lua) -> Result<mlua::Function, String> {
    vm.globals().get::<mlua::Function>("Main").map_err(|e| format!("{}", e))
}

/// Relies on mlua's `LuaSerdeExt::to_value`: allocates the JSON value's
/// counterpart inside the VM.
#[verifier::external_body]
pub(crate) fn json_to_vm(vm: &mlua::Lua, v: &serde_json::Value) -> Result<mlua::Value, String> {
    vm.to_value(v).map_err(|e| format!("{}", e))
}

/// Relies on mlua's `Value::Nil`: the VM's null value.
#[verifier::external_body]
pub(crate) fn vm_nil() -> mlua::Value {
    mlua::Value::Nil
}

/// Relies on mlua's `Value::clone`: another handle onto the same VM value.
#[verifier::external_body]
pub(crate) fn vm_value_clone(v: &mlua::Value) -> mlua::Value {
    v.clone()
}

/// Relies on mlua's `Lua::create_table` and `Table::set`: builds the VM
/// table `{ type = "text", text = <text> }`.
#[verifier::external_body]
pub(crate) fn text_answer_to_vm(vm: &mlua::Lua, text: &str) -> Result<mlua::Value, String> {
    let t = vm.create_table().map_err(|e| format!("{}", e))?;
    t.set("type", "text").map_err(|e| format!("{}", e))?;
    t.set("text", text).map_err(|e| format!("{}", e))?;
    Ok(mlua::Value::Table(t))
}

/// Relies on mlua's `Lua::create_table` and `Table::set`: builds the VM
/// table `{ type = "options", selected = <selected> }`.
#[verifier::external_body]
pub(crate) fn options_answer_to_vm(
    vm: &mlua::Lua,
    selected: &Vec<String>,
) -> Result<mlua::Value, String> {
    let t = vm.create_table().map_err(|e| format!("{}", e))?;
    t.set("type", "options").map_err(|e| format!("{}", e))?;
    t.set("selected", selected.clone()).map_err(|e| format!("{}", e))?;
    Ok(mlua::Value::Table(t))
}

/// Relies on mlua's `Function::call`: invokes the driver with the prior
/// snapshot, the encoded answer and the parameters, asking for a table
/// back.
#[verifier::external_body]
pub(crate) fn call_driver(
    f: &mlua::Function,
    snapshot: mlua::Value,
    answer: mlua::Value,
    params: mlua::Value,
) -> Result<mlua::Table, String> {
    f.call::<mlua::Table>((snapshot, answer, params)).map_err(|e| format!("{}", e))
}

/// Relies on mlua's `Table::get`: the string at a numeric slot of the
/// driver's return table, as mlua converts it (a number coerces to its
/// decimal text), failing when no such conversion exists.
#[verifier::external_body]
pub(crate) fn result_slot_text(t: &mlua::Table, idx: i64) -> Result<String, String> {
    t.get::<String>(idx).map_err(|e| format!("{}", e))
}

/// Relies on mlua's `Table::get`: the value at a numeric slot of the
/// driver's return table.
#[verifier::external_body]
pub(crate) fn result_slot_value(t: &mlua::Table, idx: i64) -> Result<mlua::Value, String> {
    t.get::<mlua::Value>(idx).map_err(|e| format!("{}", e))
}

/// Relies on `serde_json::to_value` over mlua's `Value` serializer: the
/// portable image of a VM value, detached from the VM.
#[verifier::external_body]
pub(crate) fn vm_to_json(v: &mlua::Value) -> Result<serde_json::Value, String> {
    serde_json::to_value(v).map_err(|e| format!("{}", e))
}

/// Relies on `serde_json::Value`'s variants: rewrites a JSON value, one
/// variant to one variant, into the engine's own terms; a number that is
/// no integer is beyond what the engine reads and comes out opaque.
#[verifier::external_body]
pub(crate) fn json_to_svalue(v: &serde_json::Value) -> SValue {
    match v {
        serde_json::Value::Null => SValue::Null,
        serde_json::Value::Bool(b) => SValue::Bool(*b),
        serde_json::Value::Number(n) => match n.as_i64() {
            Some(i) => SValue::Int(i),
            None => SValue::Opaque,
        },
        serde_json::Value::String(s) => SValue::Text(s.clone()),
        serde_json::Value::Array(xs) => SValue::List(xs.iter().map(json_to_svalue).collect()),
        serde_json::Value::Object(m) => SValue::Object(
            m.iter().map(|(k, x)| (k.clone(), json_to_svalue(x))).collect(),
        ),
    }
}

/// Encodes an answer into the VM's representation, dispatching each kind
/// of answer to its builder; the only failure is the table allocation.
pub(crate) fn encode_answer(vm: &mlua::Lua, a: &Answer) -> (r: Result<mlua::Value, Error>)
    ensures
        r matches Err(e) ==> e matches Error::AllocateAnswerTableFailed { .. },
{
    let built = match a {
        Answer::Text(text) => text_answer_to_vm(vm, text.as_str()),
        Answer::Options(selected) => options_answer_to_vm(vm, selected),
    };
    match built {
        Ok(v) => Ok(v),
        Err(message) => Err(Error::AllocateAnswerTableFailed { message }),
    }
}

} // verus!
