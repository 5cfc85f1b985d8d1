use barracuda::cli_env_var_descriptor::{CLIEnvVarDescriptor, EnvVarError};
use barracuda::compiler_interface::{assign_environment_addresses, generate_environment_context, response_tables, try_generate_environment_context, EnvironmentVariable};
use barracuda::ast::datatype::PrimitiveDataType;
use barracuda::ast::qualifiers::Qualifier;
use barracuda::program_code::ProgramCode;
use barracuda::instructions::BarracudaInstructions::{GOTO, VALUE, OP};
use barracuda::ops::BarracudaOperators::FIXED;
use barracuda::ops::FixedBarracudaOperators::ADD;
use barracuda::emulator::ops::MathStackOperators;
use barracuda::emulator::instructions::{FuncPointerContext, MathStackInstructions};

#[test]
fn env_var_description_with_address() {
    let d = CLIEnvVarDescriptor::from_str("X:0").unwrap();
    assert_eq!(d.identifier, "X");
    assert_eq!(d.given_address, Some(0));
    assert_eq!(d.given_value, None);
    assert_eq!(d.datatype, "");
    assert_eq!(d.ptr_levels, "");
}

#[test]
fn env_var_description_with_every_part() {
    let d = CLIEnvVarDescriptor::from_str("ptr**:3:f64=-1.5").unwrap();
    assert_eq!(d.identifier, "ptr");
    assert_eq!(d.qualifier, "**");
    assert_eq!(d.ptr_levels, "**");
    assert_eq!(d.given_address, Some(3));
    assert_eq!(d.datatype, "f64");
    assert_eq!(d.given_value, Some(String::from("-1.5")));
}

#[test]
fn env_var_description_without_address() {
    let d = CLIEnvVarDescriptor::from_str("OUTPUT").unwrap();
    assert_eq!(d.identifier, "OUTPUT");
    assert_eq!(d.given_address, None);
    let d = CLIEnvVarDescriptor::from_str("x=1").unwrap();
    assert_eq!(d.given_address, None);
    assert_eq!(d.given_value, Some(String::from("1")));
    let d = CLIEnvVarDescriptor::from_str("y:u32=.5").unwrap();
    assert_eq!(d.datatype, "u32");
    assert_eq!(d.given_value, Some(String::from(".5")));
}

#[test]
fn env_var_address_too_large_is_dropped() {
    let d = CLIEnvVarDescriptor::from_str("x:99999999999999999999999").unwrap();
    assert_eq!(d.given_address, None);
}

#[test]
fn env_var_descriptions_are_refused() {
    assert_eq!(CLIEnvVarDescriptor::from_str("").unwrap_err(), EnvVarError::Form);
    assert_eq!(CLIEnvVarDescriptor::from_str("1x").unwrap_err(), EnvVarError::Form);
    assert_eq!(CLIEnvVarDescriptor::from_str("x:").unwrap_err(), EnvVarError::Form);
    assert_eq!(CLIEnvVarDescriptor::from_str("x=1.").unwrap_err(), EnvVarError::Form);
    assert_eq!(CLIEnvVarDescriptor::from_str("x=1.2.3").unwrap_err(), EnvVarError::Form);
    assert_eq!(CLIEnvVarDescriptor::from_str("x y").unwrap_err(), EnvVarError::Form);
}

fn env(identifier: &str, offset: usize, datatype: &str, qualifier: &str) -> EnvironmentVariable {
    EnvironmentVariable {
        identifier: String::from(identifier),
        ptr_offset: offset,
        datatype: String::from(datatype),
        qualifier: String::from(qualifier),
        ptr_levels: String::from(""),
    }
}

#[test]
fn environment_from_request() {
    let vars = vec![env("a", 0, "f64", "mut"), env("b", 1, "I32", "const"), env("a", 4, "bool", "const")];
    let context = generate_environment_context(&vars);
    let entries = context.copy_addresses();
    assert_eq!(entries.len(), 2);
    let a = entries.iter().find(|e| e.0 == "a").unwrap();
    assert_eq!(((a.1).0, (a.1).1, (a.1).2), (4, PrimitiveDataType::Bool, Qualifier::CONSTANT));
    let b = entries.iter().find(|e| e.0 == "b").unwrap();
    assert_eq!(((b.1).0, (b.1).1, (b.1).2), (1, PrimitiveDataType::I32, Qualifier::CONSTANT));
    assert!(try_generate_environment_context(&vec![env("c", 0, "u16", "mut")]).is_none());
}

#[test]
fn response_tables_are_in_execution_order() {
    let mut code = ProgramCode::new(vec![3, 0, 0], vec![FIXED(ADD)], vec![GOTO, OP, VALUE]);
    code.push_mutable_userspace(1);
    code.push_constant_userspace(2);
    let tables = response_tables(&code, 3);
    assert_eq!(tables.instructions_list, vec![VALUE.as_u32(), OP.as_u32(), GOTO.as_u32()]);
    assert_eq!(tables.values_list, vec![0, 0, 3]);
    assert_eq!(tables.operations_list, vec![0, 0x03CC, 0]);
    assert_eq!(tables.user_space, vec![1, 2]);
    assert_eq!(tables.user_space_size, vec![3, 0]);
}

#[test]
fn math_stack_opcodes() {
    assert_eq!(MathStackOperators::from_u32(0x03CC), Some(MathStackOperators::ADD));
    assert_eq!(MathStackOperators::ADD.as_u32(), 0x03CC);
    assert_eq!(MathStackOperators::from_u32(0x16E4), Some(MathStackOperators::RCDZ));
    assert_eq!(MathStackOperators::from_u32(0xFFFF), None);
    assert_eq!(MathStackOperators::from_u32(MathStackOperators::NULL.as_u32()), Some(MathStackOperators::NULL));
    let f = MathStackInstructions::FUNC_POINTER(FuncPointerContext { ptr_offset: 2 });
    assert_eq!(f, MathStackInstructions::FUNC_POINTER(FuncPointerContext { ptr_offset: 2 }));
    assert_ne!(f, MathStackInstructions::GOTO);
}

/// '--env a:1 b c' assigns a:1, b:0, c:1
#[test]
fn unaddressed_environment_variables_are_numbered_in_order() {
    assert_eq!(assign_environment_addresses(&vec![Some(1), None, None]), vec![1, 0, 1]);
    assert_eq!(assign_environment_addresses(&vec![None, Some(7), None, None]), vec![0, 7, 1, 2]);
    assert!(assign_environment_addresses(&vec![]).is_empty());
}
