use wave_sim::preprocess::{
    assemble_shader, Data, Preprocessor, Scalar, ShaderAssemblyError, TICK_SIGNATURE,
};
use wave_sim::simulation::kernel_symbols;

fn template() -> String {
    format!(
        "{TICK_SIGNATURE} {{ *mul = 1.0; }}\nfn main() {{\n    // #if OSCILLATOR\n    osc();\n    // #endif\n    // #if AUDIO\n    audio(AUDIO);\n    // #endif\n}}\n"
    )
}

#[test]
fn constants_come_first_in_definition_order() {
    let p = Preprocessor::new()
        .define("B", Data::U32(7))
        .define("A", Data::I32(-3))
        .define("F", Data::Null)
        .define("T", Data::Bool(true))
        .define("P", Data::vec2(Scalar::U32(10), Scalar::U32(20)));
    let out = p.process("x\n").unwrap();
    assert_eq!(
        out,
        "const B: u32 = 7;\nconst A: i32 = -3;\nconst T: bool = true;\nconst P: vec2<u32> = vec2(10, 20);\nx\n"
    );
}

#[test]
fn redefinition_keeps_place() {
    let p = Preprocessor::new()
        .define("A", Data::U32(1))
        .define("B", Data::U32(2))
        .define("A", Data::U32(3));
    assert_eq!(p.process("").unwrap(), "const A: u32 = 3;\nconst B: u32 = 2;\n");
}

#[test]
fn blocks_kept_or_dropped_by_symbol() {
    let p = Preprocessor::new()
        .define("ON", Data::Null)
        .define("OFF", Data::Bool(false));
    let input = "a\n  // #if ON\nb\nc\n// #endif\n// #if OFF\nd\n// #endif\ne";
    assert_eq!(p.process(input).unwrap(), "const OFF: bool = false;\na\nb\nc\ne\n");
}

#[test]
fn empty_kept_block_leaves_blank_line() {
    let p = Preprocessor::new().define("ON", Data::Null);
    assert_eq!(p.process("a\n// #if ON\n// #endif\nb\n").unwrap(), "a\n\nb\n");
}

#[test]
fn undefined_symbol_is_an_error() {
    let p = Preprocessor::new().define("ON", Data::Null);
    match p.process("// #if MISSING  \nx\n// #endif\n") {
        Err(ShaderAssemblyError::UndefinedSymbol(name)) => assert_eq!(name, "MISSING"),
        other => panic!("unexpected {other:?}"),
    }
}

#[test]
fn unterminated_block_is_an_error() {
    let p = Preprocessor::new().define("ON", Data::Null);
    assert!(matches!(
        p.process("// #if ON\nx\n"),
        Err(ShaderAssemblyError::UnterminatedBlock)
    ));
}

#[test]
fn carriage_returns_before_line_feeds_are_dropped() {
    let p = Preprocessor::new();
    assert_eq!(p.process("a\r\nb\r\n\nc\r").unwrap(), "a\nb\n\nc\r\n");
}

#[test]
fn value_text_and_type_text() {
    assert_eq!(Data::I32(i32::MIN).as_value(), "-2147483648");
    assert_eq!(Data::U32(u32::MAX).as_value(), "4294967295");
    assert_eq!(Data::Bool(false).as_value(), "false");
    let v = Data::vec2(Scalar::I32(-1), Scalar::I32(0));
    assert_eq!(v.as_type(), "vec2<i32>");
    assert_eq!(v.as_value(), "vec2(-1, 0)");
}

#[test]
fn assembly_without_user_body() {
    let out = assemble_shader(&template(), None, &kernel_symbols(None)).unwrap();
    let expected = format!(
        "const AUDIO: bool = false;\n{TICK_SIGNATURE} {{ *mul = 1.0; }}\nfn main() {{\n    osc();\n}}\n"
    );
    assert_eq!(out, expected);
}

#[test]
fn assembly_with_user_body_replaces_first_line() {
    let out = assemble_shader(&template(), Some("*c = 2.0;"), &kernel_symbols(None)).unwrap();
    let expected = format!(
        "const AUDIO: bool = false;\n{TICK_SIGNATURE} {{\n*c = 2.0;\n}}\nfn main() {{\n    osc();\n}}\n"
    );
    assert_eq!(out, expected);
}

#[test]
fn assembly_needs_extension_point() {
    let symbols = kernel_symbols(None);
    assert!(matches!(
        assemble_shader("fn main() {}\n", Some("x"), &symbols),
        Err(ShaderAssemblyError::MissingExtensionPoint)
    ));
    assert!(matches!(
        assemble_shader(TICK_SIGNATURE, None, &symbols),
        Err(ShaderAssemblyError::MissingExtensionPoint)
    ));
}

#[test]
fn assembly_is_repeatable() {
    let symbols = kernel_symbols(None);
    let first = assemble_shader(&template(), Some("*c = 0.5;"), &symbols).unwrap();
    let second = assemble_shader(&template(), Some("*c = 0.5;"), &symbols).unwrap();
    assert_eq!(first.as_bytes(), second.as_bytes());
}
