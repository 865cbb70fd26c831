use base64::Engine;
use daytona::code_toolbox::{
    CodeLanguage, CodeRunParams, CodeToolbox, JavaScriptCodeToolbox, LanguageToolbox,
    PythonCodeToolbox, TypeScriptCodeToolbox, PYTHON_WRAPPER_PREFIX, PYTHON_WRAPPER_SUFFIX,
};

#[test]
fn python_command_embeds_base64_code() {
    let cmd = PythonCodeToolbox::new().get_run_command("print(1)", None);
    assert_eq!(
        cmd,
        "sh -c 'python3 -u -c \"exec(__import__(\\\"base64\\\").b64decode(\\\"cHJpbnQoMSk=\\\").decode())\" '"
    );
}

#[test]
fn python_command_appends_argv() {
    let params = CodeRunParams {
        argv: vec!["--x".to_string(), "1".to_string()],
        env: None,
    };
    let cmd = PythonCodeToolbox::new().get_run_command("print(1)", Some(&params));
    assert!(cmd.ends_with("\\\").decode())\" --x 1'"));
}

#[test]
fn python_command_wraps_matplotlib_code() {
    let code = "import matplotlib\nprint(2)";
    let cmd = PythonCodeToolbox::new().get_run_command(code, None);
    let engine = base64::engine::general_purpose::STANDARD;
    let inner = engine.encode(code);
    let wrapped = format!("{}{}{}", PYTHON_WRAPPER_PREFIX, inner, PYTHON_WRAPPER_SUFFIX);
    let expected_payload = engine.encode(&wrapped);
    assert!(cmd.contains(&expected_payload));
    assert!(!cmd.contains(&format!("b64decode(\\\"{}\\\")", inner)));
}

#[test]
fn python_comment_import_is_not_wrapped() {
    let code = "# import matplotlib\nprint(3)";
    let cmd = PythonCodeToolbox::new().get_run_command(code, None);
    let engine = base64::engine::general_purpose::STANDARD;
    assert!(cmd.contains(&engine.encode(code)));
}

#[test]
fn typescript_command_shape() {
    let cmd = TypeScriptCodeToolbox::new().get_run_command("console.log(1)", None);
    let engine = base64::engine::general_purpose::STANDARD;
    let payload = engine.encode("console.log(1)");
    assert_eq!(
        cmd,
        format!(
            "sh -c 'echo {} | base64 --decode | npx ts-node -O \"{{\\\"module\\\":\\\"CommonJS\\\"}}\" -e \"$(cat)\" x  2>&1 | grep -vE \"npm notice\"'",
            payload
        )
    );
}

#[test]
fn javascript_command_shape() {
    let cmd = JavaScriptCodeToolbox::new().get_run_command("console.log(1)", None);
    let engine = base64::engine::general_purpose::STANDARD;
    let payload = engine.encode("console.log(1)");
    assert_eq!(
        cmd,
        format!("sh -c 'echo {} | base64 --decode | node -e \"$(cat)\" '", payload)
    );
}

#[test]
fn language_from_str_is_case_insensitive() {
    assert_eq!(CodeLanguage::from_str("python"), Some(CodeLanguage::Python));
    assert_eq!(CodeLanguage::from_str("PYTHON"), Some(CodeLanguage::Python));
    assert_eq!(CodeLanguage::from_str("py"), Some(CodeLanguage::Python));
    assert_eq!(
        CodeLanguage::from_str("TypeScript"),
        Some(CodeLanguage::TypeScript)
    );
    assert_eq!(CodeLanguage::from_str("ts"), Some(CodeLanguage::TypeScript));
    assert_eq!(
        CodeLanguage::from_str("js"),
        Some(CodeLanguage::JavaScript)
    );
    assert_eq!(CodeLanguage::from_str("ruby"), None);
}

#[test]
fn toolbox_dispatches_by_language() {
    let code = "print(1)";
    let via_enum = match CodeLanguage::Python.toolbox() {
        t @ LanguageToolbox::Python(_) => t.get_run_command(code, None),
        _ => panic!("expected the python toolbox"),
    };
    let direct = PythonCodeToolbox::new().get_run_command(code, None);
    assert_eq!(via_enum, direct);
}
