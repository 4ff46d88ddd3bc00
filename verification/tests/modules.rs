use fabela::compile::{get_temp_path, output_file_name, resolve_output_path, OutputPath};
use fabela::console::{format_js_value, log_line, ConsoleValue};
use fabela::error::{FabelaError, IoContext};
use fabela::os::{home_dir, os_type};
use fabela::process::{build_command, exec_output};
use fabela::registry::{get_hkey, policy_location, RootKey};
use fabela::sqlite::{
    js_values_to_params, sqlite_to_js, DbHandle, JsArg, JsCell, ParamError, SqlCell, SqlParam, SqliteError,
};
use fabela::text::{context_message, int_to_decimal, str_eq};

#[test]
fn decimal_formatting() {
    assert_eq!(int_to_decimal(0), "0");
    assert_eq!(int_to_decimal(7), "7");
    assert_eq!(int_to_decimal(-42), "-42");
    assert_eq!(int_to_decimal(1_000_000), "1000000");
    assert_eq!(int_to_decimal(i64::MIN), i64::MIN.to_string());
    assert_eq!(int_to_decimal(i64::MAX), i64::MAX.to_string());
}

#[test]
fn text_helpers() {
    assert_eq!(context_message("readFileSync", "not found"), "readFileSync: not found");
    assert!(str_eq("héllo", "héllo"));
    assert!(!str_eq("abc", "abd"));
    assert!(!str_eq("abc", "ab"));
}

#[test]
fn io_context_wraps_errors_and_keeps_values() {
    let ok: Result<u8, std::io::Error> = Ok(3);
    assert!(matches!(ok.io_context("reading".to_string()), Ok(3)));
    let err: Result<u8, std::io::Error> = Err(std::io::Error::new(std::io::ErrorKind::Other, "disk"));
    match err.io_context("reading".to_string()) {
        Err(FabelaError::Io { context, source }) => {
            assert_eq!(context, "reading");
            assert_eq!(source.to_string(), "disk");
        }
        _ => panic!("expected an I/O error"),
    }
}

#[test]
fn console_formats_values() {
    assert_eq!(format_js_value(&ConsoleValue::Text(Some("hi".to_string()))), "hi");
    assert_eq!(format_js_value(&ConsoleValue::Text(None)), "[string]");
    assert_eq!(format_js_value(&ConsoleValue::Integer(-5)), "-5");
    assert_eq!(format_js_value(&ConsoleValue::Fraction("1.5".to_string())), "1.5");
    assert_eq!(format_js_value(&ConsoleValue::Bool(true)), "true");
    assert_eq!(format_js_value(&ConsoleValue::Bool(false)), "false");
    assert_eq!(format_js_value(&ConsoleValue::Null), "null");
    assert_eq!(format_js_value(&ConsoleValue::Undefined), "undefined");
    assert_eq!(format_js_value(&ConsoleValue::Object), "[Object]");
    assert_eq!(format_js_value(&ConsoleValue::Array(vec![])), "[  ]");
    let nested = ConsoleValue::Array(vec![
        ConsoleValue::Integer(1),
        ConsoleValue::Array(vec![ConsoleValue::Text(Some("a".to_string())), ConsoleValue::Null]),
        ConsoleValue::Object,
    ]);
    assert_eq!(format_js_value(&nested), "[ 1, [ a, null ], [Object] ]");
}

#[test]
fn console_log_joins_with_spaces() {
    let args = vec![
        ConsoleValue::Text(Some("sum:".to_string())),
        ConsoleValue::Integer(3),
        ConsoleValue::Array(vec![ConsoleValue::Bool(true)]),
    ];
    assert_eq!(log_line(&args), "sum: 3 [ true ]");
    assert_eq!(log_line(&vec![]), "");
}

#[test]
fn sqlite_params_bind_in_order() {
    let args = vec![
        JsArg::Null,
        JsArg::Undefined,
        JsArg::Text(Some("x".to_string())),
        JsArg::Int(-7),
        JsArg::Float(2.5f64.to_bits()),
        JsArg::Bool(true),
    ];
    let params = js_values_to_params(args).unwrap();
    assert_eq!(params.len(), 6);
    assert!(matches!(params[0], SqlParam::Null));
    assert!(matches!(params[1], SqlParam::Null));
    assert!(matches!(&params[2], SqlParam::Text(s) if s == "x"));
    assert!(matches!(params[3], SqlParam::Integer(-7)));
    assert!(matches!(params[4], SqlParam::Real(b) if f64::from_bits(b) == 2.5));
    assert!(matches!(params[5], SqlParam::Bool(true)));
}

#[test]
fn sqlite_first_bad_param_decides() {
    let args = vec![JsArg::Int(1), JsArg::Unsupported, JsArg::Text(None)];
    assert!(matches!(js_values_to_params(args), Err(ParamError::Unsupported(1))));
    let args = vec![JsArg::Text(None), JsArg::Unsupported];
    assert!(matches!(js_values_to_params(args), Err(ParamError::UnreadableText(0))));
    assert!(matches!(js_values_to_params(vec![]), Ok(v) if v.is_empty()));
}

#[test]
fn sqlite_cells_become_js_values() {
    assert!(matches!(sqlite_to_js(SqlCell::Null), Ok(JsCell::Null)));
    assert!(matches!(sqlite_to_js(SqlCell::Integer(9)), Ok(JsCell::Integer(9))));
    assert!(matches!(sqlite_to_js(SqlCell::Real(1.25f64.to_bits())), Ok(JsCell::Real(b)) if f64::from_bits(b) == 1.25));
    assert!(matches!(sqlite_to_js(SqlCell::Text("ñu".as_bytes().to_vec())), Ok(JsCell::Text(s)) if s == "ñu"));
    assert!(matches!(sqlite_to_js(SqlCell::Text(vec![0xff, 0x61])), Ok(JsCell::Text(s)) if s.is_empty()));
    assert!(matches!(sqlite_to_js(SqlCell::Blob), Err(SqliteError::BlobUnsupported)));
}

#[test]
fn database_handle_closes_once() {
    let mut h = DbHandle::open(42u32);
    assert!(matches!(h.connection(), Ok(&42)));
    assert!(matches!(h.close(), Ok(42)));
    assert!(matches!(h.connection(), Err(SqliteError::Closed)));
    assert!(matches!(h.close(), Err(SqliteError::AlreadyClosed)));
}

#[test]
fn sqlite_messages() {
    assert_eq!(SqliteError::Busy.message(), "database busy");
    assert_eq!(SqliteError::Closed.message(), "database closed");
    assert_eq!(SqliteError::AlreadyClosed.message(), "database already closed");
    assert_eq!(SqliteError::UnsupportedParameter.message(), "unsupported parameter type");
    assert_eq!(SqliteError::BlobUnsupported.message(), "blob not supported");
}

#[test]
fn registry_root_names() {
    assert_eq!(get_hkey("HKCU"), Some(RootKey::CurrentUser));
    assert_eq!(get_hkey("hkey_local_machine"), Some(RootKey::LocalMachine));
    assert_eq!(get_hkey("Hkcr"), Some(RootKey::ClassesRoot));
    assert_eq!(get_hkey("hku"), Some(RootKey::Users));
    assert_eq!(get_hkey("HKEY_CURRENT_CONFIG"), Some(RootKey::CurrentConfig));
    assert_eq!(get_hkey("HKEY_CURRENT_USERS"), None);
    assert_eq!(get_hkey(""), None);
    let (root, path) = policy_location("Google\\Chrome");
    assert_eq!(root, RootKey::LocalMachine);
    assert_eq!(path, "SOFTWARE\\Policies\\Google\\Chrome");
}

#[test]
fn os_names() {
    assert_eq!(os_type("windows"), "Windows_NT");
    assert_eq!(os_type("linux"), "Linux");
    assert_eq!(os_type("macos"), "Darwin");
    assert_eq!(os_type("freebsd"), "freebsd");
    assert_eq!(home_dir(false, Some("C:\\Users\\a".to_string()), Some("/home/a".to_string())), "/home/a");
    assert_eq!(home_dir(true, Some("C:\\Users\\a".to_string()), Some("/home/a".to_string())), "C:\\Users\\a");
    assert_eq!(home_dir(true, None, Some("/home/a".to_string())), "/home/a");
    assert_eq!(home_dir(false, None, None), "");
}

#[test]
fn shell_commands() {
    let c = build_command("echo hi", false);
    assert_eq!(c.program, "sh");
    assert_eq!(c.args, vec!["-c".to_string(), "echo hi".to_string()]);
    let c = build_command("dir", true);
    assert_eq!(c.program, "cmd");
    assert_eq!(c.args, vec!["/C".to_string(), "dir".to_string()]);
}

#[test]
fn exec_results() {
    let out = exec_output(b"hello\n", b"", Some(0));
    assert_eq!(out, vec!["hello\n".to_string(), String::new(), "0".to_string()]);
    let out = exec_output(&[0x66, 0xff], b"err", None);
    assert_eq!(out, vec!["f\u{FFFD}".to_string(), "err".to_string(), "-1".to_string()]);
    assert_eq!(exec_output(b"", b"", Some(127))[2], "127");
}

#[test]
fn build_output_names() {
    assert_eq!(output_file_name("app.js", Some("app".to_string()), false).unwrap(), "app");
    assert_eq!(output_file_name("app.js", Some("app".to_string()), true).unwrap(), "app.exe");
    match output_file_name("/", None, false) {
        Err(FabelaError::Compile(m)) => assert_eq!(m, "File '/' has no valid name"),
        _ => panic!("expected a compile error"),
    }
}

#[test]
fn temp_file_names() {
    let name = get_temp_path("main.js", &[0x00, 0x01, 0xab, 0xcd, 0xef, 0x10, 0x99, 0xff]);
    assert_eq!(name, "main.js.tmp-0001abcdef1099ff");
}

#[test]
fn explicit_output_path_wins() {
    match resolve_output_path(Some("dist/app"), "app.js", Some("app".to_string()), true) {
        Ok(OutputPath::Given(p)) => assert_eq!(p, "dist/app"),
        _ => panic!("expected the given path"),
    }
    match resolve_output_path(Some("out"), "/", None, false) {
        Ok(OutputPath::Given(p)) => assert_eq!(p, "out"),
        _ => panic!("expected the given path"),
    }
    match resolve_output_path(None::<&str>, "src/app.js", Some("app".to_string()), true) {
        Ok(OutputPath::InWorkingDir(n)) => assert_eq!(n, "app.exe"),
        _ => panic!("expected a name in the working directory"),
    }
    match resolve_output_path(None::<&str>, "/", None, false) {
        Err(FabelaError::Compile(m)) => assert_eq!(m, "File '/' has no valid name"),
        _ => panic!("expected a compile error"),
    }
}
