use componentize_go::bindings::{check_names, generate_bindings, library_message, name_stays_inside, BindingsError};
use componentize_go::componentize::{core_module_to_component, embed_wit, ComponentError};
use componentize_go::wit::{parse_wit, WitError};

#[test]
fn missing_documents_fail_to_load() {
    let paths = vec!["/nonexistent/interfaces.wit".to_string()];
    match parse_wit(&paths, None, &vec![], false) {
        Err(WitError::Load { path, message }) => {
            assert_eq!(path, "/nonexistent/interfaces.wit");
            assert!(!message.is_empty());
        }
        _ => panic!("expected a load error"),
    }
}

#[test]
fn malformed_module_fails_to_parse() {
    let bytes = b"(module".to_vec();
    assert!(matches!(core_module_to_component(&bytes, &vec![]), Err(ComponentError::Parse(_))));
    let paths = vec!["/nonexistent".to_string()];
    assert!(matches!(embed_wit(&bytes, &paths, None, &vec![], false), Err(ComponentError::Parse(_))));
}

#[test]
fn text_module_reaches_the_resolver() {
    let bytes = b"(module)".to_vec();
    let paths = vec!["/nonexistent/interfaces.wit".to_string()];
    assert!(matches!(
        embed_wit(&bytes, &paths, None, &vec![], false),
        Err(ComponentError::Resolve(WitError::Load { .. }))
    ));
}

#[test]
fn invalid_adapter_is_refused() {
    let module = b"(module)".to_vec();
    let adapter = b"not a module".to_vec();
    assert!(matches!(core_module_to_component(&module, &adapter), Err(ComponentError::UnsupportedAdapter)));
    let binary = wat::parse_str("(module)").unwrap();
    assert!(matches!(core_module_to_component(&binary, &adapter), Err(ComponentError::UnsupportedAdapter)));
}

#[test]
fn adapter_with_exception_tables_is_refused() {
    let module = b"(module)".to_vec();
    let adapter = wat::parse_str("(module (func (try_table)))").unwrap();
    assert!(matches!(core_module_to_component(&module, &adapter), Err(ComponentError::UnsupportedAdapter)));
}

#[test]
fn plain_adapter_reaches_the_encoder() {
    let module = b"(module)".to_vec();
    let adapter = wat::parse_str("(module)").unwrap();
    match core_module_to_component(&module, &adapter) {
        Ok(component) => assert_eq!(&component[..4], b"\0asm"),
        Err(ComponentError::Encode(_)) => {}
        Err(_) => panic!("the module parses and the adapter is admitted"),
    }
}

fn files(names: &[&str]) -> Vec<(String, Vec<u8>)> {
    names.iter().map(|n| (n.to_string(), b"package x".to_vec())).collect()
}

#[test]
fn generated_files_are_kept_with_no_note_for_a_program() {
    let given = files(&["wit_exports/wit_exports.go", "go.mod"]);
    let set = match generate_bindings(given.clone(), &None) {
        Ok(s) => s,
        Err(_) => panic!("names stay inside"),
    };
    assert_eq!(set.files, given);
    assert!(set.message.is_none());
}

#[test]
fn library_package_comes_with_a_note() {
    let set = match generate_bindings(files(&["imports/x.go"]), &Some("example.com/app".to_string())) {
        Ok(s) => s,
        Err(_) => panic!("names stay inside"),
    };
    assert_eq!(
        set.message.unwrap(),
        "Success! Please add the following line to your 'go.mod' file:\n\nrequire go.bytecodealliance.org/pkg v0.4.0"
    );
    assert_eq!(library_message(&None), None);
}

#[test]
fn escaping_file_name_is_refused() {
    match generate_bindings(files(&["ok.go", "../outside.go"]), &None) {
        Err(BindingsError::UnsafeName(n)) => assert_eq!(n, "../outside.go"),
        Ok(_) => panic!("expected a refusal"),
    }
    assert!(matches!(check_names(files(&["/abs.go"]), None), Err(BindingsError::UnsafeName(_))));
    assert!(check_names(vec![], Some("note".to_string())).is_ok());
}

#[test]
fn file_names_stay_inside() {
    assert!(name_stays_inside("wit_exports/wit_exports.go"));
    assert!(name_stays_inside("a/..b/c.go"));
    assert!(!name_stays_inside("/etc/passwd"));
    assert!(!name_stays_inside("a/../../b.go"));
    assert!(!name_stays_inside(""));
}
