use ide_bridge::json::{entry, Json};
use ide_bridge::tools::{
    create_default_registry, folder_name_of, run_tool, standard_handler, ToolAction, ToolError,
    ToolHandler, ToolRegistry, ToolSchema, TOOL_ERROR_INTERNAL, TOOL_ERROR_INVALID_PARAMS,
    TOOL_ERROR_NOT_FOUND,
};

const NAMES: [&str; 12] = [
    "openFile",
    "getCurrentSelection",
    "getLatestSelection",
    "getOpenEditors",
    "getWorkspaceFolders",
    "openDiff",
    "closeAllDiffTabs",
    "close_tab",
    "getDiagnostics",
    "checkDocumentDirty",
    "saveDocument",
    "executeCode",
];

fn registry() -> ToolRegistry {
    create_default_registry(vec!["/home/user/project".to_string()])
}

fn args(entries: Vec<(&str, Json)>) -> Json {
    Json::object(entries.into_iter().map(|(k, v)| entry(k, v)).collect())
}

fn texts(result: &Json) -> Vec<String> {
    assert_eq!(result.bool_field("isError"), Some(false));
    match result.get("content") {
        Some(Json::Array(items)) => items
            .iter()
            .map(|item| {
                assert_eq!(item.str_field("type"), Some("text"));
                item.str_field("text").unwrap().to_string()
            })
            .collect(),
        other => panic!("no content: {:?}", other),
    }
}

fn full_args() -> Json {
    args(vec![
        ("filePath", Json::string("/tmp/a.rs")),
        ("old_file_path", Json::string("/tmp/a.rs")),
        ("new_file_path", Json::string("/tmp/b.rs")),
        ("new_file_contents", Json::string("new")),
        ("tab_name", Json::string("tab")),
        ("code", Json::string("1 + 1")),
        ("uri", Json::string("file:///tmp/a.rs")),
    ])
}

#[test]
fn error_constructors_set_code_and_message() {
    let e = ToolError::new(7, "m".to_string());
    assert_eq!(e, ToolError { code: 7, message: "m".to_string(), data: None });
    let d = ToolError::with_data(8, "n".to_string(), Json::Bool(true));
    assert_eq!(d, ToolError { code: 8, message: "n".to_string(), data: Some(Json::Bool(true)) });
    assert_eq!(ToolError::invalid_params("x".to_string()).code, -32602);
    assert_eq!(ToolError::internal_error("x".to_string()).code, -32603);
    let nf = ToolError::not_found("frob".to_string());
    assert_eq!(nf.code, -32601);
    assert_eq!(nf.message, "Tool not found: frob");
    assert_eq!(TOOL_ERROR_INVALID_PARAMS, -32602);
    assert_eq!(TOOL_ERROR_INTERNAL, -32603);
    assert_eq!(TOOL_ERROR_NOT_FOUND, -32601);
}

#[test]
fn default_registry_lists_the_standard_tools() {
    let list = registry().get_tool_list();
    let names: Vec<&str> = list.iter().map(|s| s.name.as_str()).collect();
    assert_eq!(names, NAMES);
    for schema in &list {
        assert!(!schema.description.is_empty());
        assert_eq!(schema.input_schema.str_field("type"), Some("object"));
        assert!(schema.input_schema.get("properties").is_some());
        assert!(schema.input_schema.get("required").is_some());
    }
}

#[test]
fn schema_of_open_file_names_its_arguments() {
    let list = registry().get_tool_list();
    assert_eq!(
        list[0].input_schema.to_text(),
        "{\"properties\":{\"endText\":{\"type\":\"string\"},\"filePath\":{\"type\":\"string\"},\
         \"makeFrontmost\":{\"type\":\"boolean\"},\"preview\":{\"type\":\"boolean\"},\
         \"startText\":{\"type\":\"string\"}},\"required\":[\"filePath\"],\"type\":\"object\"}"
    );
    assert_eq!(
        list[1].input_schema.to_text(),
        "{\"properties\":{},\"required\":[],\"type\":\"object\"}"
    );
}

#[test]
fn schema_entry_has_the_three_members() {
    let list = registry().get_tool_list();
    let j = list[7].to_json();
    assert_eq!(j.str_field("name"), Some("close_tab"));
    assert_eq!(j.str_field("description"), Some("Closes a tab in the editor"));
    assert_eq!(j.get("inputSchema"), Some(&list[7].input_schema));
}

#[test]
fn every_listed_tool_can_be_called() {
    let r = registry();
    for schema in r.get_tool_list() {
        assert!(r.has_tool(&schema.name));
        let with_args = r.call_tool(&schema.name, &full_args());
        assert!(with_args.is_ok(), "{}: {:?}", schema.name, with_args);
        match r.call_tool(&schema.name, &args(vec![])) {
            Ok(result) => assert!(!texts(&result).is_empty()),
            Err(e) => {
                assert_eq!(e.code, TOOL_ERROR_INVALID_PARAMS, "{}", schema.name);
                assert!(e.message.starts_with("Missing "), "{}", e.message);
            }
        }
    }
}

#[test]
fn unknown_tool_is_not_found() {
    let r = registry();
    assert!(!r.has_tool("frobnicate"));
    let e = r.call_tool("frobnicate", &args(vec![])).unwrap_err();
    assert_eq!(
        e,
        ToolError { code: -32601, message: "Tool not found: frobnicate".to_string(), data: None }
    );
}

#[test]
fn empty_registry_has_no_tools() {
    let r = ToolRegistry::new();
    assert!(r.get_tool_list().is_empty());
    assert!(!r.has_tool("openFile"));
    assert_eq!(r.call_tool("openFile", &full_args()).unwrap_err().code, -32601);
    let d = ToolRegistry::with_workspace_folders(vec!["/w".to_string()]);
    assert!(d.get_tool_list().is_empty());
}

#[test]
fn registering_a_name_twice_overwrites() {
    let mut r = ToolRegistry::new();
    r.register_tool(standard_handler(ToolAction::CloseTab));
    r.register_tool(standard_handler(ToolAction::OpenFile));
    let replacement = ToolHandler {
        schema: ToolSchema {
            name: "close_tab".to_string(),
            description: "other".to_string(),
            input_schema: Json::Null,
        },
        handler: ToolAction::CloseAllDiffTabs,
        requires_async: true,
    };
    r.register_tool(replacement);
    let list = r.get_tool_list();
    assert_eq!(list.len(), 2);
    assert_eq!(list[0].name, "close_tab");
    assert_eq!(list[0].description, "other");
    assert_eq!(list[1].name, "openFile");
    let result = r.call_tool("close_tab", &args(vec![])).unwrap();
    assert_eq!(texts(&result), vec!["CLOSED_0_DIFF_TABS"]);
}

#[test]
fn open_file_in_front_confirms() {
    let r = registry();
    let result = r.call_tool("openFile", &args(vec![("filePath", Json::string("/tmp/a.rs"))])).unwrap();
    assert_eq!(texts(&result), vec!["Opened file: /tmp/a.rs"]);
    let explicit = r
        .call_tool(
            "openFile",
            &args(vec![("filePath", Json::string("/tmp/a.rs")), ("makeFrontmost", Json::Bool(true))]),
        )
        .unwrap();
    assert_eq!(texts(&explicit), vec!["Opened file: /tmp/a.rs"]);
}

#[test]
fn open_file_in_the_back_describes_the_file() {
    let result = registry()
        .call_tool(
            "openFile",
            &args(vec![("filePath", Json::string("/tmp/a.rs")), ("makeFrontmost", Json::Bool(false))]),
        )
        .unwrap();
    assert_eq!(
        texts(&result),
        vec!["{\"filePath\":\"/tmp/a.rs\",\"languageId\":\"text\",\"lineCount\":0,\"success\":true}"]
    );
}

#[test]
fn open_file_without_path_is_refused() {
    let e = registry().call_tool("openFile", &args(vec![("preview", Json::Bool(true))])).unwrap_err();
    assert_eq!(
        e,
        ToolError { code: -32602, message: "Missing filePath parameter".to_string(), data: None }
    );
    let wrong = registry().call_tool("openFile", &args(vec![("filePath", Json::UInt(1))])).unwrap_err();
    assert_eq!(wrong.code, -32602);
}

#[test]
fn selection_tools_report_no_selection() {
    let r = registry();
    assert_eq!(
        texts(&r.call_tool("getCurrentSelection", &Json::Null).unwrap()),
        vec!["{\"message\":\"No active editor found\",\"success\":false}"]
    );
    assert_eq!(
        texts(&r.call_tool("getLatestSelection", &Json::Null).unwrap()),
        vec!["{\"message\":\"No selection available\",\"success\":false}"]
    );
}

#[test]
fn open_editors_has_no_tabs() {
    assert_eq!(
        texts(&registry().call_tool("getOpenEditors", &Json::Null).unwrap()),
        vec!["{\"tabs\":[]}"]
    );
}

#[test]
fn workspace_folders_names_the_folders() {
    let result = registry().call_tool("getWorkspaceFolders", &args(vec![])).unwrap();
    let text = &texts(&result)[0];
    assert_eq!(
        text,
        "{\"folders\":[{\"name\":\"project\",\"path\":\"/home/user/project\",\
         \"uri\":\"file:///home/user/project\"}],\"rootPath\":\"/home/user/project\",\"success\":true}"
    );
    let parsed = Json::parse(text).unwrap();
    assert_eq!(parsed.bool_field("success"), Some(true));
}

#[test]
fn workspace_folders_without_folders() {
    let r = create_default_registry(vec![]);
    assert_eq!(
        texts(&r.call_tool("getWorkspaceFolders", &args(vec![])).unwrap()),
        vec!["{\"folders\":[],\"rootPath\":\"\",\"success\":true}"]
    );
}

#[test]
fn folder_name_is_the_last_segment() {
    assert_eq!(folder_name_of("/home/user/project"), "project");
    assert_eq!(folder_name_of("project"), "project");
    assert_eq!(folder_name_of("/"), "workspace");
    assert_eq!(folder_name_of(""), "workspace");
    assert_eq!(folder_name_of("/home/user/"), "workspace");
    assert_eq!(folder_name_of("/a/é中"), "é中");
}

#[test]
fn open_diff_saves_the_new_contents() {
    let result = registry().call_tool("openDiff", &full_args()).unwrap();
    assert_eq!(texts(&result), vec!["FILE_SAVED", "new"]);
}

#[test]
fn open_diff_names_the_first_missing_argument() {
    let r = registry();
    let e = r.call_tool("openDiff", &args(vec![])).unwrap_err();
    assert_eq!(e.message, "Missing old_file_path parameter");
    let e = r
        .call_tool("openDiff", &args(vec![("old_file_path", Json::string("a"))]))
        .unwrap_err();
    assert_eq!(e.message, "Missing new_file_path parameter");
    let e = r
        .call_tool(
            "openDiff",
            &args(vec![("old_file_path", Json::string("a")), ("new_file_path", Json::string("b"))]),
        )
        .unwrap_err();
    assert_eq!(e.message, "Missing new_file_contents parameter");
    let e = r
        .call_tool(
            "openDiff",
            &args(vec![
                ("old_file_path", Json::string("a")),
                ("new_file_path", Json::string("b")),
                ("new_file_contents", Json::string("c")),
            ]),
        )
        .unwrap_err();
    assert_eq!(e.message, "Missing tab_name parameter");
}

#[test]
fn closing_tabs() {
    let r = registry();
    assert_eq!(
        texts(&r.call_tool("closeAllDiffTabs", &Json::Null).unwrap()),
        vec!["CLOSED_0_DIFF_TABS"]
    );
    assert_eq!(
        texts(&r.call_tool("close_tab", &args(vec![("tab_name", Json::string("t"))])).unwrap()),
        vec!["TAB_CLOSED"]
    );
    assert_eq!(
        r.call_tool("close_tab", &args(vec![])).unwrap_err().message,
        "Missing tab_name parameter"
    );
}

#[test]
fn diagnostics_for_a_file_and_for_none() {
    let r = registry();
    assert_eq!(
        texts(&r.call_tool("getDiagnostics", &args(vec![("uri", Json::string("file:///a"))])).unwrap()),
        vec!["[{\"diagnostics\":[],\"uri\":\"file:///a\"}]"]
    );
    assert_eq!(texts(&r.call_tool("getDiagnostics", &args(vec![])).unwrap()), vec!["[]"]);
}

#[test]
fn document_state_tools() {
    let r = registry();
    let a = args(vec![("filePath", Json::string("/tmp/a.rs"))]);
    assert_eq!(
        texts(&r.call_tool("checkDocumentDirty", &a).unwrap()),
        vec!["{\"filePath\":\"/tmp/a.rs\",\"isDirty\":false,\"isUntitled\":false,\"success\":true}"]
    );
    assert_eq!(
        texts(&r.call_tool("saveDocument", &a).unwrap()),
        vec![
            "{\"filePath\":\"/tmp/a.rs\",\"message\":\"Document saved successfully\",\
             \"saved\":true,\"success\":true}"
        ]
    );
    assert_eq!(
        r.call_tool("checkDocumentDirty", &args(vec![])).unwrap_err().message,
        "Missing filePath parameter"
    );
    assert_eq!(
        r.call_tool("saveDocument", &args(vec![])).unwrap_err().message,
        "Missing filePath parameter"
    );
}

#[test]
fn execute_code_counts_bytes() {
    let r = registry();
    assert_eq!(
        texts(&r.call_tool("executeCode", &args(vec![("code", Json::string("1 + 1"))])).unwrap()),
        vec!["Code executed successfully. Output: (simulated execution of 5 characters)"]
    );
    assert_eq!(
        texts(&r.call_tool("executeCode", &args(vec![("code", Json::string("é😀"))])).unwrap()),
        vec!["Code executed successfully. Output: (simulated execution of 6 characters)"]
    );
    assert_eq!(
        texts(&r.call_tool("executeCode", &args(vec![("code", Json::string(""))])).unwrap()),
        vec!["Code executed successfully. Output: (simulated execution of 0 characters)"]
    );
    assert_eq!(
        r.call_tool("executeCode", &args(vec![])).unwrap_err().message,
        "Missing code parameter"
    );
}

#[test]
fn run_tool_needs_no_registry() {
    let folders = vec!["/w/one".to_string(), "/w/two".to_string()];
    let result = run_tool(ToolAction::GetWorkspaceFolders, &folders, &Json::Null).unwrap();
    assert_eq!(
        texts(&result),
        vec![
            "{\"folders\":[{\"name\":\"one\",\"path\":\"/w/one\",\"uri\":\"file:///w/one\"},\
             {\"name\":\"two\",\"path\":\"/w/two\",\"uri\":\"file:///w/two\"}],\
             \"rootPath\":\"/w/one\",\"success\":true}"
        ]
    );
}

#[test]
fn result_envelope_as_text() {
    let result = registry().call_tool("close_tab", &full_args()).unwrap();
    assert_eq!(
        result.to_text(),
        "{\"content\":[{\"text\":\"TAB_CLOSED\",\"type\":\"text\"}],\"isError\":false}"
    );
}

#[test]
fn action_names_are_the_listed_names() {
    let actions = [
        ToolAction::OpenFile,
        ToolAction::GetCurrentSelection,
        ToolAction::GetLatestSelection,
        ToolAction::GetOpenEditors,
        ToolAction::GetWorkspaceFolders,
        ToolAction::OpenDiff,
        ToolAction::CloseAllDiffTabs,
        ToolAction::CloseTab,
        ToolAction::GetDiagnostics,
        ToolAction::CheckDocumentDirty,
        ToolAction::SaveDocument,
        ToolAction::ExecuteCode,
    ];
    for (action, name) in actions.iter().zip(NAMES.iter()) {
        assert_eq!(action.name(), *name);
        let h = standard_handler(*action);
        assert_eq!(h.schema.name, *name);
        assert_eq!(h.handler, *action);
        assert!(!h.requires_async);
    }
}
