use desktop_shell::file_dialog::{
    finish_open, finish_save, open_filters, plan_open, plan_save, save_filters, OpenPlan, SavePlan,
};
use desktop_shell::greet::greet;
use desktop_shell::notification::{finish_notification, NotificationRequest};
use desktop_shell::registry::{registered_commands, Command};
use desktop_shell::version::AppInfo;

#[test]
fn greet_world() {
    assert_eq!(
        greet("World"),
        "Hello, World! You've been greeted from Rust!"
    );
}

#[test]
fn greet_applies_no_escaping() {
    assert_eq!(
        greet("<b>\"O'Brien\"</b>"),
        "Hello, <b>\"O'Brien\"</b>! You've been greeted from Rust!"
    );
}

#[test]
fn greet_empty_name() {
    assert_eq!(greet(""), "Hello, ! You've been greeted from Rust!");
}

#[test]
fn save_plan_carries_content_verbatim() {
    let plan = plan_save(
        "payload bytes".to_string(),
        Some("/tmp/report.json".to_string()),
    );
    match plan {
        SavePlan::Write { path, data } => {
            assert_eq!(path, "/tmp/report.json");
            assert_eq!(data, "payload bytes");
        }
        SavePlan::Cancelled { .. } => panic!("a chosen path must lead to a write"),
    }
}

#[test]
fn save_without_path_is_cancelled() {
    let plan = plan_save("payload".to_string(), None);
    match plan {
        SavePlan::Write { .. } => panic!("a cancelled picker must not lead to a write"),
        SavePlan::Cancelled { error } => assert_eq!(error, "No file path selected"),
    }
}

#[test]
fn finish_save_confirms_with_path() {
    let r = finish_save("/tmp/report.json".to_string(), None);
    assert_eq!(r, Ok("/tmp/report.json".to_string()));
}

#[test]
fn finish_save_reports_write_failure() {
    let r = finish_save(
        "/tmp/report.json".to_string(),
        Some("permission denied".to_string()),
    );
    assert_eq!(r, Err("Failed to write file: permission denied".to_string()));
}

#[test]
fn open_plan_reads_chosen_file() {
    let plan = plan_open(Some("/tmp/input.xlsx".to_string()));
    match plan {
        OpenPlan::Read { path } => assert_eq!(path, "/tmp/input.xlsx"),
        OpenPlan::Cancelled { .. } => panic!("a chosen file must lead to a read"),
    }
}

#[test]
fn open_without_file_is_cancelled() {
    let plan = plan_open(None);
    match plan {
        OpenPlan::Read { .. } => panic!("a cancelled picker must not lead to a read"),
        OpenPlan::Cancelled { error } => assert_eq!(error, "No file selected"),
    }
}

#[test]
fn finish_open_returns_contents_exactly() {
    let r = finish_open(Ok("{\"a\": 1}\n".to_string()));
    assert_eq!(r, Ok("{\"a\": 1}\n".to_string()));
}

#[test]
fn finish_open_reports_read_failure() {
    let r = finish_open(Err("No such file or directory".to_string()));
    assert_eq!(
        r,
        Err("Failed to read file: No such file or directory".to_string())
    );
}

#[test]
fn save_then_open_round_trip() {
    let content = "line one\nline two\n".to_string();
    let plan = plan_save(content.clone(), Some("/tmp/notes.txt".to_string()));
    let written = match plan {
        SavePlan::Write { data, .. } => data,
        SavePlan::Cancelled { .. } => panic!("a chosen path must lead to a write"),
    };
    assert_eq!(finish_open(Ok(written)), Ok(content));
}

#[test]
fn save_filters_are_pdf_excel_json_all() {
    let filters = save_filters();
    let shape: Vec<(String, Vec<String>)> = filters
        .into_iter()
        .map(|f| (f.name, f.extensions))
        .collect();
    assert_eq!(
        shape,
        vec![
            ("PDF files".to_string(), vec!["pdf".to_string()]),
            ("Excel files".to_string(), vec!["xlsx".to_string()]),
            ("JSON files".to_string(), vec!["json".to_string()]),
            ("All files".to_string(), vec!["*".to_string()]),
        ]
    );
}

#[test]
fn open_filters_are_json_excel_all() {
    let filters = open_filters();
    let shape: Vec<(String, Vec<String>)> = filters
        .into_iter()
        .map(|f| (f.name, f.extensions))
        .collect();
    assert_eq!(
        shape,
        vec![
            ("JSON files".to_string(), vec!["json".to_string()]),
            ("Excel files".to_string(), vec!["xlsx".to_string()]),
            ("All files".to_string(), vec!["*".to_string()]),
        ]
    );
}

#[test]
fn notification_request_keeps_title_and_body() {
    let r = NotificationRequest::new("Done".to_string(), "Export finished".to_string());
    assert_eq!(r.title, "Done");
    assert_eq!(r.body, "Export finished");
}

#[test]
fn finish_notification_success() {
    assert_eq!(finish_notification(None), Ok(()));
}

#[test]
fn finish_notification_reports_failure() {
    let r = finish_notification(Some("permission not granted".to_string()));
    assert_eq!(
        r,
        Err("Failed to show notification: permission not granted".to_string())
    );
}

#[test]
fn version_reads_are_constant() {
    let info = AppInfo::new("0.1.0".to_string());
    let first = info.version();
    let second = info.version();
    assert_eq!(first, "0.1.0");
    assert_eq!(first, second);
}

#[test]
fn registry_holds_all_five_commands() {
    let commands = registered_commands();
    assert_eq!(
        commands,
        vec![
            Command::Greet,
            Command::SaveFileDialog,
            Command::OpenFileDialog,
            Command::ShowNotification,
            Command::GetAppVersion,
        ]
    );
}

#[test]
fn command_invocation_names() {
    let names: Vec<String> = registered_commands().iter().map(|c| c.name()).collect();
    assert_eq!(
        names,
        vec![
            "greet".to_string(),
            "save_file_dialog".to_string(),
            "open_file_dialog".to_string(),
            "show_notification".to_string(),
            "get_app_version".to_string(),
        ]
    );
}
