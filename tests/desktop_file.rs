use desktop_file_generator::desktop_file::{
    generate, DesktopFile, GenerateError, InstallMode, ValidationError, WriteRequest,
};

const MYAPP_TEXT: &str = "[Desktop Entry]\nEncoding=UTF-8\nVersion=1.0\nType=Application\nTerminal=false\nExec=/usr/bin/myapp\nName=MyApp";

fn request(
    name: &str,
    exec: &str,
    icon: Option<&str>,
    terminal: bool,
    mode: InstallMode,
) -> WriteRequest {
    match generate(
        name.to_string(),
        exec.to_string(),
        icon.map(|i| i.to_string()),
        terminal,
        Some("/home/user".to_string()),
        mode,
    ) {
        Ok(w) => w,
        Err(e) => panic!("generation failed: {:?}", e),
    }
}

#[test]
fn example_fast_install_without_icon() {
    let w = request("MyApp", "/usr/bin/myapp", None, false, InstallMode::Fast);
    assert_eq!(w.path, "/home/user/.local/share/applications/MyApp.desktop");
    assert_eq!(w.content, MYAPP_TEXT);
}

#[test]
fn export_mode_goes_to_downloads() {
    let w = request("MyApp", "/usr/bin/myapp", None, false, InstallMode::Export);
    assert_eq!(w.path, "/home/user/Downloads/MyApp.desktop");
    assert_eq!(w.content, MYAPP_TEXT);
}

#[test]
fn icon_line_comes_last() {
    let w = request("Viewer", "/opt/viewer/run", Some("/usr/share/icons/viewer.png"), true, InstallMode::Fast);
    assert_eq!(
        w.content,
        "[Desktop Entry]\nEncoding=UTF-8\nVersion=1.0\nType=Application\nTerminal=true\nExec=/opt/viewer/run\nName=Viewer\nIcon=/usr/share/icons/viewer.png"
    );
    let lines: Vec<&str> = w.content.split('\n').collect();
    assert_eq!(lines.len(), 8);
    assert_eq!(lines.iter().filter(|l| l.starts_with("Icon=")).count(), 1);
    assert_eq!(lines[7], "Icon=/usr/share/icons/viewer.png");
}

#[test]
fn no_icon_line_without_icon() {
    let w = request("Tool", "/bin/tool", None, true, InstallMode::Export);
    assert!(!w.content.contains("Icon="));
    assert_eq!(w.content.split('\n').count(), 7);
}

#[test]
fn terminal_flag_rendering() {
    let on = request("A", "/bin/a", None, true, InstallMode::Fast);
    let off = request("A", "/bin/a", None, false, InstallMode::Fast);
    assert_eq!(on.content.split('\n').nth(4), Some("Terminal=true"));
    assert_eq!(off.content.split('\n').nth(4), Some("Terminal=false"));
}

#[test]
fn generating_twice_gives_identical_output() {
    let a = request("Twice", "/bin/twice", Some("/i.png"), false, InstallMode::Fast);
    let b = request("Twice", "/bin/twice", Some("/i.png"), false, InstallMode::Fast);
    assert_eq!(a.path, b.path);
    assert_eq!(a.content.as_bytes(), b.content.as_bytes());
}

#[test]
fn no_trailing_newline() {
    let w = request("MyApp", "/usr/bin/myapp", Some("/x.svg"), false, InstallMode::Fast);
    assert!(!w.content.ends_with('\n'));
}

#[test]
fn values_are_written_verbatim() {
    let w = request("My App=1", "env X=1 /bin/app --flag \"q\"", None, false, InstallMode::Fast);
    assert_eq!(w.path, "/home/user/.local/share/applications/My App=1.desktop");
    assert!(w.content.contains("\nExec=env X=1 /bin/app --flag \"q\"\n"));
    assert!(w.content.ends_with("\nName=My App=1"));
}

#[test]
fn empty_name_is_rejected() {
    let r = generate(String::new(), "/bin/a".to_string(), None, false, Some("/home/user".to_string()), InstallMode::Fast);
    assert!(matches!(r, Err(GenerateError::Validation(ValidationError::EmptyName))));
}

#[test]
fn empty_executable_is_rejected() {
    let r = generate("A".to_string(), String::new(), None, false, Some("/home/user".to_string()), InstallMode::Export);
    assert!(matches!(r, Err(GenerateError::Validation(ValidationError::EmptyExecutable))));
}

#[test]
fn validation_comes_before_environment() {
    let r = generate(String::new(), String::new(), None, false, None, InstallMode::Fast);
    assert!(matches!(r, Err(GenerateError::Validation(ValidationError::EmptyName))));
}

#[test]
fn missing_home_is_an_environment_error() {
    let r = generate("A".to_string(), "/bin/a".to_string(), None, false, None, InstallMode::Fast);
    assert!(matches!(r, Err(GenerateError::Environment)));
}

#[test]
fn constructor_validates_and_keeps_fields() {
    assert!(matches!(
        DesktopFile::new(String::new(), None, "/bin/a".to_string(), false),
        Err(ValidationError::EmptyName)
    ));
    assert!(matches!(
        DesktopFile::new("A".to_string(), None, String::new(), false),
        Err(ValidationError::EmptyExecutable)
    ));
    let d = DesktopFile::new("A".to_string(), Some("/i.png".to_string()), "/bin/a".to_string(), true).unwrap();
    assert_eq!(d.name(), "A");
    assert_eq!(d.exec(), "/bin/a");
    assert_eq!(d.icon(), Some("/i.png"));
    assert!(d.terminal());
}

#[test]
fn save_resolves_path_and_text() {
    let d = DesktopFile::new("MyApp".to_string(), None, "/usr/bin/myapp".to_string(), false).unwrap();
    assert_eq!(d.target_path("/root", InstallMode::Export), "/root/Downloads/MyApp.desktop");
    assert_eq!(d.content(), MYAPP_TEXT);
    assert!(matches!(d.save(None, InstallMode::Fast), Err(GenerateError::Environment)));
    let w = d.save(Some("/root".to_string()), InstallMode::Fast).unwrap();
    assert_eq!(w.path, "/root/.local/share/applications/MyApp.desktop");
    assert_eq!(w.content, MYAPP_TEXT);
}
