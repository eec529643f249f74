use i3mux::helper::{
    script_version, upload_needed, ABDUCO_MISSING, HELPER_CHECK_COMMAND, HELPER_CHMOD_COMMAND,
    HELPER_UPLOAD_COMMAND, HELPER_VERSION_COMMAND,
};

fn reference(script: &str) -> String {
    script
        .lines()
        .find(|line| line.contains("VERSION="))
        .and_then(|line| line.split('"').nth(1))
        .unwrap_or("unknown")
        .to_string()
}

#[test]
fn script_version_agrees_with_line_and_quote_splitting() {
    let scripts = [
        "",
        "#!/bin/bash\nVERSION=\"1.2.3\"\necho hi\n",
        "#!/bin/bash\r\nVERSION=\"1.2.3\"\r\n",
        "VERSION=1\nVERSION=\"2\"\n",
        "x VERSION=\"a\"b\"c\"",
        "VERSION=\"open",
        "echo \"pre\" VERSION=\"v\"",
        "version=\"1\"\n",
        "VERSION=\"\"",
        "\n\n  VERSION=\"0.9\"  \n",
        "VERSION",
        "VERSION=",
    ];
    for s in scripts {
        assert_eq!(script_version(s), reference(s), "{:?}", s);
    }
    assert_eq!(script_version("VERSION=\"1.2.3\"\n"), "1.2.3");
    assert_eq!(script_version("echo\n"), "unknown");
}

#[test]
fn upload_is_needed_unless_versions_agree() {
    let script = "#!/bin/bash\nVERSION=\"1.2.3\"\n";
    assert!(!upload_needed("1.2.3\n", script));
    assert!(!upload_needed("  1.2.3  ", script));
    assert!(upload_needed("1.2.2\n", script));
    assert!(upload_needed("", script));
    assert!(upload_needed("\n", script));
    assert!(!upload_needed("unknown\n", "no version here"));
}

#[test]
fn helper_commands() {
    assert_eq!(HELPER_VERSION_COMMAND, format!("{} version 2>/dev/null || echo ''", "/tmp/i3mux-helper.sh"));
    assert_eq!(HELPER_UPLOAD_COMMAND, format!("cat > {}", "/tmp/i3mux-helper.sh"));
    assert_eq!(HELPER_CHMOD_COMMAND, format!("chmod +x {}", "/tmp/i3mux-helper.sh"));
    assert_eq!(HELPER_CHECK_COMMAND, format!("bash -lc '{} check-deps'", "/tmp/i3mux-helper.sh"));
    assert!(ABDUCO_MISSING.starts_with("abduco not found. Please install it:\n- Arch Linux"));
    assert!(ABDUCO_MISSING.ends_with("https://github.com/martanne/abduco"));
    assert_eq!(ABDUCO_MISSING.lines().count(), 5);
}
