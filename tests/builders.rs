use dmg::{detach_arguments, detach_outcome, Attach, CommandOutput, Error, FolderImageFormat, FromFolder};

fn strings(v: &[&str]) -> Vec<String> {
    v.iter().map(|s| s.to_string()).collect()
}

fn mount_flags(args: &[String]) -> usize {
    args.iter()
        .filter(|a| matches!(a.as_str(), "-mountrandom" | "-mountroot" | "-mountpoint"))
        .count()
}

#[test]
fn default_attach_arguments() {
    assert_eq!(
        Attach::new("/tmp/x.dmg").arguments(),
        strings(&["attach", "-plist", "/tmp/x.dmg"])
    );
}

#[test]
fn attach_arguments_with_every_option() {
    let args = Attach::new("/tmp/x.dmg")
        .mount_root("/mnt")
        .force_readonly()
        .hidden()
        .arguments();
    assert_eq!(
        args,
        strings(&["attach", "-mountroot", "/mnt", "-readonly", "-nobrowse", "-plist", "/tmp/x.dmg"])
    );
}

#[test]
fn each_strategy_renders_one_mount_flag() {
    let random = Attach::new("i.dmg").mount_random("/tmp").arguments();
    let root = Attach::new("i.dmg").mount_root("/tmp").arguments();
    let point = Attach::new("i.dmg").mount_point("/tmp/p").hidden().arguments();
    assert_eq!(random, strings(&["attach", "-mountrandom", "/tmp", "-plist", "i.dmg"]));
    assert_eq!(root, strings(&["attach", "-mountroot", "/tmp", "-plist", "i.dmg"]));
    assert_eq!(
        point,
        strings(&["attach", "-mountpoint", "/tmp/p", "-nobrowse", "-plist", "i.dmg"])
    );
    for args in [random, root, point] {
        assert_eq!(mount_flags(&args), 1);
    }
}

#[test]
fn later_strategy_replaces_earlier() {
    let args = Attach::new("i.dmg")
        .mount_random("/a")
        .mount_point("/b")
        .force_readonly()
        .arguments();
    assert_eq!(mount_flags(&args), 1);
    assert_eq!(
        args,
        strings(&["attach", "-mountpoint", "/b", "-readonly", "-plist", "i.dmg"])
    );
}

#[test]
fn readonly_renders_readonly_flag() {
    let args = Attach::new("sample.dmg").force_readonly().hidden().arguments();
    assert_eq!(args, strings(&["attach", "-readonly", "-nobrowse", "-plist", "sample.dmg"]));
}

#[test]
fn detach_arguments_plain_and_forced() {
    assert_eq!(detach_arguments("/dev/disk4", false), strings(&["detach", "/dev/disk4"]));
    assert_eq!(
        detach_arguments("/Volumes/x", true),
        strings(&["detach", "-force", "/Volumes/x"])
    );
}

#[test]
fn handle_detach_consumes_handle() {
    let out = CommandOutput {
        success: true,
        stdout: b"<?xml version=\"1.0\" encoding=\"UTF-8\"?><plist version=\"1.0\"><dict><key>system-entities</key><array><dict><key>mount-point</key><string>/Volumes/v</string><key>dev-entry</key><string>/dev/disk3s1</string></dict></array></dict></plist>".to_vec(),
        stderr: Vec::new(),
    };
    let handle = Attach::new("v.dmg").attach(out).unwrap();
    assert_eq!(handle.detach(), strings(&["detach", "/dev/disk3s1"]));
}

#[test]
fn handle_force_detach_arguments() {
    let out = CommandOutput {
        success: true,
        stdout: b"<?xml version=\"1.0\" encoding=\"UTF-8\"?><plist version=\"1.0\"><dict><key>system-entities</key><array><dict><key>mount-point</key><string>/Volumes/v</string><key>dev-entry</key><string>/dev/disk3s1</string></dict></array></dict></plist>".to_vec(),
        stderr: Vec::new(),
    };
    let handle = Attach::new("v.dmg").attach(out).unwrap();
    assert_eq!(handle.force_detach(), strings(&["detach", "-force", "/dev/disk3s1"]));
}

#[test]
fn detach_status() {
    assert_eq!(detach_outcome(true), Ok(()));
    assert_eq!(detach_outcome(false), Err(Error::ExitedNonZero(String::new())));
}

#[test]
fn default_create_arguments() {
    assert_eq!(
        FromFolder::new("test").arguments("/tmp/out.dmg"),
        strings(&[
            "create",
            "-nospotlight",
            "-noanyowners",
            "-noskipunreadable",
            "-atomic",
            "-format",
            "UDZO",
            "-srcfolder",
            "test",
            "/tmp/out.dmg",
        ])
    );
}

#[test]
fn create_arguments_with_every_option() {
    let args = FromFolder::new("src dir")
        .overwrite()
        .volume_name("demo")
        .spotlight_index()
        .any_owners()
        .skip_unreadable()
        .non_atomic()
        .arguments("o.dmg");
    assert_eq!(
        args,
        strings(&[
            "create",
            "-ov",
            "-volname",
            "demo",
            "-spotlight",
            "-anyowners",
            "-skipunreadable",
            "-noatomic",
            "-format",
            "UDZO",
            "-srcfolder",
            "src dir",
            "o.dmg",
        ])
    );
}

#[test]
fn overwrite_only_when_asked() {
    let plain = FromFolder::new("test").volume_name("x").arguments("t.dmg");
    let clobber = FromFolder::new("test").volume_name("x").overwrite().arguments("t.dmg");
    assert!(!plain.contains(&"-ov".to_string()));
    assert_eq!(clobber[1], "-ov");
    assert_eq!(&clobber[2..], &plain[1..]);
}

#[test]
fn failed_create_reports_stderr() {
    let out = CommandOutput {
        success: false,
        stdout: Vec::new(),
        stderr: b"hdiutil: create failed - File exists".to_vec(),
    };
    assert_eq!(
        FromFolder::new("test").create(out),
        Err(Error::ExitedNonZero("hdiutil: create failed - File exists".to_string()))
    );
    let ok = CommandOutput { success: true, stdout: Vec::new(), stderr: Vec::new() };
    assert_eq!(FromFolder::new("test").overwrite().create(ok), Ok(()));
}

#[test]
fn format_tokens() {
    let all = [
        (FolderImageFormat::UDRO, "UDRO"),
        (FolderImageFormat::UDCO, "UDCO"),
        (FolderImageFormat::UDZO, "UDZO"),
        (FolderImageFormat::UDBZ, "UDBZ"),
        (FolderImageFormat::ULFO, "ULFO"),
        (FolderImageFormat::ULMO, "ULMO"),
        (FolderImageFormat::UFBI, "UFBI"),
        (FolderImageFormat::IPOD, "IPOD"),
        (FolderImageFormat::UDSB, "UDSB"),
        (FolderImageFormat::UDSP, "UDSP"),
        (FolderImageFormat::UDRW, "UDRW"),
        (FolderImageFormat::UDTO, "UDTO"),
        (FolderImageFormat::UNIV, "UNIV"),
        (FolderImageFormat::SPARSEBUNDLE, "SPARSEBUNDLE"),
        (FolderImageFormat::SPARSE, "SPARSE"),
        (FolderImageFormat::UDIF, "UDIF"),
    ];
    for (format, token) in all {
        assert_eq!(format.format_name(), token);
    }
}
