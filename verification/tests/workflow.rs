use copes::io::proc::split_cmdline;
use copes::solver::domain::{decimal, proc_path};
use copes::solver::report::{event_line, exec_line};
use copes::solver::workflow::{
    file_name, get_wine_exe_from_path, is_wine_executable, is_wine_executable_name,
    wine_executables, wine_executed_file_name,
};
use copes::solver::{get_process_executed_file, ExecutedFileName, PCmdLine, PEvent, PExe, PID};

#[test]
fn is_wine_executable_returns_true_for_wine_executables_on_absolute_paths() {
    assert!(is_wine_executable("/some/path/wine"));
    assert!(is_wine_executable("/some/path/wine64"));
    assert!(is_wine_executable("/some/path/wine-preloader"));
    assert!(is_wine_executable("/some/path/wine64-preloader"));
    assert!(is_wine_executable("/some/path/wineloader"));
    assert!(is_wine_executable("/some/path/wineloader64"));
}

#[test]
fn is_wine_executable_returns_false_for_wine_executables_on_relative_paths() {
    assert!(!is_wine_executable("wineloader64"));
}

#[test]
fn is_wine_executable_returns_false_for_non_wine_executables() {
    assert!(!is_wine_executable("/some/path/executable"));
    assert!(!is_wine_executable("executable"));
}

#[test]
fn get_wine_exe_from_path_returns_none_from_non_valid_wine_app_paths() {
    let wine_cmd = "\\";
    assert_eq!(None, get_wine_exe_from_path(wine_cmd));

    let wine_cmd = "C:\\";
    assert_eq!(None, get_wine_exe_from_path(wine_cmd));

    let wine_cmd = "C:\\no_extension";
    assert_eq!(None, get_wine_exe_from_path(wine_cmd));

    let wine_cmd = "C:\\no_exe_extension.txt";
    assert_eq!(None, get_wine_exe_from_path(wine_cmd));
}

#[test]
fn get_wine_exe_from_path_returns_exe_from_valid_wine_app_paths() {
    // back slash
    let wine_cmd = "C:\\Program Files (x86)\\App\\App.exe";
    assert_eq!(Some("App.exe".into()), get_wine_exe_from_path(wine_cmd));

    // slash
    let wine_cmd = "C:/Program Files (x86)/App/App.exe";
    assert_eq!(Some("App.exe".into()), get_wine_exe_from_path(wine_cmd));

    // slash + back slash
    let wine_cmd = "C:\\Program Files (x86)\\App/Binaries/App.exe";
    assert_eq!(Some("App.exe".into()), get_wine_exe_from_path(wine_cmd));

    // unix path
    let wine_cmd = "/Program Files (x86)/App/Binaries/App.exe";
    assert_eq!(Some("App.exe".into()), get_wine_exe_from_path(wine_cmd));
}

#[test]
fn wine_executed_file_name_returns_none_from_non_wine_launch_cmdline() {
    let cmdline = vec![String::from("/usr/bin/cat")];
    assert_eq!(None, wine_executed_file_name(&cmdline));
}

#[test]
fn wine_executed_file_name_returns_executed_windows_exe_from_wine_launch_cmdline() {
    // traditional launch
    let cmdline = vec![
        String::from("/usr/bin/wine-preloader"),
        String::from("/usr/bin/wine"),
        String::from("C:\\Program Files (x86)\\App\\App.exe"),
    ];
    assert_eq!(Some("App.exe".into()), wine_executed_file_name(&cmdline));

    // without preloader
    let cmdline = vec![
        String::from("/usr/bin/wine"),
        String::from("C:\\Program Files (x86)\\App\\App.exe"),
    ];
    assert_eq!(Some("App.exe".into()), wine_executed_file_name(&cmdline));

    // wine64 launch
    let cmdline = vec![
        String::from("/usr/bin/wine64-preloader"),
        String::from("/usr/bin/wine64"),
        String::from("C:\\Program Files (x86)\\App\\App.exe"),
    ];
    assert_eq!(Some("App.exe".into()), wine_executed_file_name(&cmdline));

    // unix path launch app argument
    let cmdline = vec![
        String::from("/usr/bin/wine-preloader"),
        String::from("/usr/bin/wine"),
        String::from("/Program Files (x86)/App/Binaries/App.exe"),
    ];
    assert_eq!(Some("App.exe".into()), wine_executed_file_name(&cmdline));
}

#[test]
fn get_process_executed_file_returns_the_process_executable_name_for_regular_processes() {
    let exe = PExe::from(String::from("cat"));
    let cmdline = PCmdLine::from(vec![
        String::from("/usr/bin/cat"),
        String::from("test.log"),
    ]);
    assert_eq!(
        ExecutedFileName::from(exe.clone()),
        get_process_executed_file(exe, &cmdline)
    );
}

#[test]
fn get_process_executed_file_returns_executed_windows_exe_for_wine_processes_with_preloader() {
    let exe = PExe::from(String::from("wine-preloader"));
    let cmdline = PCmdLine::from(vec![
        String::from("/usr/bin/wine-preloader"),
        String::from("/usr/bin/wine"),
        String::from("C:\\Program Files (x86)\\App\\App.exe"),
    ]);
    assert_eq!(
        ExecutedFileName::from(PExe::from(String::from("App.exe"))),
        get_process_executed_file(exe, &cmdline)
    );
}

#[test]
fn get_process_executed_file_returns_executed_windows_exe_for_wine_processes_without_preloader()
{
    let exe = PExe::from(String::from("wine"));
    let cmdline = PCmdLine::from(vec![
        String::from("/usr/lib/wine/wine64"),
        String::from("C:\\Program Files (x86)\\App\\App.exe"),
    ]);
    assert_eq!(
        ExecutedFileName::from(PExe::from(String::from("App.exe"))),
        get_process_executed_file(exe, &cmdline)
    );
}

#[test]
fn wine_executables_are_six() {
    assert_eq!(
        vec![
            "wine-preloader",
            "wine64-preloader",
            "wine",
            "wine64",
            "wineloader",
            "wineloader64"
        ],
        wine_executables()
    );
    for name in wine_executables() {
        assert!(is_wine_executable_name(name));
    }
    assert!(!is_wine_executable_name("wine32"));
    assert!(!is_wine_executable_name(""));
    assert!(!is_wine_executable_name("/usr/bin/wine"));
}

#[test]
fn wine_paths_need_an_absolute_path_and_a_wine_name() {
    assert!(is_wine_executable("/wine"));
    assert!(!is_wine_executable("bin/wine"));
    assert!(!is_wine_executable("/usr/bin/cat"));
    assert!(!is_wine_executable("/usr/bin/wine/wine32"));
    // the final component decides, not the whole path
    assert!(is_wine_executable("/usr/bin/wine/"));
    assert!(!is_wine_executable("/usr/bin/wine/.."));
    assert!(!is_wine_executable("/"));
    assert!(!is_wine_executable(""));
}

#[test]
fn exe_extension_is_found_in_any_case() {
    assert_eq!(Some("APP.EXE".into()), get_wine_exe_from_path("C:\\APP.EXE"));
    assert_eq!(Some("a.b.Exe".into()), get_wine_exe_from_path("a.b.Exe"));
    assert_eq!(Some(".exe".into()), get_wine_exe_from_path("dir/.exe"));
    assert_eq!(Some("exe".into()), get_wine_exe_from_path("exe"));
    assert_eq!(None, get_wine_exe_from_path("App.exe.bak"));
    assert_eq!(None, get_wine_exe_from_path("App.exe/"));
    assert_eq!(None, get_wine_exe_from_path("dir.exe/App"));
    assert_eq!(None, get_wine_exe_from_path("App.exes"));
    assert_eq!(None, get_wine_exe_from_path(""));
    assert_eq!(Some("é.exe".into()), get_wine_exe_from_path("ü/é.exe"));
}

#[test]
fn wine_process_without_a_windows_program_keeps_its_executable() {
    let exe = PExe::from(String::from("wine64"));
    let cmdline = PCmdLine::from(vec![
        String::from("/usr/bin/wine64"),
        String::from("--version"),
        String::from("C:\\App.exe"),
    ]);
    assert_eq!(
        ExecutedFileName::from(PExe::from(String::from("wine64"))),
        get_process_executed_file(exe, &cmdline)
    );
    let only_wine = PCmdLine::from(vec![String::from("/usr/bin/wine")]);
    assert_eq!(None, wine_executed_file_name(only_wine.arguments()));
    assert_eq!(None, wine_executed_file_name(&[]));
}

#[test]
fn regular_process_with_an_exe_argument_keeps_its_executable() {
    let exe = PExe::from(String::from("mono"));
    let cmdline = PCmdLine::from(vec![String::from("C:\\App.exe")]);
    assert_eq!(
        ExecutedFileName::from(PExe::from(String::from("mono"))),
        get_process_executed_file(exe, &cmdline)
    );
}

#[test]
fn domain_values_as_text() {
    assert_eq!("/proc", proc_path());
    assert_eq!("4242", PID::from(4242).to_string());
    assert_eq!("-7", PID::from(-7).to_string());
    assert_eq!("0", PID::from(0).to_string());
    assert_eq!("10", PID::from(10).to_string());
    assert_eq!("1000", PID::from(1000).to_string());
    assert_eq!("2147483647", PID::from(i32::MAX).to_string());
    assert_eq!("-2147483648", PID::from(i32::MIN).to_string());
    for number in [-100_001, -99, -10, -1, 0, 1, 9, 11, 99, 101, 65_535, 4_194_304] {
        assert_eq!(format!("{}", number), decimal(number));
    }
    assert_eq!("/proc/4242", PID::from(4242).path());
    assert_eq!("Exec(4242)", PEvent::Exec(PID::from(4242)).to_string());
    assert_eq!("Exit(17)", PEvent::Exit(PID::from(17)).to_string());
    let cmdline = PCmdLine::from(vec![
        String::from("/usr/bin/cat"),
        String::from("test.log"),
        String::from("-n"),
    ]);
    assert_eq!("[/usr/bin/cat test.log -n]", cmdline.to_string());
    assert_eq!("[one]", PCmdLine::from(vec![String::from("one")]).to_string());
    assert_eq!("[]", PCmdLine::from(Vec::new()).to_string());
    assert_eq!("cat", PExe::from(String::from("cat")).as_str());
    assert_eq!(
        "App.exe",
        ExecutedFileName::from(PExe::from(String::from("App.exe"))).to_string()
    );
    assert_eq!("", ExecutedFileName::default().to_string());
}

#[test]
fn report_lines() {
    let name = ExecutedFileName::from(PExe::from(String::from("App.exe")));
    let cmdline = PCmdLine::from(vec![
        String::from("/usr/bin/wine"),
        String::from("C:\\App.exe"),
    ]);
    assert_eq!("App.exe", exec_line(&name, &cmdline, false));
    assert_eq!(
        "App.exe [/usr/bin/wine C:\\App.exe]",
        exec_line(&name, &cmdline, true)
    );
    assert_eq!(
        "Exec(31) App.exe",
        event_line(PEvent::Exec(PID::from(31)), "App.exe")
    );
    assert_eq!("Exit(31) ", event_line(PEvent::Exit(PID::from(31)), ""));
}

#[test]
fn command_line_file_is_split_at_zero_bytes() {
    let expected: Vec<Vec<u8>> = vec![b"/usr/bin/cat".to_vec(), b"test.log".to_vec()];
    assert_eq!(expected, split_cmdline(b"/usr/bin/cat\0test.log\0"));
    assert_eq!(expected, split_cmdline(b"/usr/bin/cat\0test.log"));
    assert_eq!(expected, split_cmdline(b"\0\0/usr/bin/cat\0\0\0test.log\0\0"));
    let none: Vec<Vec<u8>> = Vec::new();
    assert_eq!(none, split_cmdline(b""));
    assert_eq!(none, split_cmdline(b"\0"));
    assert_eq!(none, split_cmdline(b"\0\0\0"));
    let one: Vec<Vec<u8>> = vec![b"a".to_vec()];
    assert_eq!(one, split_cmdline(b"a"));
    assert_eq!(one, split_cmdline(b"\0a"));
    let raw: Vec<Vec<u8>> = vec![vec![0xff, 0x01], vec![0x80]];
    assert_eq!(raw, split_cmdline(&[0xff, 0x01, 0x00, 0x80]));
}

#[test]
fn file_name_is_the_final_component() {
    assert_eq!(Some(String::from("wine")), file_name("/usr/bin/wine"));
    assert_eq!(Some(String::from("bin")), file_name("/usr/bin/"));
    assert_eq!(Some(String::from("foo.txt")), file_name("tmp/foo.txt"));
    assert_eq!(Some(String::from("foo.txt")), file_name("foo.txt/."));
    assert_eq!(Some(String::from("foo.txt")), file_name("foo.txt/.//"));
    assert_eq!(None, file_name("foo.txt/.."));
    assert_eq!(None, file_name("/"));
    assert_eq!(None, file_name(""));
    assert_eq!(None, file_name("."));
    assert_eq!(None, file_name(".."));
}

#[test]
fn file_name_agrees_with_the_system() {
    let paths = [
        "", "/", "//", "///", ".", "..", "...", "./", "../", "./.", "/.", "/..", "/./", "/./.",
        "a", "/a", "a/", "a//", "a/.", "a/./", "a/./.", "a/..", "a/../", "a/../.", "a/b",
        "/usr/bin/wine", "/usr/bin/wine/", "/usr/bin/wine/.", "/usr/bin/wine/..", "..a", ".a",
        "a.", "a..", "a/.b", "a/..b", "./a", "../a", "a/.//", "a/b/../c", "a\\b", "C:\\x\\y.exe",
        "/ü/é", "a/ /", " ", "/./a/./", "a/. ", "a/.../", ".//.", ".//", "/a/..", "./..", "../.",
        "../..", "/.a/.", "//a//b//", "a/./b/.", "./././", ".\\", "a/.\\", "/wine64-preloader",
    ];
    for path in paths {
        let expected = std::path::Path::new(path)
            .file_name()
            .map(|name| name.to_string_lossy().into_owned());
        assert_eq!(expected, file_name(path), "{:?}", path);
    }
}
