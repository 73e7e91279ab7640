//! Process executable solver workflows.
//!
//! A program for Windows that runs under wine shows up as a wine loader
//! process. The workflow here finds the name of the program in the command
//! line of such a process.

use vstd::prelude::*;
use vstd::string::*;
use crate::solver::domain::{arguments_of, ExecutedFileName, PCmdLine, PExe};

verus! {

/// Tells whether a path is absolute: whether it starts with the root.
fn is_absolute(path: &str) -> (absolute: bool)
    ensures
        absolute == (path@.len() > 0 && path@[0] == '/'),
{
    !path.is_empty() && path.get_char(0) == '/'
}

/// The names of the wine executables.
pub open spec fn wine_names() -> Seq<Seq<char>> {
    seq![
        "wine-preloader"@,
        "wine64-preloader"@,
        "wine"@,
        "wine64"@,
        "wineloader"@,
        "wineloader64"@,
    ]
}

/// `name` is the name of a wine executable.
pub open spec fn is_wine_name(name: Seq<char>) -> bool {
    wine_names().contains(name)
}

/// The command is an absolute path to a wine executable: it starts with the
/// root, and its final component is the name of a wine executable.
pub open spec fn is_wine_command(cmd: Seq<char>) -> bool {
    &&& cmd.len() > 0
    &&& cmd[0] == '/'
    &&& path_file_name(cmd).is_some()
    &&& is_wine_name(path_file_name(cmd).unwrap())
}

/// What is looked for in a text.
#[derive(Debug, Clone, Copy, PartialEq, Eq, Structural)]
pub enum Mark {
    /// A dot.
    Dot,
    /// A slash, which separates the components of a path on Unix.
    Slash,
    /// A slash or a backslash: the latter separates the components of a
    /// path on Windows.
    Separator,
}

/// `c` is the mark that is looked for.
pub open spec fn is_mark(c: char, mark: Mark) -> bool {
    match mark {
        Mark::Dot => c == '.',
        Mark::Slash => c == '/',
        Mark::Separator => c == '\\' || c == '/',
    }
}

/// The index behind the last mark of `s`, or 0 where it has none.
pub open spec fn behind_last(s: Seq<char>, mark: Mark) -> int
    decreases s.len(),
{
    if s.len() == 0 {
        0
    } else if is_mark(s.last(), mark) {
        s.len() as int
    } else {
        behind_last(s.drop_last(), mark)
    }
}

/// The number of characters at the end of a path that belong to no
/// component: 1 for a slash, 2 for a dot behind a slash, else 0.
pub open spec fn trailing_cut(path: Seq<char>) -> int {
    if path.len() >= 1 && path.last() == '/' {
        1
    } else if path.len() >= 2 && path.last() == '.' && path[path.len() - 2] == '/' {
        2
    } else {
        0
    }
}

/// The length of a path without the slashes and the dots behind a slash
/// that it ends in.
pub open spec fn trimmed_len(path: Seq<char>) -> int
    decreases path.len(),
{
    if trailing_cut(path) == 0 {
        path.len() as int
    } else {
        trimmed_len(path.take(path.len() - trailing_cut(path)))
    }
}

/// The last component of a path without what it ends in: what follows the
/// last slash.
pub open spec fn last_component(path: Seq<char>) -> Seq<char> {
    let trimmed = path.take(trimmed_len(path));
    trimmed.subrange(behind_last(trimmed, Mark::Slash), trimmed.len() as int)
}

/// The final component of a path on Unix, where it has one. Slashes at the
/// end, and dots behind a slash there, are passed over. There is no final
/// component where the path is empty or the root, nor where what is left
/// ends in one dot or in two.
pub open spec fn path_file_name(path: Seq<char>) -> Option<Seq<char>> {
    let name = last_component(path);
    if name.len() == 0 || name == seq!['.'] || name == seq!['.', '.'] {
        None
    } else {
        Some(name)
    }
}

/// The last component of a path for Unix or for Windows: what follows its
/// last separator.
pub open spec fn app_name(cmd: Seq<char>) -> Seq<char> {
    cmd.subrange(behind_last(cmd, Mark::Separator), cmd.len() as int)
}

/// The extension of a file name: what follows its last dot, or the whole
/// name where it has none.
pub open spec fn extension(name: Seq<char>) -> Seq<char> {
    name.subrange(behind_last(name, Mark::Dot), name.len() as int)
}

/// The extension is `exe`, in upper or lower case.
pub open spec fn is_exe(extension: Seq<char>) -> bool {
    &&& extension.len() == 3
    &&& (extension[0] == 'e' || extension[0] == 'E')
    &&& (extension[1] == 'x' || extension[1] == 'X')
    &&& (extension[2] == 'e' || extension[2] == 'E')
}

/// The Windows program that a path names: its last component, where the
/// extension of that component is `exe`.
pub open spec fn wine_exe_of(cmd: Seq<char>) -> Option<Seq<char>> {
    if is_exe(extension(app_name(cmd))) {
        Some(app_name(cmd))
    } else {
        None
    }
}

/// The Windows program that a command line launches: the one that the first
/// argument from index `from` on names that is no absolute path to a wine
/// executable. There is none where every argument is such a path.
pub open spec fn launched(cmdline: Seq<Seq<char>>, from: int) -> Option<Seq<char>>
    decreases cmdline.len() - from,
{
    if from < 0 || from >= cmdline.len() {
        None
    } else if is_wine_command(cmdline[from]) {
        launched(cmdline, from + 1)
    } else {
        wine_exe_of(cmdline[from])
    }
}

/// The name of the file that a process executes: the Windows program that
/// its command line launches where the executable is a wine executable and
/// there is such a program, and the executable otherwise.
pub open spec fn executed_file(exe: Seq<char>, cmdline: Seq<Seq<char>>) -> Seq<char> {
    if is_wine_name(exe) && launched(cmdline, 0).is_some() {
        launched(cmdline, 0).unwrap()
    } else {
        exe
    }
}

/// Tells whether two texts are the same.
fn same_text(a: &str, b: &str) -> (same: bool)
    ensures
        same == (a@ == b@),
{
    a.to_owned() == b.to_owned()
}

/// The names of the wine executables.
pub fn wine_executables() -> (names: Vec<&'static str>)
    ensures
        names@.map_values(|name: &'static str| name@) == wine_names(),
{
    let mut names: Vec<&'static str> = Vec::new();
    names.push("wine-preloader");
    names.push("wine64-preloader");
    names.push("wine");
    names.push("wine64");
    names.push("wineloader");
    names.push("wineloader64");
    assert(names@.map_values(|name: &'static str| name@) =~= wine_names());
    names
}

/// Tells whether `name` is the name of a wine executable.
pub fn is_wine_executable_name(name: &str) -> (found: bool)
    ensures
        found == is_wine_name(name@),
{
    let names: Vec<&'static str> = wine_executables();
    let ghost views = names@.map_values(|name: &'static str| name@);
    let mut i: usize = 0;
    while i < names.len()
        invariant
            i <= names@.len(),
            views == names@.map_values(|name: &'static str| name@),
            views == wine_names(),
            forall|j: int| 0 <= j < i ==> views[j] != name@,
        decreases names@.len() - i,
    {
        if same_text(names[i], name) {
            assert(views[i as int] == name@);
            return true;
        }
        i = i + 1;
    }
    false
}

/// Tells whether a command is an absolute path to a wine executable.
pub fn is_wine_executable(cmd: &str) -> (wine: bool)
    ensures
        wine == is_wine_command(cmd@),
{
    match file_name(cmd) {
        Some(name) => is_absolute(cmd) && is_wine_executable_name(name.as_str()),
        None => false,
    }
}

/// The index behind the last mark of `s`, or 0 where it has none.
fn index_behind_last(s: &str, mark: Mark) -> (at: usize)
    ensures
        at == behind_last(s@, mark),
        at <= s@.len(),
{
    let len: usize = s.unicode_len();
    let mut at: usize = 0;
    let mut i: usize = 0;
    while i < len
        invariant
            len == s@.len(),
            i <= len,
            at <= i,
            at == behind_last(s@.take(i as int), mark),
        decreases len - i,
    {
        let c: char = s.get_char(i);
        let marked: bool = match mark {
            Mark::Dot => c == '.',
            Mark::Slash => c == '/',
            Mark::Separator => c == '\\' || c == '/',
        };
        proof {
            let longer = s@.take(i + 1);
            assert(longer.drop_last() =~= s@.take(i as int));
            assert(longer.last() == c);
        }
        if marked {
            at = i + 1;
        }
        i = i + 1;
    }
    assert(s@.take(len as int) =~= s@);
    at
}

/// The number of characters at the end of the first `end` characters of a
/// path that belong to no component.
fn trailing_cut_at(path: &str, end: usize) -> (cut: usize)
    requires
        end <= path@.len(),
    ensures
        cut == trailing_cut(path@.take(end as int)),
        cut <= end,
{
    if end >= 1 && path.get_char(end - 1) == '/' {
        1
    } else if end >= 2 && path.get_char(end - 1) == '.' && path.get_char(end - 2) == '/' {
        2
    } else {
        0
    }
}

/// The final component of a path on Unix, where it has one.
pub fn file_name(path: &str) -> (name: Option<String>)
    ensures
        name.is_some() == path_file_name(path@).is_some(),
        name.is_some() ==> name.unwrap()@ == path_file_name(path@).unwrap(),
{
    let mut end: usize = path.unicode_len();
    assert(path@.take(end as int) =~= path@);
    let mut cut: usize = trailing_cut_at(path, end);
    while cut > 0
        invariant
            end <= path@.len(),
            cut == trailing_cut(path@.take(end as int)),
            cut <= end,
            trimmed_len(path@) == trimmed_len(path@.take(end as int)),
        decreases end,
    {
        assert(path@.take(end as int).take(end - cut) =~= path@.take(end - cut));
        end = end - cut;
        cut = trailing_cut_at(path, end);
    }
    let trimmed: &str = path.substring_char(0, end);
    assert(trimmed@ =~= path@.take(trimmed_len(path@)));
    let start: usize = index_behind_last(trimmed, Mark::Slash);
    let name: &str = trimmed.substring_char(start, end);
    let len: usize = end - start;
    if len == 0 {
        None
    } else if len == 1 && name.get_char(0) == '.' {
        assert(name@ =~= seq!['.']);
        None
    } else if len == 2 && name.get_char(0) == '.' && name.get_char(1) == '.' {
        assert(name@ =~= seq!['.', '.']);
        None
    } else {
        assert(name@ != seq!['.']) by {
            if name@ == seq!['.'] {
                assert(name@[0] == '.');
            }
        }
        assert(name@ != seq!['.', '.']) by {
            if name@ == seq!['.', '.'] {
                assert(name@[0] == '.');
                assert(name@[1] == '.');
            }
        }
        Some(name.to_owned())
    }
}

/// Tells whether an extension is `exe`, in upper or lower case.
fn is_exe_extension(extension: &str) -> (exe: bool)
    ensures
        exe == is_exe(extension@),
{
    if extension.unicode_len() != 3 {
        return false;
    }
    let e: char = extension.get_char(0);
    let x: char = extension.get_char(1);
    let last: char = extension.get_char(2);
    (e == 'e' || e == 'E') && (x == 'x' || x == 'X') && (last == 'e' || last == 'E')
}

/// The Windows program that a path names, if it names one.
///
/// The path may be written for Unix or for Windows. Its last component is
/// the program where the extension of that component is `exe`.
pub fn get_wine_exe_from_path(cmd: &str) -> (exe: Option<String>)
    ensures
        exe.is_some() == wine_exe_of(cmd@).is_some(),
        exe.is_some() ==> exe.unwrap()@ == wine_exe_of(cmd@).unwrap(),
{
    let len: usize = cmd.unicode_len();
    let start: usize = index_behind_last(cmd, Mark::Separator);
    let name: &str = cmd.substring_char(start, len);
    let name_len: usize = name.unicode_len();
    let dot: usize = index_behind_last(name, Mark::Dot);
    let extension: &str = name.substring_char(dot, name_len);
    if is_exe_extension(extension) {
        Some(name.to_owned())
    } else {
        None
    }
}

/// The Windows program that a command line launches, if it launches one:
/// the one named by the first argument that is no absolute path to a wine
/// executable.
pub fn wine_executed_file_name(cmdline: &[String]) -> (exe: Option<String>)
    ensures
        exe.is_some() == launched(arguments_of(cmdline@), 0).is_some(),
        exe.is_some() ==> exe.unwrap()@ == launched(arguments_of(cmdline@), 0).unwrap(),
{
    let ghost arguments = arguments_of(cmdline@);
    let mut i: usize = 0;
    while i < cmdline.len()
        invariant
            i <= cmdline@.len(),
            arguments == arguments_of(cmdline@),
            launched(arguments, 0) == launched(arguments, i as int),
        decreases cmdline@.len() - i,
    {
        assert(arguments[i as int] == cmdline@[i as int]@);
        if !is_wine_executable(cmdline[i].as_str()) {
            return get_wine_exe_from_path(cmdline[i].as_str());
        }
        i = i + 1;
    }
    None
}

/// Returns the file name of the executable that started a process.
///
/// For a wine executable whose command line launches a Windows program
/// this is the program; for every other process it is the executable.
pub fn get_process_executed_file(pexe: PExe, cmdline: &PCmdLine) -> (name: ExecutedFileName)
    ensures
        name@ == executed_file(pexe@, cmdline@),
{
    if is_wine_executable_name(pexe.as_str()) {
        if let Some(name) = wine_executed_file_name(cmdline.arguments().as_slice()) {
            return ExecutedFileName(name);
        }
    }
    ExecutedFileName(pexe.0)
}

} // verus!
