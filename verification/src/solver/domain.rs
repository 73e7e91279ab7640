//! Process executable solver domain model.

use vstd::prelude::*;
use vstd::string::*;

verus! {

/// Process ID.
#[derive(Debug, Clone, Copy, PartialEq, Eq, Hash, Structural)]
pub struct PID(pub i32);

/// Monitored process events.
#[derive(Debug, Clone, Copy, PartialEq, Eq, Structural)]
pub enum PEvent {
    /// A process started to run a program.
    Exec(PID),
    /// A process ended.
    Exit(PID),
}

/// Process executable name.
#[derive(Debug, Clone, PartialEq, Eq, Hash)]
pub struct PExe(pub String);

/// Process command line.
#[derive(Debug, Clone, PartialEq, Eq, Hash)]
pub struct PCmdLine(pub Vec<String>);

/// Name of the file that was executed.
#[derive(Debug, Clone, PartialEq, Eq, Hash)]
pub struct ExecutedFileName(pub String);

/// The text of a decimal digit.
pub open spec fn digit_text(digit: int) -> Seq<char> {
    if digit == 0 {
        "0"@
    } else if digit == 1 {
        "1"@
    } else if digit == 2 {
        "2"@
    } else if digit == 3 {
        "3"@
    } else if digit == 4 {
        "4"@
    } else if digit == 5 {
        "5"@
    } else if digit == 6 {
        "6"@
    } else if digit == 7 {
        "7"@
    } else if digit == 8 {
        "8"@
    } else {
        "9"@
    }
}

/// The decimal digits of a natural number, without leading zeros.
pub open spec fn natural_text(number: nat) -> Seq<char>
    decreases number,
{
    if number < 10 {
        digit_text(number as int)
    } else {
        natural_text(number / 10) + digit_text((number % 10) as int)
    }
}

/// The decimal digits of a number, with a minus sign before those of a
/// negative one.
pub open spec fn decimal_text(number: i32) -> Seq<char> {
    if number < 0 {
        "-"@ + natural_text((-number) as nat)
    } else {
        natural_text(number as nat)
    }
}

/// The text of a decimal digit.
fn digit(value: u32) -> (text: &'static str)
    requires
        value < 10,
    ensures
        text@ == digit_text(value as int),
{
    if value == 0 {
        "0"
    } else if value == 1 {
        "1"
    } else if value == 2 {
        "2"
    } else if value == 3 {
        "3"
    } else if value == 4 {
        "4"
    } else if value == 5 {
        "5"
    } else if value == 6 {
        "6"
    } else if value == 7 {
        "7"
    } else if value == 8 {
        "8"
    } else {
        "9"
    }
}

/// The text of a number in decimal digits.
pub fn decimal(number: i32) -> (text: String)
    ensures
        text@ == decimal_text(number),
{
    let wide: i64 = number as i64;
    let magnitude: u32 = if number < 0 {
        (0 - wide) as u32
    } else {
        wide as u32
    };
    let mut rest: u32 = magnitude / 10;
    let mut digits: String = String::from_str(digit(magnitude % 10));
    while rest > 0
        invariant
            natural_text(magnitude as nat) == (if rest > 0 {
                natural_text(rest as nat) + digits@
            } else {
                digits@
            }),
        decreases rest,
    {
        let mut longer: String = String::from_str(digit(rest % 10));
        longer.append(digits.as_str());
        proof {
            if rest >= 10 {
                assert(natural_text(rest as nat) + digits@ =~= natural_text((rest / 10) as nat)
                    + longer@);
            }
        }
        digits = longer;
        rest = rest / 10;
    }
    if number < 0 {
        let mut text: String = String::from_str("-");
        text.append(digits.as_str());
        text
    } else {
        digits
    }
}

/// The directory of the process information file system.
pub fn proc_path() -> (path: &'static str)
    ensures
        path@ == "/proc"@,
{
    "/proc"
}

impl PID {
    /// The number of the process.
    pub fn value(&self) -> (number: i32)
        ensures
            number == self.0,
    {
        self.0
    }

    /// The directory that holds the information on the process: the
    /// directory of the process information file system, a slash, and the
    /// number of the process.
    pub fn path(&self) -> (path: String)
        ensures
            path@ == "/proc"@ + "/"@ + decimal_text(self.0),
    {
        let mut path: String = String::from_str(proc_path());
        path.append("/");
        path.append(decimal(self.0).as_str());
        path
    }

    /// The number of the process, in decimal digits.
    pub fn to_string(&self) -> (text: String)
        ensures
            text@ == decimal_text(self.0),
    {
        decimal(self.0)
    }
}

impl From<i32> for PID {
    fn from(value: i32) -> (pid: PID) {
        PID(value)
    }
}

impl vstd::std_specs::convert::FromSpecImpl<i32> for PID {
    open spec fn obeys_from_spec() -> bool {
        true
    }

    open spec fn from_spec(value: i32) -> PID {
        PID(value)
    }
}

impl PEvent {
    /// The process that the event is about.
    pub fn pid(&self) -> (pid: PID)
        ensures
            pid == match *self {
                PEvent::Exec(p) => p,
                PEvent::Exit(p) => p,
            },
    {
        match *self {
            PEvent::Exec(p) => p,
            PEvent::Exit(p) => p,
        }
    }

    /// The text of an event: its kind, and the process id in parentheses.
    pub open spec fn text(self) -> Seq<char> {
        match self {
            PEvent::Exec(pid) => "Exec("@ + decimal_text(pid.0) + ")"@,
            PEvent::Exit(pid) => "Exit("@ + decimal_text(pid.0) + ")"@,
        }
    }

    /// The event as text: its kind, and the process id in parentheses.
    pub fn to_string(&self) -> (text: String)
        ensures
            text@ == self.text(),
    {
        let mut text: String = match *self {
            PEvent::Exec(_) => String::from_str("Exec("),
            PEvent::Exit(_) => String::from_str("Exit("),
        };
        text.append(decimal(self.pid().0).as_str());
        text.append(")");
        text
    }
}

impl View for PExe {
    type V = Seq<char>;

    open spec fn view(&self) -> Seq<char> {
        self.0@
    }
}

impl PExe {
    /// The name of the executable.
    pub fn as_str(&self) -> (name: &str)
        ensures
            name@ == self@,
    {
        self.0.as_str()
    }
}

impl From<String> for PExe {
    fn from(value: String) -> (exe: PExe) {
        PExe(value)
    }
}

impl vstd::std_specs::convert::FromSpecImpl<String> for PExe {
    open spec fn obeys_from_spec() -> bool {
        true
    }

    open spec fn from_spec(value: String) -> PExe {
        PExe(value)
    }
}

/// The arguments of a command line, each as its characters.
pub open spec fn arguments_of(arguments: Seq<String>) -> Seq<Seq<char>> {
    arguments.map_values(|argument: String| argument@)
}

/// The arguments from index `from` on, each followed by a space but the
/// last.
pub open spec fn joined(arguments: Seq<Seq<char>>, from: int) -> Seq<char>
    decreases arguments.len() - from,
{
    if from < 0 || from >= arguments.len() {
        Seq::empty()
    } else if from == arguments.len() - 1 {
        arguments[from]
    } else {
        arguments[from] + " "@ + joined(arguments, from + 1)
    }
}

impl View for PCmdLine {
    type V = Seq<Seq<char>>;

    open spec fn view(&self) -> Seq<Seq<char>> {
        arguments_of(self.0@)
    }
}

impl PCmdLine {
    /// The command line as text: its arguments with a space between each
    /// two, in square brackets.
    pub open spec fn text(&self) -> Seq<char> {
        "["@ + joined(self@, 0) + "]"@
    }

    /// The arguments of the command line.
    pub fn arguments(&self) -> (arguments: &Vec<String>)
        ensures
            arguments_of(arguments@) == self@,
    {
        &self.0
    }

    /// The command line as text: its arguments with a space between each
    /// two, in square brackets.
    pub fn to_string(&self) -> (text: String)
        ensures
            text@ == self.text(),
    {
        let mut text: String = String::from_str("[");
        let mut i: usize = self.0.len();
        let mut list: String = String::new();
        while i > 0
            invariant
                i <= self.0@.len(),
                list@ == joined(self@, i as int),
            decreases i,
        {
            i = i - 1;
            let mut longer: String = self.0[i].clone();
            if i + 1 < self.0.len() {
                longer.append(" ");
                longer.append(list.as_str());
            }
            proof {
                assert(self@[i as int] == self.0@[i as int]@);
                assert(longer@ =~= joined(self@, i as int));
            }
            list = longer;
        }
        text.append(list.as_str());
        text.append("]");
        text
    }
}

impl From<Vec<String>> for PCmdLine {
    fn from(value: Vec<String>) -> (cmdline: PCmdLine) {
        PCmdLine(value)
    }
}

impl vstd::std_specs::convert::FromSpecImpl<Vec<String>> for PCmdLine {
    open spec fn obeys_from_spec() -> bool {
        true
    }

    open spec fn from_spec(value: Vec<String>) -> PCmdLine {
        PCmdLine(value)
    }
}

impl View for ExecutedFileName {
    type V = Seq<char>;

    open spec fn view(&self) -> Seq<char> {
        self.0@
    }
}

impl ExecutedFileName {
    /// The name of the file.
    pub fn to_string(&self) -> (text: String)
        ensures
            text@ == self@,
    {
        self.0.clone()
    }
}

impl Default for ExecutedFileName {
    fn default() -> (name: ExecutedFileName)
        ensures
            name@ == Seq::<char>::empty(),
    {
        ExecutedFileName(String::new())
    }
}

impl From<PExe> for ExecutedFileName {
    fn from(value: PExe) -> (name: ExecutedFileName) {
        ExecutedFileName(value.0)
    }
}

impl vstd::std_specs::convert::FromSpecImpl<PExe> for ExecutedFileName {
    open spec fn obeys_from_spec() -> bool {
        true
    }

    open spec fn from_spec(value: PExe) -> ExecutedFileName {
        ExecutedFileName(value.0)
    }
}

} // verus!
