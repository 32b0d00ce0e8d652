//! Audio device selection and the device report.
use vstd::prelude::*;
use vstd::string::*;

use crate::completion::contains_str;
use crate::protocol::{debug_strings, format_debug_strings, strings_view};
use crate::text::{contains, str_eq};

verus! {

/// Capture or playback.
#[derive(Clone, Copy, PartialEq, Eq, Structural, Debug)]
pub enum DeviceDirection {
    Input,
    Output,
}

/// Which device a name selects among those available.
#[derive(Clone, Copy, PartialEq, Eq, Structural, Debug)]
pub enum DeviceChoice {
    /// The host's default device.
    Default,
    /// The device at this position of the list.
    Found(usize),
    /// No device has that name.
    NotFound,
}

/// The first position of `wanted` in `names`, searching from `i`.
pub open spec fn first_named(names: Seq<Seq<char>>, wanted: Seq<char>, i: int) -> Option<int>
    decreases names.len() - i,
{
    if i < 0 || i >= names.len() {
        None
    } else if names[i] == wanted {
        Some(i)
    } else {
        first_named(names, wanted, i + 1)
    }
}

/// The device a name selects: "default" means the host's default device,
/// any other name the first device of exactly that name.
pub open spec fn choose_device_spec(names: Seq<Seq<char>>, wanted: Seq<char>) -> DeviceChoice {
    if wanted == "default"@ {
        DeviceChoice::Default
    } else {
        match first_named(names, wanted, 0) {
            Some(i) => DeviceChoice::Found(i as usize),
            None => DeviceChoice::NotFound,
        }
    }
}

/// Whether choosing the device `wanted` needs the list of available devices:
/// "default" names the host's default device and needs none.
pub fn needs_device_list(wanted: &str) -> (b: bool)
    ensures
        b == (wanted@ != "default"@),
        !b ==> forall|names: Seq<Seq<char>>| #[trigger] choose_device_spec(names, wanted@) == DeviceChoice::Default,
{
    !str_eq(wanted, "default")
}

/// Selects a device by name among the names of the available devices.
pub fn choose_device(names: &Vec<String>, wanted: &str) -> (c: DeviceChoice)
    ensures
        c == choose_device_spec(strings_view(names@), wanted@),
        wanted@ == "default"@ ==> c == DeviceChoice::Default,
        wanted@ != "default"@ ==> c != DeviceChoice::Default,
        c matches DeviceChoice::Found(j) ==> j < names@.len() && names@[j as int]@ == wanted@ && forall|k: int|
            0 <= k < j ==> (#[trigger] names@[k])@ != wanted@,
        c is NotFound <==> (wanted@ != "default"@ && forall|k: int| 0 <= k < names@.len() ==> (#[trigger] names@[k])@
            != wanted@),
{
    if str_eq(wanted, "default") {
        return DeviceChoice::Default;
    }
    let mut i: usize = 0;
    while i < names.len()
        invariant
            i <= names.len(),
            wanted@ != "default"@,
            first_named(strings_view(names@), wanted@, 0) == first_named(strings_view(names@), wanted@, i as int),
            forall|k: int| 0 <= k < i ==> (#[trigger] names@[k])@ != wanted@,
        decreases names.len() - i,
    {
        if str_eq(names[i].as_str(), wanted) {
            return DeviceChoice::Found(i);
        }
        i += 1;
    }
    DeviceChoice::NotFound
}

proof fn lemma_first_named(names: Seq<Seq<char>>, wanted: Seq<char>, s: int)
    requires
        0 <= s,
    ensures
        first_named(names, wanted, s) matches Some(j) ==> s <= j < names.len() && names[j] == wanted && forall|k: int|
            s <= k < j ==> #[trigger] names[k] != wanted,
        first_named(names, wanted, s) is None ==> forall|k: int| s <= k < names.len() ==> #[trigger] names[k] != wanted,
    decreases names.len() - s,
{
    if s < names.len() && names[s] != wanted {
        lemma_first_named(names, wanted, s + 1);
    }
}

/// A device name selects the host's default when it is "default", and
/// otherwise the first listed device of exactly that name: any device of that
/// name is at or after the one chosen, and only when no device has the name
/// is none found.
pub proof fn law_choose_device(names: Seq<Seq<char>>, wanted: Seq<char>, i: int)
    requires
        names.len() <= usize::MAX,
    ensures
        wanted == "default"@ ==> choose_device_spec(names, wanted) == DeviceChoice::Default,
        wanted != "default"@ && 0 <= i < names.len() && names[i] == wanted ==> (choose_device_spec(names, wanted) matches DeviceChoice::Found(j)
            && j <= i && names[j as int] == wanted),
        wanted != "default"@ && 0 < names.len() && names[0] == wanted ==> choose_device_spec(names, wanted)
            == DeviceChoice::Found(0),
        wanted != "default"@ ==> ((choose_device_spec(names, wanted) == DeviceChoice::NotFound) == (forall|k: int|
            0 <= k < names.len() ==> #[trigger] names[k] != wanted)),
        choose_device_spec(names, wanted) matches DeviceChoice::Found(j) ==> j < names.len() && names[j as int]
            == wanted && forall|k: int| 0 <= k < j ==> #[trigger] names[k] != wanted,
{
    lemma_first_named(names, wanted, 0);
}

/// The error when no device has the wanted name.
pub open spec fn not_found_text(dir: DeviceDirection, wanted: Seq<char>, names: Seq<Seq<char>>) -> Seq<char> {
    match dir {
        DeviceDirection::Input => "Input device '"@ + wanted + "' not found. Available input devices: "@
            + debug_strings(names),
        DeviceDirection::Output => "Output device '"@ + wanted + "' not found. Available output devices: "@
            + debug_strings(names),
    }
}

/// Builds the error for a device name that matches no device.
pub fn device_not_found_message(dir: DeviceDirection, wanted: &str, names: &Vec<String>) -> (m: String)
    ensures
        m@ == not_found_text(dir, wanted@, strings_view(names@)),
{
    let mut m = match dir {
        DeviceDirection::Input => "Input device '".to_string(),
        DeviceDirection::Output => "Output device '".to_string(),
    };
    m.append(wanted);
    match dir {
        DeviceDirection::Input => m.append("' not found. Available input devices: "),
        DeviceDirection::Output => m.append("' not found. Available output devices: "),
    }
    let listed = format_debug_strings(names);
    m.append(listed.as_str());
    m
}

/// Whether an output device's friendly name matches the name asked for
/// loopback capture: either contains the other.
pub fn loopback_name_matches(friendly: &str, wanted: &str) -> (b: bool)
    ensures
        b == (contains(friendly@, wanted@) || contains(wanted@, friendly@)),
{
    contains_str(friendly, wanted) || contains_str(wanted, friendly)
}

/// Lines joined with newlines.
pub open spec fn join_lines(lines: Seq<Seq<char>>) -> Seq<char>
    decreases lines.len(),
{
    if lines.len() == 0 {
        Seq::empty()
    } else if lines.len() == 1 {
        lines[0]
    } else {
        join_lines(lines.drop_last()) + "\n"@ + lines.last()
    }
}

/// The report lines for the default device of one direction.
pub open spec fn default_line(dir: DeviceDirection, name: Option<Seq<char>>) -> Seq<char> {
    match (dir, name) {
        (DeviceDirection::Input, Some(n)) => "Default INPUT device: "@ + n,
        (DeviceDirection::Input, None) => "No default input device"@,
        (DeviceDirection::Output, Some(n)) => "Default OUTPUT device: "@ + n,
        (DeviceDirection::Output, None) => "No default output device"@,
    }
}

/// Each name quoted and indented, as a report line.
pub open spec fn name_lines(names: Seq<Seq<char>>) -> Seq<Seq<char>> {
    names.map_values(|n: Seq<char>| "  '"@ + n + "'"@)
}

/// The device report: the defaults, then the available inputs, then the
/// available outputs, one per line.
pub open spec fn device_report_text(
    default_in: Option<Seq<char>>,
    default_out: Option<Seq<char>>,
    inputs: Seq<Seq<char>>,
    outputs: Seq<Seq<char>>,
) -> Seq<char> {
    join_lines(
        seq![default_line(DeviceDirection::Input, default_in), default_line(DeviceDirection::Output, default_out)]
            + seq!["Available INPUT devices:"@] + name_lines(inputs) + seq!["Available OUTPUT devices:"@]
            + name_lines(outputs),
    )
}

fn push_line(report: &mut String, lines: Ghost<Seq<Seq<char>>>, line: &str) -> (r: Ghost<Seq<Seq<char>>>)
    requires
        old(report)@ == join_lines(lines@),
        lines@.len() > 0,
    ensures
        final(report)@ == join_lines(r@),
        r@ == lines@.push(line@),
{
    report.append("\n");
    report.append(line);
    proof {
        let n = lines@.push(line@);
        assert(n.drop_last() =~= lines@);
    }
    Ghost(lines@.push(line@))
}

fn quoted(name: &str) -> (q: String)
    ensures
        q@ == "  '"@ + name@ + "'"@,
{
    let mut q = "  '".to_string();
    q.append(name);
    q.append("'");
    q
}

fn default_line_exec(dir: DeviceDirection, name: &Option<String>) -> (l: String)
    ensures
        l@ == default_line(dir, match name {
            Some(n) => Some(n@),
            None => None,
        }),
{
    match (dir, name) {
        (DeviceDirection::Input, Some(n)) => {
            let mut l = "Default INPUT device: ".to_string();
            l.append(n.as_str());
            l
        },
        (DeviceDirection::Input, None) => "No default input device".to_string(),
        (DeviceDirection::Output, Some(n)) => {
            let mut l = "Default OUTPUT device: ".to_string();
            l.append(n.as_str());
            l
        },
        (DeviceDirection::Output, None) => "No default output device".to_string(),
    }
}

/// Builds the device report.
pub fn device_report(
    default_in: &Option<String>,
    default_out: &Option<String>,
    inputs: &Vec<String>,
    outputs: &Vec<String>,
) -> (r: String)
    ensures
        r@ == device_report_text(
            match default_in {
                Some(n) => Some(n@),
                None => None,
            },
            match default_out {
                Some(n) => Some(n@),
                None => None,
            },
            strings_view(inputs@),
            strings_view(outputs@),
        ),
{
    let first = default_line_exec(DeviceDirection::Input, default_in);
    let mut report = first.clone();
    let ghost lines0: Seq<Seq<char>> = seq![first@];
    assert(join_lines(lines0) == first@);
    let second = default_line_exec(DeviceDirection::Output, default_out);
    let Ghost(lines) = push_line(&mut report, Ghost(lines0), second.as_str());
    let Ghost(mut lines) = push_line(&mut report, Ghost(lines), "Available INPUT devices:");
    let ghost head = lines;
    let mut i: usize = 0;
    while i < inputs.len()
        invariant
            i <= inputs.len(),
            head.len() > 0,
            lines == head + name_lines(strings_view(inputs@).take(i as int)),
            report@ == join_lines(lines),
        decreases inputs.len() - i,
    {
        let q = quoted(inputs[i].as_str());
        let Ghost(next) = push_line(&mut report, Ghost(lines), q.as_str());
        proof {
            assert(name_lines(strings_view(inputs@).take(i + 1)) =~= name_lines(strings_view(inputs@).take(i as int)).push(q@));
            assert(next =~= head + name_lines(strings_view(inputs@).take(i + 1)));
            lines = next;
        }
        i += 1;
    }
    let Ghost(mut lines) = push_line(&mut report, Ghost(lines), "Available OUTPUT devices:");
    let ghost head2 = lines;
    let mut j: usize = 0;
    while j < outputs.len()
        invariant
            j <= outputs.len(),
            head2.len() > 0,
            lines == head2 + name_lines(strings_view(outputs@).take(j as int)),
            report@ == join_lines(lines),
        decreases outputs.len() - j,
    {
        let q = quoted(outputs[j].as_str());
        let Ghost(next) = push_line(&mut report, Ghost(lines), q.as_str());
        proof {
            assert(name_lines(strings_view(outputs@).take(j + 1)) =~= name_lines(strings_view(outputs@).take(j as int)).push(q@));
            assert(next =~= head2 + name_lines(strings_view(outputs@).take(j + 1)));
            lines = next;
        }
        j += 1;
    }
    proof {
        assert(strings_view(inputs@).take(inputs@.len() as int) == strings_view(inputs@));
        assert(strings_view(outputs@).take(outputs@.len() as int) == strings_view(outputs@));
        let din = match default_in {
            Some(n) => Some(n@),
            None => None,
        };
        let dout = match default_out {
            Some(n) => Some(n@),
            None => None,
        };
        assert(lines =~= seq![default_line(DeviceDirection::Input, din), default_line(DeviceDirection::Output, dout)]
            + seq!["Available INPUT devices:"@] + name_lines(strings_view(inputs@)) + seq!["Available OUTPUT devices:"@]
            + name_lines(strings_view(outputs@)));
    }
    report
}

} // verus!
