//! Checks on commands and paths that call for a confirmation of their own.

use vstd::prelude::*;
use crate::text::{chars_of, contains_chars, contains_seq, lowercase, lowercase_of};

verus! {

/// The views of a sequence of string slices.
pub open spec fn str_views(v: Seq<&'static str>) -> Seq<Seq<char>> {
    Seq::new(v.len(), |i: int| v[i]@)
}

/// The command fragments that mark a command as dangerous, in the order in
/// which they are tried.
pub open spec fn dangerous_patterns_spec() -> Seq<Seq<char>> {
    seq![
        "rm -rf"@,
        "rm -r"@,
        "rmdir"@,
        "sudo rm"@,
        "sudo dd"@,
        "mkfs"@,
        "fdisk"@,
        "> /dev/"@,
        "chmod 777"@,
        "chmod -R 777"@,
        ":(){:|:&};:"@,
        "dd if="@,
        "mv /* "@,
        "mv / "@,
        "wget | sh"@,
        "curl | sh"@,
        "wget | bash"@,
        "curl | bash"@,
        "sudo su"@,
        "sudo -i"@,
        "shutdown"@,
        "reboot"@,
        "init 0"@,
        "init 6"@,
        "kill -9 -1"@,
        "pkill -9"@,
        "DROP TABLE"@,
        "DROP DATABASE"@,
        "TRUNCATE TABLE"@,
        "DELETE FROM"@,
        "format c:"@,
        "del /f /s /q"@,
    ]
}

/// The path fragments that mark a path as sensitive, in the order in which
/// they are tried.
pub open spec fn dangerous_paths_spec() -> Seq<Seq<char>> {
    seq![
        "/etc/passwd"@,
        "/etc/shadow"@,
        "/etc/sudoers"@,
        "~/.ssh/"@,
        "/.ssh/"@,
        "/root/"@,
        "/boot/"@,
        "/dev/"@,
        "/proc/"@,
        "/sys/"@,
    ]
}

/// The command fragments that mark a command as dangerous.
pub fn dangerous_patterns() -> (r: Vec<&'static str>)
    ensures
        str_views(r@) == dangerous_patterns_spec(),
{
    let r: Vec<&'static str> = vec![
        "rm -rf",
        "rm -r",
        "rmdir",
        "sudo rm",
        "sudo dd",
        "mkfs",
        "fdisk",
        "> /dev/",
        "chmod 777",
        "chmod -R 777",
        ":(){:|:&};:",
        "dd if=",
        "mv /* ",
        "mv / ",
        "wget | sh",
        "curl | sh",
        "wget | bash",
        "curl | bash",
        "sudo su",
        "sudo -i",
        "shutdown",
        "reboot",
        "init 0",
        "init 6",
        "kill -9 -1",
        "pkill -9",
        "DROP TABLE",
        "DROP DATABASE",
        "TRUNCATE TABLE",
        "DELETE FROM",
        "format c:",
        "del /f /s /q",
    ];
    assert(str_views(r@) =~= dangerous_patterns_spec());
    r
}

/// The path fragments that mark a path as sensitive.
pub fn dangerous_paths() -> (r: Vec<&'static str>)
    ensures
        str_views(r@) == dangerous_paths_spec(),
{
    let r: Vec<&'static str> = vec![
        "/etc/passwd",
        "/etc/shadow",
        "/etc/sudoers",
        "~/.ssh/",
        "/.ssh/",
        "/root/",
        "/boot/",
        "/dev/",
        "/proc/",
        "/sys/",
    ];
    assert(str_views(r@) =~= dangerous_paths_spec());
    r
}

/// Whether the pattern at index `i` marks the command `command`: the
/// command in lower case holds the pattern in lower case.
pub open spec fn command_hits(command: Seq<char>, i: int) -> bool {
    contains_seq(lowercase_of(command), lowercase_of(dangerous_patterns_spec()[i]))
}

/// Whether the fragment at index `i` marks the path `path`.
pub open spec fn path_hits(path: Seq<char>, i: int) -> bool {
    contains_seq(path, dangerous_paths_spec()[i])
}

/// The first dangerous pattern at or after index `from` that marks the
/// command.
pub open spec fn first_command_hit(command: Seq<char>, from: int) -> Option<Seq<char>>
    decreases dangerous_patterns_spec().len() - from,
{
    if from < 0 || from >= dangerous_patterns_spec().len() {
        None
    } else if command_hits(command, from) {
        Some(dangerous_patterns_spec()[from])
    } else {
        first_command_hit(command, from + 1)
    }
}

/// The first sensitive fragment at or after index `from` that marks the
/// path.
pub open spec fn first_path_hit(path: Seq<char>, from: int) -> Option<Seq<char>>
    decreases dangerous_paths_spec().len() - from,
{
    if from < 0 || from >= dangerous_paths_spec().len() {
        None
    } else if path_hits(path, from) {
        Some(dangerous_paths_spec()[from])
    } else {
        first_path_hit(path, from + 1)
    }
}

/// The dangerous pattern that marks a command, if any: the first in the
/// list that the command holds, letter case aside.
pub open spec fn dangerous_command_spec(command: Seq<char>) -> Option<Seq<char>> {
    first_command_hit(command, 0)
}

/// The sensitive fragment that marks a path, if any: the first in the list
/// that the path holds.
pub open spec fn dangerous_path_spec(path: Seq<char>) -> Option<Seq<char>> {
    first_path_hit(path, 0)
}

/// The view of a string slice that may be absent.
pub open spec fn opt_str_view(o: Option<&'static str>) -> Option<Seq<char>> {
    match o {
        Some(s) => Some(s@),
        None => None,
    }
}

/// Whether `hay` holds the fragment at index `i` of `needles`.
pub open spec fn holds_at(hay: Seq<char>, needles: Seq<Seq<char>>, i: int) -> bool {
    contains_seq(hay, needles[i])
}

/// The index of the first fragment at or after index `from` that `hay`
/// holds.
pub open spec fn first_held(hay: Seq<char>, needles: Seq<Seq<char>>, from: int) -> Option<int>
    decreases needles.len() - from,
{
    if from < 0 || from >= needles.len() {
        None
    } else if holds_at(hay, needles, from) {
        Some(from)
    } else {
        first_held(hay, needles, from + 1)
    }
}

/// The index of the first of the fragments that the text holds.
pub fn first_containing(hay: &str, needles: &Vec<String>) -> (r: Option<usize>)
    ensures
        crate::text::opt_index(r) == first_held(hay@, crate::text::views(needles@), 0),
        r matches Some(i) ==> i < needles@.len() && contains_seq(hay@, needles@[i as int]@),
{
    let h = chars_of(hay);
    let ghost ns = crate::text::views(needles@);
    let mut i: usize = 0;
    while i < needles.len()
        invariant
            i <= needles@.len(),
            ns == crate::text::views(needles@),
            h@ == hay@,
            first_held(hay@, ns, 0) == first_held(hay@, ns, i as int),
        decreases needles@.len() - i,
    {
        let needle = chars_of(needles[i].as_str());
        assert(needle@ == ns[i as int]);
        if contains_chars(&h, &needle) {
            return Some(i);
        }
        i += 1;
    }
    None
}

/// The patterns in lower case.
pub open spec fn lowered_patterns() -> Seq<Seq<char>> {
    Seq::new(dangerous_patterns_spec().len(), |i: int| lowercase_of(dangerous_patterns_spec()[i]))
}

/// The first of the dangerous patterns holds: the fragments hold as the
/// patterns mark.
proof fn lemma_first_command_hit(command: Seq<char>, from: int)
    requires
        0 <= from,
    ensures
        first_command_hit(command, from) == match first_held(
            lowercase_of(command),
            lowered_patterns(),
            from,
        ) {
            Some(i) => Some(dangerous_patterns_spec()[i]),
            None => None,
        },
    decreases dangerous_patterns_spec().len() - from,
{
    if from < dangerous_patterns_spec().len() {
        assert(lowered_patterns()[from] == lowercase_of(dangerous_patterns_spec()[from]));
        if !command_hits(command, from) {
            lemma_first_command_hit(command, from + 1);
        }
    }
}

proof fn lemma_first_path_hit(path: Seq<char>, from: int)
    requires
        0 <= from,
    ensures
        first_path_hit(path, from) == match first_held(path, dangerous_paths_spec(), from) {
            Some(i) => Some(dangerous_paths_spec()[i]),
            None => None,
        },
    decreases dangerous_paths_spec().len() - from,
{
    if from < dangerous_paths_spec().len() {
        if !path_hits(path, from) {
            lemma_first_path_hit(path, from + 1);
        }
    }
}

/// The first dangerous pattern that the command holds, letter case aside.
pub fn is_dangerous_command(command: &str) -> (r: Option<&'static str>)
    ensures
        opt_str_view(r) == dangerous_command_spec(command@),
{
    let lowered = lowercase(command);
    let patterns = dangerous_patterns();
    let mut needles: Vec<String> = Vec::new();
    let mut i: usize = 0;
    while i < patterns.len()
        invariant
            i <= patterns@.len(),
            str_views(patterns@) == dangerous_patterns_spec(),
            needles@.len() == i,
            forall|j: int|
                0 <= j < i ==> (#[trigger] needles@[j])@ == lowercase_of(
                    dangerous_patterns_spec()[j],
                ),
        decreases patterns@.len() - i,
    {
        assert(patterns@[i as int]@ == str_views(patterns@)[i as int]);
        needles.push(lowercase(patterns[i]));
        i += 1;
    }
    assert(crate::text::views(needles@) =~= lowered_patterns());
    proof {
        lemma_first_command_hit(command@, 0);
    }
    match first_containing(lowered.as_str(), &needles) {
        Some(k) => {
            assert(patterns@[k as int]@ == str_views(patterns@)[k as int]);
            Some(patterns[k])
        },
        None => None,
    }
}

/// The first sensitive fragment that the path holds.
pub fn is_dangerous_path(path: &str) -> (r: Option<&'static str>)
    ensures
        opt_str_view(r) == dangerous_path_spec(path@),
{
    let patterns = dangerous_paths();
    let mut needles: Vec<String> = Vec::new();
    let mut i: usize = 0;
    while i < patterns.len()
        invariant
            i <= patterns@.len(),
            str_views(patterns@) == dangerous_paths_spec(),
            needles@.len() == i,
            forall|j: int| 0 <= j < i ==> (#[trigger] needles@[j])@ == dangerous_paths_spec()[j],
        decreases patterns@.len() - i,
    {
        assert(patterns@[i as int]@ == str_views(patterns@)[i as int]);
        needles.push(patterns[i].to_owned());
        i += 1;
    }
    assert(crate::text::views(needles@) =~= dangerous_paths_spec());
    proof {
        lemma_first_path_hit(path@, 0);
    }
    match first_containing(path, &needles) {
        Some(k) => {
            assert(patterns@[k as int]@ == str_views(patterns@)[k as int]);
            Some(patterns[k])
        },
        None => None,
    }
}

} // verus!
