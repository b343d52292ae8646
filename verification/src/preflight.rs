//! The check that the companion files of the native module are in place.
//!
//! The module and the native libraries that it depends on must lie next to
//! the executable. The caller probes the directory and hands over which of
//! the required files it found. The check reports every file that is absent
//! in one message, so that all of them can be put right at once.

use vstd::prelude::*;
use vstd::string::*;

verus! {

/// Number of files that must lie next to the executable.
pub const REQUIRED_DLL_COUNT: usize = 4;

/// Names of the files that must lie next to the executable, the module first.
pub open spec fn required_dll_names() -> Seq<Seq<char>> {
    seq![
        "HardwareTemp.dll"@,
        "HardwareWrapper.dll"@,
        "LibreHardwareMonitorLib.dll"@,
        "HidSharp.dll"@,
    ]
}

/// The contents of a list of names.
pub open spec fn names_of(list: Seq<&'static str>) -> Seq<Seq<char>> {
    list.map_values(|name: &'static str| name@)
}

/// Those of `names` that were not found, in the order of `names`:
/// `present[i]` tells whether `names[i]` was found.
pub open spec fn absent(names: Seq<Seq<char>>, present: Seq<bool>) -> Seq<Seq<char>>
    recommends
        names.len() <= present.len(),
    decreases names.len(),
{
    if names.len() == 0 {
        Seq::empty()
    } else if present[names.len() - 1] {
        absent(names.drop_last(), present)
    } else {
        absent(names.drop_last(), present).push(names.last())
    }
}

/// Every file was found.
pub open spec fn all_found(present: Seq<bool>) -> bool {
    forall|i: int| 0 <= i < present.len() ==> present[i]
}

/// The line that lists one file name.
pub open spec fn bullet(name: Seq<char>) -> Seq<char> {
    "  - "@ + name
}

/// One line for each name, joined by line breaks.
pub open spec fn bullet_list(names: Seq<Seq<char>>) -> Seq<char>
    decreases names.len(),
{
    if names.len() == 0 {
        Seq::empty()
    } else if names.len() == 1 {
        bullet(names[0])
    } else {
        bullet_list(names.drop_last()) + "\n"@ + bullet(names.last())
    }
}

/// The message that reports `missing` as absent from the directory `exe_dir`.
pub open spec fn missing_report(missing: Seq<Seq<char>>, exe_dir: Seq<char>) -> Seq<char> {
    "ERROR: The following required DLL files are missing from the executable directory:\n"@
        + bullet_list(missing) + "\n\nExecutable directory: "@ + exe_dir
        + "\n\nPlease ensure all DLL files are placed in the same directory as the executable."@
}

/// Names of the files that must lie next to the executable, the module first.
pub fn required_dlls() -> (r: Vec<&'static str>)
    ensures
        r@.len() == REQUIRED_DLL_COUNT,
        names_of(r@) == required_dll_names(),
{
    let r = vec![
        "HardwareTemp.dll",
        "HardwareWrapper.dll",
        "LibreHardwareMonitorLib.dll",
        "HidSharp.dll",
    ];
    assert(names_of(r@) =~= required_dll_names());
    r
}

/// Selects the required files that were not found: `present[i]` tells whether
/// the file in position `i` of [`required_dlls`] exists.
pub fn missing_dlls(present: &[bool; REQUIRED_DLL_COUNT]) -> (r: Vec<&'static str>)
    ensures
        names_of(r@) == absent(required_dll_names(), present@),
{
    let required = required_dlls();
    let mut missing: Vec<&'static str> = Vec::new();
    let mut i: usize = 0;
    assert(required_dll_names().take(0) =~= Seq::<Seq<char>>::empty());
    assert(names_of(missing@) =~= Seq::<Seq<char>>::empty());
    while i < 4
        invariant
            i <= 4,
            required@.len() == 4,
            names_of(required@) == required_dll_names(),
            names_of(missing@) == absent(required_dll_names().take(i as int), present@),
        decreases 4 - i,
    {
        let ghost before = names_of(missing@);
        assert(required_dll_names().take(i + 1).drop_last() =~= required_dll_names().take(
            i as int,
        ));
        assert(names_of(required@)[i as int] == required@[i as int]@);
        if !present[i] {
            missing.push(required[i]);
            assert(names_of(missing@) =~= before.push(required_dll_names()[i as int]));
        }
        i += 1;
    }
    assert(required_dll_names().take(4) =~= required_dll_names());
    missing
}

/// Lays out one line for each name.
pub fn bullet_lines(names: &Vec<&'static str>) -> (r: String)
    ensures
        r@ == bullet_list(names_of(names@)),
{
    let mut out = String::new();
    let mut i: usize = 0;
    assert(names_of(names@).take(0) =~= Seq::<Seq<char>>::empty());
    while i < names.len()
        invariant
            i <= names.len(),
            out@ == bullet_list(names_of(names@).take(i as int)),
        decreases names.len() - i,
    {
        let ghost shown = names_of(names@).take(i + 1);
        assert(shown.drop_last() =~= names_of(names@).take(i as int));
        assert(shown.last() == names@[i as int]@);
        if i > 0 {
            out.append("\n");
        }
        out.append("  - ");
        out.append(names[i]);
        assert(out@ =~= bullet_list(shown));
        i += 1;
    }
    assert(names_of(names@).take(names.len() as int) =~= names_of(names@));
    out
}

/// Builds the message that reports `missing` as absent from `exe_dir`.
pub fn missing_dlls_message(missing: &Vec<&'static str>, exe_dir: &str) -> (r: String)
    ensures
        r@ == missing_report(names_of(missing@), exe_dir@),
{
    let mut out = String::from_str(
        "ERROR: The following required DLL files are missing from the executable directory:\n",
    );
    let lines = bullet_lines(missing);
    out.append(lines.as_str());
    out.append("\n\nExecutable directory: ");
    out.append(exe_dir);
    out.append(
        "\n\nPlease ensure all DLL files are placed in the same directory as the executable.",
    );
    out
}

/// Checks that every required file was found next to the executable.
///
/// `present[i]` tells whether the file in position `i` of [`required_dlls`]
/// exists in the directory `exe_dir`. The check passes only if all of them
/// do. Otherwise the error is one message that lists every absent file, and
/// no other, in the order of [`required_dlls`].
pub fn check_required_dlls(present: &[bool; REQUIRED_DLL_COUNT], exe_dir: &str) -> (r: Result<(), String>)
    ensures
        r is Ok <==> all_found(present@),
        r is Err ==> r->Err_0@ == missing_report(
            absent(required_dll_names(), present@),
            exe_dir@,
        ),
{
    let missing = missing_dlls(present);
    proof {
        lemma_absent_is_empty(required_dll_names(), present@);
    }
    if missing.len() > 0 {
        Err(missing_dlls_message(&missing, exe_dir))
    } else {
        Ok(())
    }
}

/// `part` stands somewhere in `text`, as a run of consecutive characters.
pub open spec fn occurs_in(part: Seq<char>, text: Seq<char>) -> bool {
    exists|at: int|
        0 <= at && at + part.len() <= text.len() && #[trigger] text.subrange(
            at,
            at + part.len(),
        ) == part
}

/// What occurs in a text still occurs when the text is extended on both sides.
pub proof fn lemma_occurs_in_extended(
    part: Seq<char>,
    left: Seq<char>,
    text: Seq<char>,
    right: Seq<char>,
)
    requires
        occurs_in(part, text),
    ensures
        occurs_in(part, left + text + right),
{
    let at = choose|at: int|
        0 <= at && at + part.len() <= text.len() && #[trigger] text.subrange(
            at,
            at + part.len(),
        ) == part;
    let whole = left + text + right;
    let shifted = left.len() + at;
    assert(whole.subrange(shifted, shifted + part.len()) =~= text.subrange(at, at + part.len()));
}

/// A name is reported absent exactly when it is one of `names` and the file
/// in its position was not found.
pub proof fn lemma_absent_contains(names: Seq<Seq<char>>, present: Seq<bool>, name: Seq<char>)
    requires
        names.len() <= present.len(),
    ensures
        absent(names, present).contains(name) <==> exists|i: int|
            0 <= i < names.len() && !present[i] && #[trigger] names[i] == name,
    decreases names.len(),
{
    if names.len() > 0 {
        let rest = names.drop_last();
        let last = names.len() - 1;
        lemma_absent_contains(rest, present, name);
        let shorter = absent(rest, present);
        if absent(names, present).contains(name) {
            if shorter.contains(name) {
                let i = choose|i: int| 0 <= i < rest.len() && !present[i] && #[trigger] rest[i] == name;
                assert(names[i] == name);
            } else {
                assert(!present[last]);
                let at = choose|at: int|
                    0 <= at < absent(names, present).len() && absent(names, present)[at] == name;
                assert(at == shorter.len());
                assert(names[last] == name);
            }
        }
        if exists|i: int| 0 <= i < names.len() && !present[i] && #[trigger] names[i] == name {
            let i = choose|i: int| 0 <= i < names.len() && !present[i] && #[trigger] names[i] == name;
            if i < last {
                assert(rest[i] == name);
                assert(shorter.contains(name));
                if !present[last] {
                    let at = choose|at: int| 0 <= at < shorter.len() && shorter[at] == name;
                    assert(absent(names, present)[at] == name);
                }
            } else {
                assert(absent(names, present)[shorter.len() as int] == name);
            }
        }
    }
}

/// The line of every listed name stands in the list.
pub proof fn lemma_bullet_list_shows(names: Seq<Seq<char>>, i: int)
    requires
        0 <= i < names.len(),
    ensures
        occurs_in(bullet(names[i]), bullet_list(names)),
    decreases names.len(),
{
    let line = bullet(names[i]);
    if names.len() == 1 {
        assert(bullet_list(names).subrange(0int, 0int + line.len()) =~= line);
    } else {
        let rest = names.drop_last();
        let tail = "\n"@ + bullet(names.last());
        assert(bullet_list(names) =~= bullet_list(rest) + tail);
        if i == names.len() - 1 {
            let head = bullet_list(rest) + "\n"@;
            assert(line.subrange(0int, 0int + line.len()) =~= line);
            lemma_occurs_in_extended(line, head, line, Seq::empty());
            assert(head + line + Seq::<char>::empty() =~= bullet_list(names));
        } else {
            lemma_bullet_list_shows(rest, i);
            lemma_occurs_in_extended(line, Seq::empty(), bullet_list(rest), tail);
            assert(Seq::<char>::empty() + bullet_list(rest) + tail =~= bullet_list(names));
        }
    }
}

/// The required files have four different names.
pub proof fn lemma_required_dll_names_differ()
    ensures
        required_dll_names().len() == REQUIRED_DLL_COUNT,
        forall|i: int, j: int|
            0 <= i < 4 && 0 <= j < 4 && required_dll_names()[i] == required_dll_names()[j] ==> i
                == j,
{
    reveal_strlit("HardwareTemp.dll");
    reveal_strlit("HardwareWrapper.dll");
    reveal_strlit("LibreHardwareMonitorLib.dll");
    reveal_strlit("HidSharp.dll");
    assert("HardwareTemp.dll"@.len() == 16);
    assert("HardwareWrapper.dll"@.len() == 19);
    assert("LibreHardwareMonitorLib.dll"@.len() == 27);
    assert("HidSharp.dll"@.len() == 12);
}

/// The message reports exactly the files that are absent.
///
/// Whatever was found or not, each required file that is absent is listed,
/// with a line of its own in the message, be it the first absent file or a
/// later one; and a file that was found is not listed.
pub proof fn lemma_report_lists_exactly_the_missing(present: Seq<bool>, exe_dir: Seq<char>, i: int)
    requires
        present.len() == REQUIRED_DLL_COUNT,
        0 <= i < REQUIRED_DLL_COUNT,
    ensures
        !present[i] ==> absent(required_dll_names(), present).contains(required_dll_names()[i]),
        !present[i] ==> occurs_in(
            bullet(required_dll_names()[i]),
            missing_report(absent(required_dll_names(), present), exe_dir),
        ),
        present[i] ==> !absent(required_dll_names(), present).contains(required_dll_names()[i]),
{
    let names = required_dll_names();
    let listed = absent(names, present);
    let name = names[i];
    lemma_required_dll_names_differ();
    lemma_absent_contains(names, present, name);
    if !present[i] {
        assert(listed.contains(name));
        let at = choose|at: int| 0 <= at < listed.len() && listed[at] == name;
        lemma_bullet_list_shows(listed, at);
        let head =
            "ERROR: The following required DLL files are missing from the executable directory:\n"@;
        let tail = "\n\nExecutable directory: "@ + exe_dir
            + "\n\nPlease ensure all DLL files are placed in the same directory as the executable."@;
        lemma_occurs_in_extended(bullet(name), head, bullet_list(listed), tail);
        assert(head + bullet_list(listed) + tail =~= missing_report(listed, exe_dir));
    }
}

/// Nothing is reported absent exactly when every name was found.
pub proof fn lemma_absent_is_empty(names: Seq<Seq<char>>, present: Seq<bool>)
    requires
        names.len() <= present.len(),
    ensures
        absent(names, present).len() == 0 <==> forall|i: int| 0 <= i < names.len() ==> present[i],
    decreases names.len(),
{
    if names.len() > 0 {
        lemma_absent_is_empty(names.drop_last(), present);
    }
}

} // verus!
