//! Migration scripts and the file names they are discovered under.
//!
//! A script file is named `V<digits>__<label>.sql`: the marker `V`, a
//! non-empty run of ASCII digits giving the schema version, two underscores,
//! a free-text label and the extension. Any other name is not a script.

use vstd::prelude::*;
use vstd::string::{StrSliceExecFns, StringExecFns};
use crate::error::StoreError;

verus! {

/// ASCII decimal digit.
pub open spec fn is_digit(c: char) -> bool {
    48 <= c as u32 <= 57
}

/// Value of one decimal digit.
pub open spec fn digit_value(c: char) -> nat {
    (c as u32 - 48) as nat
}

/// Value of a string of decimal digits, most significant first.
pub open spec fn decimal_value(digits: Seq<char>) -> nat
    decreases digits.len(),
{
    if digits.len() == 0 {
        0
    } else {
        decimal_value(digits.drop_last()) * 10 + digit_value(digits.last())
    }
}

/// Whether every character is a decimal digit.
pub open spec fn all_digits(s: Seq<char>) -> bool {
    forall|i: int| 0 <= i < s.len() ==> is_digit(#[trigger] s[i])
}

/// Index of the first character at or after `from` that is not a digit, or
/// the length when the digits run to the end.
pub open spec fn digits_end(s: Seq<char>, from: int) -> int
    decreases s.len() - from,
{
    if 0 <= from < s.len() && is_digit(s[from]) {
        digits_end(s, from + 1)
    } else {
        from
    }
}

/// The two underscores between version and label.
pub open spec fn separator() -> Seq<char> {
    seq!['_', '_']
}

/// The extension every script file carries, dot included.
pub open spec fn extension() -> Seq<char> {
    seq!['.', 's', 'q', 'l']
}

/// The file name made of a digit string and a label.
pub open spec fn script_file_name(digits: Seq<char>, label: Seq<char>) -> Seq<char> {
    seq!['V'] + digits + separator() + label + extension()
}

/// Version and label that a file name carries, or `None` when the name is
/// not that of a script: it does not have the shape
/// `V<digits>__<label>.sql`, or its version does not fit in 32 bits.
pub open spec fn parse_name(name: Seq<char>) -> Option<(u32, Seq<char>)> {
    let end = digits_end(name, 1);
    let n = name.len() as int;
    if n >= 8 && name[0] == 'V' && 1 < end && end + 2 <= n - 4 && name[end] == '_' && name[end
        + 1] == '_' && name.subrange(n - 4, n) == extension() && decimal_value(
        name.subrange(1, end),
    ) <= u32::MAX {
        Some((decimal_value(name.subrange(1, end)) as u32, name.subrange(end + 2, n - 4)))
    } else {
        None
    }
}

/// A run of digits ends where `digits_end` says: everything before is a
/// digit, and the run cannot be extended.
pub proof fn lemma_digits_end(s: Seq<char>, from: int)
    requires
        0 <= from <= s.len(),
    ensures
        from <= digits_end(s, from) <= s.len(),
        forall|i: int| from <= i < digits_end(s, from) ==> is_digit(#[trigger] s[i]),
        digits_end(s, from) < s.len() ==> !is_digit(s[digits_end(s, from)]),
    decreases s.len() - from,
{
    if from < s.len() && is_digit(s[from]) {
        lemma_digits_end(s, from + 1);
    }
}

/// The run of digits starting at `from` ends at `end` when everything in
/// between is a digit and the character at `end`, if any, is not.
pub proof fn lemma_digits_end_is(s: Seq<char>, from: int, end: int)
    requires
        0 <= from <= end <= s.len(),
        forall|i: int| from <= i < end ==> is_digit(#[trigger] s[i]),
        end < s.len() ==> !is_digit(s[end]),
    ensures
        digits_end(s, from) == end,
    decreases end - from,
{
    if from < end {
        lemma_digits_end_is(s, from + 1, end);
    }
}

/// Appending digits never lowers the value.
pub proof fn lemma_decimal_value_grows(s: Seq<char>, from: int, mid: int, end: int)
    requires
        0 <= from <= mid <= end <= s.len(),
    ensures
        decimal_value(s.subrange(from, mid)) <= decimal_value(s.subrange(from, end)),
    decreases end - mid,
{
    if mid < end {
        lemma_decimal_value_grows(s, from, mid, end - 1);
        assert(s.subrange(from, end).drop_last() == s.subrange(from, end - 1));
        assert(decimal_value(s.subrange(from, end)) >= decimal_value(s.subrange(from, end - 1)))
            by (nonlinear_arith)
            requires
                decimal_value(s.subrange(from, end)) == decimal_value(s.subrange(from, end - 1))
                    * 10 + digit_value(s.subrange(from, end).last()),
        ;
    }
}

/// Every name built as `V<digits>__<label>.sql` from a non-empty digit
/// string whose value fits in 32 bits is a script name, and carries that
/// value and that label.
pub proof fn lemma_parse_built_name(digits: Seq<char>, label: Seq<char>)
    requires
        digits.len() > 0,
        all_digits(digits),
        decimal_value(digits) <= u32::MAX,
    ensures
        parse_name(script_file_name(digits, label)) == Some(
            (decimal_value(digits) as u32, label),
        ),
{
    let name = script_file_name(digits, label);
    let end = 1 + digits.len() as int;
    let n = name.len() as int;
    assert(n == end + 2 + label.len() + 4);
    assert(name[end] == '_');
    assert(name[end + 1] == '_');
    assert forall|i: int| 1 <= i < end implies is_digit(#[trigger] name[i]) by {
        assert(name[i] == digits[i - 1]);
    }
    lemma_digits_end_is(name, 1, end);
    assert(name.subrange(1, end) == digits);
    assert(name.subrange(end + 2, n - 4) == label);
    assert(name.subrange(n - 4, n) == extension());
}

/// A script name is built as `V<digits>__<label>.sql` from the label it
/// carries and a non-empty digit string with the value it carries.
pub proof fn lemma_parsed_name_is_built(name: Seq<char>)
    requires
        parse_name(name) is Some,
    ensures
        ({
            let digits = name.subrange(1, digits_end(name, 1));
            let (version, label) = parse_name(name)->0;
            &&& digits.len() > 0
            &&& all_digits(digits)
            &&& decimal_value(digits) == version
            &&& name == script_file_name(digits, label)
        }),
{
    let end = digits_end(name, 1);
    let n = name.len() as int;
    lemma_digits_end(name, 1);
    let digits = name.subrange(1, end);
    let label = name.subrange(end + 2, n - 4);
    assert(name.subrange(n - 4, n) == extension());
    assert(name.subrange(n - 4, n)[0] == '.');
    assert(name.subrange(n - 4, n)[1] == 's');
    assert(name.subrange(n - 4, n)[2] == 'q');
    assert(name.subrange(n - 4, n)[3] == 'l');
    assert(name =~= script_file_name(digits, label));
}

/// The character of one decimal digit.
pub open spec fn digit_char(d: nat) -> char
    recommends
        d < 10,
{
    seq!['0', '1', '2', '3', '4', '5', '6', '7', '8', '9'][d as int]
}

/// A number written in decimal, without sign or leading zeros.
pub open spec fn decimal_digits(n: nat) -> Seq<char>
    decreases n,
{
    if n < 10 {
        seq![digit_char(n)]
    } else {
        decimal_digits(n / 10).push(digit_char(n % 10))
    }
}

/// What is written in decimal reads back as the number that was written.
pub proof fn lemma_decimal_round_trip(n: nat)
    ensures
        decimal_digits(n).len() > 0,
        all_digits(decimal_digits(n)),
        decimal_value(decimal_digits(n)) == n,
    decreases n,
{
    let d = decimal_digits(n);
    if n < 10 {
        assert(d.drop_last() =~= Seq::<char>::empty());
        assert(decimal_value(d.drop_last()) == 0);
        assert(digit_value(d.last()) == n);
    } else {
        lemma_decimal_round_trip(n / 10);
        assert(d.drop_last() =~= decimal_digits(n / 10));
        assert(digit_value(d.last()) == n % 10);
        assert forall|i: int| 0 <= i < d.len() implies is_digit(#[trigger] d[i]) by {
            if i < d.len() - 1 {
                assert(d[i] == decimal_digits(n / 10)[i]);
            }
        }
    }
}

/// The name of the script file for a version and a label: read back, it
/// gives that version and that label.
pub proof fn lemma_versioned_name_round_trip(version: u32, label: Seq<char>)
    ensures
        parse_name(script_file_name(decimal_digits(version as nat), label)) == Some(
            (version, label),
        ),
{
    lemma_decimal_round_trip(version as nat);
    lemma_parse_built_name(decimal_digits(version as nat), label);
}

/// A versioned unit of schema change.
#[derive(Debug, Clone, PartialEq, Eq)]
pub struct MigrationScript {
    /// Schema version the store is at once the script has been applied.
    pub version: u32,
    /// Free text from the file name.
    pub label: String,
    /// The statements, applied as one unit.
    pub body: String,
}

/// What a script is, as plain mathematical values.
pub struct ScriptModel {
    pub version: u32,
    pub label: Seq<char>,
    pub body: Seq<char>,
}

impl View for MigrationScript {
    type V = ScriptModel;

    open spec fn view(&self) -> ScriptModel {
        ScriptModel { version: self.version, label: self.label@, body: self.body@ }
    }
}

/// The models of a sequence of scripts.
pub open spec fn models(scripts: Seq<MigrationScript>) -> Seq<ScriptModel> {
    scripts.map_values(|s: MigrationScript| s@)
}

/// A file found in the script source.
#[derive(Debug, Clone, PartialEq, Eq)]
pub struct ScriptFile {
    /// The file's name, without its directory.
    pub name: String,
    /// The file's contents.
    pub body: String,
}

/// What a file is, as plain mathematical values.
pub struct FileModel {
    pub name: Seq<char>,
    pub body: Seq<char>,
}

impl View for ScriptFile {
    type V = FileModel;

    open spec fn view(&self) -> FileModel {
        FileModel { name: self.name@, body: self.body@ }
    }
}

/// The models of a sequence of files.
pub open spec fn file_models(files: Seq<ScriptFile>) -> Seq<FileModel> {
    files.map_values(|f: ScriptFile| f@)
}

/// The script a file stands for, if its name is that of a script.
pub open spec fn script_of_file(name: Seq<char>, body: Seq<char>) -> Option<ScriptModel> {
    match parse_name(name) {
        Some((version, label)) => Some(ScriptModel { version, label, body }),
        None => None,
    }
}

fn chars_of(s: &str) -> (v: Vec<char>)
    ensures
        v@ == s@,
{
    let mut v: Vec<char> = Vec::new();
    for c in it: s.chars()
        invariant
            v@ == it.seq().take(it.index() as int),
            it.seq() == s@,
    {
        v.push(c);
    }
    v
}

/// Reads version and label off a file name; `None` for a name that is not
/// that of a script.
pub fn parse_script_name(name: &str) -> (parsed: Option<(u32, String)>)
    ensures
        match parse_name(name@) {
            Some((version, label)) => parsed matches Some((v, l)) && v == version && l@ == label,
            None => parsed is None,
        },
{
    let cs = chars_of(name);
    let n = cs.len();
    if n < 8 || cs[0] != 'V' {
        return None;
    }
    let mut i: usize = 1;
    let mut value: u64 = 0;
    while i < n && 48 <= cs[i] as u32 && cs[i] as u32 <= 57
        invariant
            cs@ == name@,
            n == cs.len(),
            1 <= i <= n,
            forall|k: int| 1 <= k < i ==> is_digit(#[trigger] cs@[k]),
            value == decimal_value(cs@.subrange(1, i as int)),
            value <= u32::MAX,
        decreases n - i,
    {
        let digit: u64 = (cs[i] as u32 - 48) as u64;
        let next: u64 = value * 10 + digit;
        proof {
            assert(cs@.subrange(1, i + 1).drop_last() == cs@.subrange(1, i as int));
            assert(cs@.subrange(1, i + 1).last() == cs@[i as int]);
            assert(next == decimal_value(cs@.subrange(1, i + 1)));
        }
        if next > u32::MAX as u64 {
            proof {
                lemma_digits_end(cs@, i + 1);
                let end = digits_end(cs@, i + 1);
                assert forall|k: int| 1 <= k < end implies is_digit(#[trigger] cs@[k]) by {}
                lemma_digits_end_is(cs@, 1, end);
                lemma_decimal_value_grows(cs@, 1, i + 1, end);
            }
            return None;
        }
        value = next;
        i = i + 1;
    }
    proof {
        lemma_digits_end_is(cs@, 1, i as int);
    }
    if i == 1 || n - i < 6 {
        return None;
    }
    if cs[i] != '_' || cs[i + 1] != '_' {
        return None;
    }
    if cs[n - 4] != '.' || cs[n - 3] != 's' || cs[n - 2] != 'q' || cs[n - 1] != 'l' {
        proof {
            let tail = cs@.subrange(n - 4, n as int);
            assert(tail[0] == cs@[n - 4]);
            assert(tail[1] == cs@[n - 3]);
            assert(tail[2] == cs@[n - 2]);
            assert(tail[3] == cs@[n - 1]);
        }
        return None;
    }
    assert(cs@.subrange(n - 4, n as int) == extension());
    let label = name.substring_char(i + 2, n - 4).to_owned();
    Some((value as u32, label))
}

fn digit_text(d: u32) -> (text: &'static str)
    requires
        d < 10,
    ensures
        text@ == seq![digit_char(d as nat)],
{
    proof {
        reveal_strlit("0");
        reveal_strlit("1");
        reveal_strlit("2");
        reveal_strlit("3");
        reveal_strlit("4");
        reveal_strlit("5");
        reveal_strlit("6");
        reveal_strlit("7");
        reveal_strlit("8");
        reveal_strlit("9");
    }
    let text = match d {
        0 => "0",
        1 => "1",
        2 => "2",
        3 => "3",
        4 => "4",
        5 => "5",
        6 => "6",
        7 => "7",
        8 => "8",
        _ => "9",
    };
    assert(text@ =~= seq![digit_char(d as nat)]);
    text
}

/// Appends a number in decimal to a string.
pub fn push_decimal(out: &mut String, value: u32)
    ensures
        final(out)@ == old(out)@ + decimal_digits(value as nat),
    decreases value,
{
    if value >= 10 {
        push_decimal(out, value / 10);
    }
    out.append(digit_text(value % 10));
    assert(out@ =~= old(out)@ + decimal_digits(value as nat));
}

impl MigrationScript {
    /// The script held in a file of the given name and contents; `None` when
    /// the name is not that of a script, whatever the contents.
    pub fn from_file(name: &str, body: String) -> (script: Option<MigrationScript>)
        ensures
            match script_of_file(name@, body@) {
                Some(model) => script matches Some(s) && s@ == model,
                None => script is None,
            },
    {
        match parse_script_name(name) {
            Some((version, label)) => Some(MigrationScript { version, label, body }),
            None => None,
        }
    }
}

/// The scripts among the files, in the order of the files. A file whose
/// name is not that of a script is passed over.
pub open spec fn discovered(files: Seq<FileModel>) -> Seq<ScriptModel> {
    files.filter_map(|f: FileModel| script_of_file(f.name, f.body))
}

/// What is discovered in two lists of files one after the other is what is
/// discovered in the first and then what is discovered in the second.
pub proof fn lemma_discovered_concat(first: Seq<FileModel>, second: Seq<FileModel>)
    ensures
        discovered(first + second) == discovered(first) + discovered(second),
    decreases second.len(),
{
    if second.len() == 0 {
        assert(first + second =~= first);
        assert(discovered(first) + discovered(second) =~= discovered(first));
    } else {
        let all = first + second;
        assert(all.drop_last() =~= first + second.drop_last());
        assert(all.last() == second.last());
        lemma_discovered_concat(first, second.drop_last());
        assert(discovered(all) =~= discovered(first) + discovered(second));
    }
}

/// A file whose name is not that of a script makes no difference, wherever
/// it stands among the files: what is discovered is the same with it and
/// without it.
pub proof fn lemma_other_files_make_no_difference(
    files: Seq<FileModel>,
    at: int,
    other: FileModel,
)
    requires
        0 <= at <= files.len(),
        parse_name(other.name) is None,
    ensures
        discovered(files.insert(at, other)) == discovered(files),
{
    let one = seq![other];
    assert(discovered(one) =~= Seq::<ScriptModel>::empty()) by {
        assert(one.drop_last() =~= Seq::<FileModel>::empty());
        assert(one.last() == other);
        reveal_with_fuel(Seq::filter_map, 2);
    }
    assert(files.insert(at, other) =~= files.take(at) + one + files.skip(at));
    assert(files =~= files.take(at) + files.skip(at));
    lemma_discovered_concat(files.take(at), one);
    lemma_discovered_concat(files.take(at) + one, files.skip(at));
    lemma_discovered_concat(files.take(at), files.skip(at));
    assert(discovered(files.take(at)) + Seq::<ScriptModel>::empty() =~= discovered(
        files.take(at),
    ));
}

/// Picks the scripts out of the files of the script source. Files with
/// other names are passed over without complaint.
pub fn discover(files: &Vec<ScriptFile>) -> (scripts: Vec<MigrationScript>)
    ensures
        models(scripts@) == discovered(file_models(files@)),
{
    let ghost all = file_models(files@);
    let ghost pick = |f: FileModel| script_of_file(f.name, f.body);
    let mut scripts: Vec<MigrationScript> = Vec::new();
    let mut i: usize = 0;
    assert(all.take(0).filter_map(pick) =~= Seq::<ScriptModel>::empty());
    while i < files.len()
        invariant
            i <= files.len(),
            all == file_models(files@),
            pick == |f: FileModel| script_of_file(f.name, f.body),
            models(scripts@) == all.take(i as int).filter_map(pick),
        decreases files.len() - i,
    {
        let file = &files[i];
        proof {
            all.lemma_filter_map_take_succ(pick, i as int);
            assert(all[i as int] == file@);
        }
        let ghost before = models(scripts@);
        match MigrationScript::from_file(file.name.as_str(), file.body.clone()) {
            Some(script) => {
                scripts.push(script);
                assert(models(scripts@) =~= before + seq![script@]);
            },
            None => {},
        }
        i = i + 1;
    }
    assert(all.take(i as int) =~= all);
    scripts
}

/// Picks the scripts out of what listing the script source gave: the
/// scripts among the files when the source could be read, and a discovery
/// failure with the listing's reason when it could not.
pub fn discover_listed(listing: Result<Vec<ScriptFile>, String>) -> (result: Result<
    Vec<MigrationScript>,
    StoreError,
>)
    ensures
        match listing {
            Ok(files) => result matches Ok(scripts) && models(scripts@) == discovered(
                file_models(files@),
            ),
            Err(reason) => result == Err::<Vec<MigrationScript>, StoreError>(
                StoreError::ScriptDiscovery { reason },
            ),
        },
{
    match listing {
        Ok(files) => Ok(discover(&files)),
        Err(reason) => Err(StoreError::ScriptDiscovery { reason }),
    }
}

} // verus!
