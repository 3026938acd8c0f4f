//! Which processes have a database open, and with which environment a process was
//! started.

use vstd::prelude::*;
use vstd::string::*;
use crate::daemon::pids;
use crate::daemon::pids::PidSet;
use crate::daemon::resume_plan;
use crate::daemon::resume_plan::Variable;
use crate::text;

verus! {

/// The pieces of a run of bytes between the occurrences of a byte.
pub open spec fn split_bytes(bytes: Seq<u8>, separator: u8) -> Seq<Seq<u8>>
    decreases bytes.len(),
{
    if bytes.len() == 0 {
        seq![Seq::empty()]
    } else {
        let before = split_bytes(bytes.drop_last(), separator);
        if bytes.last() == separator {
            before.push(Seq::empty())
        } else {
            before.drop_last().push(before.last().push(bytes.last()))
        }
    }
}

/// The first position of a byte, from `from` on.
pub open spec fn position_of(bytes: Seq<u8>, byte: u8, from: int) -> Option<int>
    decreases bytes.len() - from,
{
    if from < 0 || from >= bytes.len() {
        None
    } else if bytes[from] == byte {
        Some(from)
    } else {
        position_of(bytes, byte, from + 1)
    }
}

/// The name and the value in an entry of an environment: what stands before and
/// after the first `=`. An entry without one, or without a name, is no variable.
pub open spec fn variable_of(entry: Seq<u8>) -> Option<(Seq<u8>, Seq<u8>)> {
    match position_of(entry, 0x3d, 0) {
        Some(i) => if i == 0 {
            None
        } else {
            Some((entry.take(i), entry.skip(i + 1)))
        },
        None => None,
    }
}

/// The variables among the entries of an environment.
pub open spec fn variables_of(entries: Seq<Seq<u8>>) -> Seq<(Seq<u8>, Seq<u8>)>
    decreases entries.len(),
{
    if entries.len() == 0 {
        Seq::empty()
    } else {
        let before = variables_of(entries.drop_last());
        match variable_of(entries.last()) {
            Some(variable) => before.push(variable),
            None => before,
        }
    }
}

/// The bytes from `from` to `to`.
fn slice_of(bytes: &Vec<u8>, from: usize, to: usize) -> (r: Vec<u8>)
    requires
        from <= to <= bytes@.len(),
    ensures
        r@ == bytes@.subrange(from as int, to as int),
{
    let mut r: Vec<u8> = Vec::new();
    let mut i: usize = from;
    while i < to
        invariant
            from <= i <= to <= bytes@.len(),
            r@ == bytes@.subrange(from as int, i as int),
        decreases to - i,
    {
        r.push(bytes[i]);
        assert(bytes@.subrange(from as int, i + 1) == bytes@.subrange(from as int, i as int).push(
            bytes@[i as int],
        ));
        i = i + 1;
    }
    r
}

/// The name and the value in an entry of an environment.
fn variable_in(entry: &Vec<u8>) -> (r: Option<Variable>)
    ensures
        match (r, variable_of(entry@)) {
            (Some(variable), Some((name, value))) => variable.0@ == name && variable.1@ == value,
            (None, None) => true,
            _ => false,
        },
{
    let mut i: usize = 0;
    while i < entry.len()
        invariant
            i <= entry@.len(),
            position_of(entry@, 0x3d, 0) == position_of(entry@, 0x3d, i as int),
        decreases entry@.len() - i,
    {
        if entry[i] == 0x3d {
            if i == 0 {
                return None;
            }
            assert(entry@.subrange(0, i as int) == entry@.take(i as int));
            assert(entry@.subrange(i + 1, entry@.len() as int) == entry@.skip(i + 1));
            return Some((slice_of(entry, 0, i), slice_of(entry, i + 1, entry.len())));
        }
        i = i + 1;
    }
    None
}

/// Adds the variable in an entry of an environment, where it is one.
fn push_variable(variables: &mut Vec<Variable>, entry: &Vec<u8>)
    ensures
        resume_plan::variable_views(final(variables)@) == match variable_of(entry@) {
            Some(variable) => resume_plan::variable_views(old(variables)@).push(variable),
            None => resume_plan::variable_views(old(variables)@),
        },
{
    let ghost before = resume_plan::variable_views(variables@);
    if let Some(variable) = variable_in(entry) {
        let ghost added = (variable.0@, variable.1@);
        variables.push(variable);
        assert(resume_plan::variable_views(variables@) =~= before.push(added));
    }
}

/// The variables of an environment whose entries are separated by zero bytes.
pub fn parse_nul_separated_environment(bytes: &[u8]) -> (r: Vec<Variable>)
    ensures
        resume_plan::variable_views(r@) == variables_of(split_bytes(bytes@, 0)),
{
    let mut variables: Vec<Variable> = Vec::new();
    let mut entry: Vec<u8> = Vec::new();
    let mut i: usize = 0;
    assert(resume_plan::variable_views(variables@) =~= Seq::empty());
    assert(bytes@.take(0) =~= Seq::empty());
    assert(split_bytes(bytes@.take(0), 0).drop_last() =~= Seq::empty());
    while i < bytes.len()
        invariant
            i <= bytes@.len(),
            split_bytes(bytes@.take(i as int), 0).len() > 0,
            entry@ == split_bytes(bytes@.take(i as int), 0).last(),
            resume_plan::variable_views(variables@) == variables_of(
                split_bytes(bytes@.take(i as int), 0).drop_last(),
            ),
        decreases bytes@.len() - i,
    {
        let ghost before = split_bytes(bytes@.take(i as int), 0);
        let ghost after = split_bytes(bytes@.take(i + 1), 0);
        assert(bytes@.take(i + 1).drop_last() == bytes@.take(i as int));
        if bytes[i] == 0 {
            assert(after.drop_last() =~= before);
            push_variable(&mut variables, &entry);
            entry = Vec::new();
        } else {
            entry.push(bytes[i]);
            assert(after.drop_last() =~= before.drop_last());
        }
        i = i + 1;
    }
    assert(bytes@.take(i as int) == bytes@);
    push_variable(&mut variables, &entry);
    variables
}

/// The number that a run of digits spells.
pub open spec fn digits_value(digits: Seq<char>) -> nat
    decreases digits.len(),
{
    if digits.len() == 0 {
        0
    } else {
        digits_value(digits.drop_last()) * 10 + (digits.last() as u32 - '0' as u32) as nat
    }
}

/// Whether a text is a run of digits.
pub open spec fn all_digits(digits: Seq<char>) -> bool {
    digits.len() > 0 && forall|i: int| 0 <= i < digits.len() ==> text::is_digit(#[trigger] digits[i])
}

/// A text without a plus sign at its beginning, unless that is all of it.
pub open spec fn unsigned_part(value: Seq<char>) -> Seq<char> {
    if value.len() > 1 && value[0] == '+' {
        value.drop_first()
    } else {
        value
    }
}

/// The process id that a text spells.
pub open spec fn pid_of(value: Seq<char>) -> Option<u32> {
    let digits = unsigned_part(value);
    if all_digits(digits) && digits_value(digits) <= u32::MAX {
        Some(digits_value(digits) as u32)
    } else {
        None
    }
}

/// More digits spell a number at least as large.
proof fn lemma_digits_value_grows(digits: Seq<char>, i: int)
    requires
        0 <= i <= digits.len(),
        forall|k: int| 0 <= k < digits.len() ==> text::is_digit(#[trigger] digits[k]),
    ensures
        digits_value(digits.take(i)) <= digits_value(digits),
    decreases digits.len(),
{
    if i < digits.len() {
        lemma_digits_value_grows(digits.drop_last(), i);
        assert(digits.drop_last().take(i) == digits.take(i));
    } else {
        assert(digits.take(i) == digits);
    }
}

/// The process id that a text spells.
pub fn parse_pid(value: &str) -> (r: Option<u32>)
    ensures
        r == pid_of(value@),
{
    let chars = text::chars_of(value);
    let n: usize = chars.len();
    let start: usize = if n > 1 && chars[0] == '+' {
        1
    } else {
        0
    };
    let ghost digits = chars@.skip(start as int);
    assert(digits == unsigned_part(value@)) by {
        assert(chars@.skip(0) == chars@);
        assert(n > 1 ==> chars@.skip(1) == chars@.drop_first());
    }
    if start >= n {
        return None;
    }
    let mut k: usize = start;
    while k < n
        invariant
            start <= k <= n == chars@.len(),
            digits == chars@.skip(start as int),
            digits == unsigned_part(value@),
            forall|j: int| 0 <= j < k - start ==> text::is_digit(#[trigger] digits[j]),
        decreases n - k,
    {
        if !('0' <= chars[k] && chars[k] <= '9') {
            assert(!text::is_digit(digits[k - start]));
            return None;
        }
        assert(digits[k - start] == chars@[k as int]);
        k = k + 1;
    }
    let mut total: u64 = 0;
    let mut i: usize = start;
    assert(digits.take(0) =~= Seq::empty());
    while i < n
        invariant
            start <= i <= n == chars@.len(),
            digits == chars@.skip(start as int),
            digits == unsigned_part(value@),
            all_digits(digits),
            total <= u32::MAX,
            total == digits_value(digits.take(i - start)),
        decreases n - i,
    {
        assert(digits.take(i - start + 1).drop_last() == digits.take(i - start));
        assert(digits[i - start] == chars@[i as int]);
        assert(text::is_digit(digits[i - start]));
        total = total * 10 + (chars[i] as u32 - '0' as u32) as u64;
        if total > u32::MAX as u64 {
            proof {
                lemma_digits_value_grows(digits, i - start + 1);
            }
            return None;
        }
        i = i + 1;
    }
    assert(digits.take(i - start) == digits);
    Some(total as u32)
}

/// The process ids in the lines of a listing: those after a `p` at the beginning
/// of a line, but for this process.
pub open spec fn listed_pids(lines: Seq<Seq<char>>, own: u32) -> Seq<u32>
    decreases lines.len(),
{
    if lines.len() == 0 {
        Seq::empty()
    } else {
        let before = listed_pids(lines.drop_last(), own);
        match text::strip_prefix(lines.last(), "p"@) {
            Some(value) => match pid_of(value) {
                Some(pid) => if pid == own {
                    before
                } else {
                    before.push(pid)
                },
                None => before,
            },
            None => before,
        }
    }
}

/// The processes that a listing of `lsof -F p` names, but for this one.
pub fn lsof_holder_pids(output: &str, own: u32) -> (r: PidSet)
    ensures
        pids::is_set_of(r@, listed_pids(text::lines(output@), own)),
{
    let lines = text::lines_of(output);
    let ghost all = text::lines(output@);
    let mut found: Vec<u32> = Vec::new();
    let mut i: usize = 0;
    while i < lines.len()
        invariant
            text::views(lines@) == all,
            i <= lines@.len() == all.len(),
            found@ == listed_pids(all.take(i as int), own),
        decreases lines@.len() - i,
    {
        assert(all.take(i + 1).drop_last() == all.take(i as int));
        assert(text::views(lines@)[i as int] == lines@[i as int]@);
        if let Some(value) = text::after_prefix(lines[i].as_str(), "p") {
            if let Some(pid) = parse_pid(value) {
                if pid != own {
                    found.push(pid);
                }
            }
        }
        i = i + 1;
    }
    assert(all.take(i as int) == all);
    PidSet::from_list(&found)
}

/// Whether the exit of `lsof` tells that its listing is complete: it ends with 1
/// where no process has the file open.
pub fn lsof_succeeded(success: bool, code: Option<i32>) -> (r: bool)
    ensures
        r == (success || code == Some(1i32)),
{
    success || match code {
        Some(code) => code == 1,
        None => false,
    }
}

/// What came of running `lsof -F p`.
#[derive(Debug)]
pub struct LsofOutput {
    pub success: bool,
    pub code: Option<i32>,
    /// How it ended, in words.
    pub status: String,
    /// What it printed.
    pub stdout: Vec<u8>,
}

/// What is said where it cannot be told who has a database open.
pub open spec fn unverified(path: Seq<char>, reason: Seq<char>) -> Seq<char> {
    "cannot verify whether another process is using database "@ + path + ": "@ + reason
}

/// What is said where it cannot be told who has a database open.
fn unverified_error(path: &str, reason: &str) -> (r: String)
    ensures
        r@ == unverified(path@, reason@),
{
    let head = text::concat3(
        "cannot verify whether another process is using database ",
        path,
        ": ",
    );
    text::concat2(head.as_str(), reason)
}

/// The processes that have a database open, but for this one, by what came of running
/// `lsof`; where it could not be run or did not list them all, why.
pub fn lsof_database_holder_pids(path: &str, output: &Result<LsofOutput, String>, own: u32) -> (r:
    Result<PidSet, String>)
    ensures
        match output {
            Ok(ran) => if ran.success || ran.code == Some(1i32) {
                r is Ok && pids::is_set_of(
                    r->Ok_0@,
                    listed_pids(text::lines(text::bytes_text(ran.stdout@)), own),
                )
            } else {
                r is Err && r->Err_0@ == unverified(path@, "lsof exited with "@ + ran.status@)
            },
            Err(error) => r is Err && r->Err_0@ == unverified(path@, error@),
        },
{
    match output {
        Ok(ran) => {
            if !lsof_succeeded(ran.success, ran.code) {
                let reason = text::concat2("lsof exited with ", ran.status.as_str());
                return Err(unverified_error(path, reason.as_str()));
            }
            let listed = text::lossy_text(ran.stdout.as_slice());
            Ok(lsof_holder_pids(listed.as_str(), own))
        },
        Err(error) => Err(unverified_error(path, error.as_str())),
    }
}

/// A file, by the device that it lies on and its number there.
pub type FileId = (u64, u64);

/// The process of an entry of the process table, where it has a file open and is
/// not this one.
pub fn process_holds(name: &str, open_files: &Vec<FileId>, target: FileId, own: u32) -> (r: Option<u32>)
    ensures
        r == match pid_of(name@) {
            Some(pid) => if pid != own && open_files@.contains(target) {
                Some(pid)
            } else {
                None
            },
            None => None,
        },
{
    let pid: u32 = match parse_pid(name) {
        Some(pid) => pid,
        None => {
            return None;
        },
    };
    if pid == own {
        return None;
    }
    let mut i: usize = 0;
    while i < open_files.len()
        invariant
            i <= open_files@.len(),
            pid_of(name@) == Some(pid),
            pid != own,
            forall|k: int| 0 <= k < i ==> open_files@[k] != target,
        decreases open_files@.len() - i,
    {
        if open_files[i].0 == target.0 && open_files[i].1 == target.1 {
            assert(open_files@[i as int] == target);
            return Some(pid);
        }
        i = i + 1;
    }
    None
}

/// What is said when processes have a database open.
pub open spec fn holders_error(path: Seq<char>, holders: Seq<u32>) -> Seq<char> {
    "cannot safely migrate database "@ + path + " while another process has it open (PID: "@
        + pids::pid_list(holders)
        + "); close all older cc-switch TUI/proxy processes and retry"@
}

/// What is said when processes have a database open.
pub fn database_holders_error(path: &str, holders: &PidSet) -> (r: String)
    ensures
        r@ == holders_error(path@, holders@),
{
    let mut r = text::concat3(
        "cannot safely migrate database ",
        path,
        " while another process has it open (PID: ",
    );
    r.append(holders.text().as_str());
    r.append("); close all older cc-switch TUI/proxy processes and retry");
    r
}

/// Refuses a database that processes have open.
pub fn ensure_no_external_database_holders(path: &str, holders: &PidSet) -> (r: Result<(), String>)
    ensures
        match r {
            Ok(_) => holders@.len() == 0,
            Err(error) => holders@.len() > 0 && error@ == holders_error(path@, holders@),
        },
{
    if holders.is_empty() {
        Ok(())
    } else {
        Err(database_holders_error(path, holders))
    }
}

/// Everything after the first `=` of an entry is its value, further `=` included.
pub proof fn law_values_keep_their_equals_signs(name: Seq<u8>, value: Seq<u8>)
    requires
        name.len() > 0,
        !name.contains(0x3d),
    ensures
        variable_of(name.push(0x3d) + value) == Some((name, value)),
{
    let entry = name.push(0x3d) + value;
    lemma_position_after(entry, name, 0);
    assert(entry.take(name.len() as int) =~= name);
    assert(entry.skip(name.len() as int + 1) =~= value);
}

/// The first `=` stands after a name that has none.
proof fn lemma_position_after(entry: Seq<u8>, name: Seq<u8>, from: int)
    requires
        0 <= from <= name.len() < entry.len(),
        forall|i: int| 0 <= i < name.len() ==> entry[i] == #[trigger] name[i],
        entry[name.len() as int] == 0x3d,
        !name.contains(0x3d),
    ensures
        position_of(entry, 0x3d, from) == Some(name.len() as int),
    decreases name.len() - from,
{
    if from < name.len() {
        assert(name.contains(name[from]));
        lemma_position_after(entry, name, from + 1);
    }
}

/// The digits of a number spell it.
proof fn lemma_digits_of_number(n: nat)
    ensures
        all_digits(text::decimal(n)),
        digits_value(text::decimal(n)) == n,
    decreases n,
{
    let digits = text::decimal(n);
    text::lemma_decimal_nonempty(n);
    if n < 10 {
        assert(digits.len() == 1);
        assert(digits.drop_last() =~= Seq::empty());
        assert(digits_value(digits.drop_last()) == 0);
    } else {
        lemma_digits_of_number(n / 10);
        let head = text::decimal(n / 10);
        assert(digits.drop_last() =~= head);
        assert forall|i: int| 0 <= i < digits.len() implies text::is_digit(#[trigger] digits[i]) by {
            if i < head.len() {
                assert(digits[i] == head[i]);
            }
        }
    }
}

/// A process id is read as it is written.
pub proof fn law_a_pid_is_read_as_it_is_written(pid: u32)
    ensures
        pid_of(text::decimal(pid as nat)) == Some(pid),
{
    lemma_digits_of_number(pid as nat);
    let digits = text::decimal(pid as nat);
    assert(digits[0] != '+') by {
        assert(text::is_digit(digits[0]));
    }
    assert(unsigned_part(digits) == digits);
}

/// The processes that are listed are just those of the lines that name one with a `p` before
/// its id, but for this process itself.
pub proof fn law_listed_processes_are_those_of_lines(lines: Seq<Seq<char>>, own: u32, pid: u32)
    ensures
        listed_pids(lines, own).contains(pid) <==> pid != own && exists|i: int|
            0 <= i < lines.len() && (#[trigger] lines[i]).len() > 0 && lines[i][0] == 'p' && pid_of(
                lines[i].drop_first(),
            ) == Some(pid),
    decreases lines.len(),
{
    reveal_strlit("p");
    if lines.len() > 0 {
        let head = lines.drop_last();
        let last = lines.last();
        let before = listed_pids(head, own);
        let all = listed_pids(lines, own);
        law_listed_processes_are_those_of_lines(head, own, pid);
        assert(lines[lines.len() - 1] == last);
        if last.len() > 0 {
            assert(last.subrange(0, 1) =~= seq![last[0]]);
            assert("p"@ =~= seq!['p']);
            assert(seq![last[0]][0] == last[0]);
            assert(last.skip(1) =~= last.drop_first());
            if text::starts_with(last, "p"@) {
                assert(last.subrange(0, 1)[0] == 'p');
            }
        }
        if all.contains(pid) {
            let k = choose|k: int| 0 <= k < all.len() && all[k] == pid;
            if k < before.len() {
                assert(before[k] == pid);
                let i = choose|i: int|
                    0 <= i < head.len() && (#[trigger] head[i]).len() > 0 && head[i][0] == 'p'
                        && pid_of(head[i].drop_first()) == Some(pid);
                assert(lines[i] == head[i]);
            }
        }
        if pid != own && exists|i: int|
            0 <= i < lines.len() && (#[trigger] lines[i]).len() > 0 && lines[i][0] == 'p' && pid_of(
                lines[i].drop_first(),
            ) == Some(pid) {
            let i = choose|i: int|
                0 <= i < lines.len() && (#[trigger] lines[i]).len() > 0 && lines[i][0] == 'p'
                    && pid_of(lines[i].drop_first()) == Some(pid);
            if i < head.len() {
                assert(head[i] == lines[i]);
                let k = choose|k: int| 0 <= k < before.len() && before[k] == pid;
                assert(all[k] == pid);
            } else {
                assert(all[all.len() - 1] == pid);
            }
        }
    }
}

/// The pieces of a run of bytes hold no separator, and all other bytes stand in them.
pub proof fn law_entries_hold_no_separator(bytes: Seq<u8>, separator: u8)
    ensures
        split_bytes(bytes, separator).len() > 0,
        forall|i: int|
            0 <= i < split_bytes(bytes, separator).len() ==> !(#[trigger] split_bytes(
                bytes,
                separator,
            )[i]).contains(separator),
    decreases bytes.len(),
{
    if bytes.len() > 0 {
        let head = bytes.drop_last();
        law_entries_hold_no_separator(head, separator);
        let before = split_bytes(head, separator);
        let pieces = split_bytes(bytes, separator);
        assert forall|i: int| 0 <= i < pieces.len() implies !(#[trigger] pieces[i]).contains(
            separator,
        ) by {
            if bytes.last() == separator {
                if i < before.len() {
                    assert(pieces[i] == before[i]);
                }
            } else if i < before.len() - 1 {
                assert(pieces[i] == before[i]);
            } else {
                let last = before[before.len() - 1];
                assert(pieces[i] == last.push(bytes.last()));
                if pieces[i].contains(separator) {
                    let k = choose|k: int| 0 <= k < pieces[i].len() && pieces[i][k] == separator;
                    assert(last[k] == separator);
                }
            }
        }
    }
}

/// An entry behind a separator is a piece of its own.
pub proof fn law_an_entry_stands_behind_a_separator(bytes: Seq<u8>, entry: Seq<u8>, separator: u8)
    requires
        !entry.contains(separator),
    ensures
        split_bytes(bytes.push(separator) + entry, separator) == split_bytes(bytes, separator).push(
            entry,
        ),
    decreases entry.len(),
{
    let all = bytes.push(separator) + entry;
    if entry.len() == 0 {
        assert(all =~= bytes.push(separator));
        assert(all.drop_last() =~= bytes);
        assert(entry =~= Seq::empty());
    } else {
        let head = entry.drop_last();
        assert(entry[entry.len() - 1] == entry.last());
        assert(!head.contains(separator)) by {
            if head.contains(separator) {
                let k = choose|k: int| 0 <= k < head.len() && head[k] == separator;
                assert(entry[k] == separator);
            }
        }
        law_an_entry_stands_behind_a_separator(bytes, head, separator);
        assert(all.drop_last() =~= bytes.push(separator) + head);
        assert(head.push(entry.last()) =~= entry);
        let before = split_bytes(bytes, separator).push(head);
        assert(before.drop_last() =~= split_bytes(bytes, separator));
    }
}

/// Each entry with a name is a variable, and the variables keep the order of their entries.
pub proof fn law_every_named_entry_is_a_variable(entries: Seq<Seq<u8>>, name: Seq<u8>, value: Seq<u8>)
    requires
        name.len() > 0,
        !name.contains(0x3d),
    ensures
        variables_of(entries.push(name.push(0x3d) + value)) == variables_of(entries).push(
            (name, value),
        ),
        variables_of(entries.push(name)) == variables_of(entries),
{
    let entry = name.push(0x3d) + value;
    law_values_keep_their_equals_signs(name, value);
    assert(entries.push(entry).drop_last() =~= entries);
    assert(entries.push(name).drop_last() =~= entries);
    lemma_no_position(name, 0);
}

proof fn lemma_no_position(bytes: Seq<u8>, from: int)
    requires
        0 <= from,
        !bytes.contains(0x3d),
    ensures
        position_of(bytes, 0x3d, from) is None,
    decreases bytes.len() - from,
{
    if from < bytes.len() {
        assert(bytes.contains(bytes[from]));
        lemma_no_position(bytes, from + 1);
    }
}

} // verus!
