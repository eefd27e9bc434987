use crate::state::{State, StateView};
use vstd::prelude::*;
use vstd::string::*;

verus! {

/// Why no worker was started. No record is written in any of these cases.
#[derive(Clone, Copy, Debug, PartialEq, Eq, Structural)]
pub enum LaunchError {
    /// The launcher could not detach from its terminal.
    Detach,
    /// The worker process could not be created.
    Spawn,
    /// The command line holds a NUL character, which ends a wide string.
    InteriorNul,
}

/// The worker was handed a wrong number of arguments.
#[derive(Clone, Copy, Debug, PartialEq, Eq, Structural)]
pub struct InvalidArguments {
    /// How many arguments there were, the program's name included.
    pub count: usize,
}

/// What a worker is started with.
#[derive(Clone, Debug, PartialEq, Eq)]
pub struct WorkerArgs {
    pub user: String,
    pub domain: String,
    pub pin: String,
    pub device_id: String,
    pub lan_scanning: bool,
}

/// The mathematical value of [`WorkerArgs`].
pub struct WorkerArgsView {
    pub user: Seq<char>,
    pub domain: Seq<char>,
    pub pin: Seq<char>,
    pub device_id: Seq<char>,
    pub lan_scanning: bool,
}

impl View for WorkerArgs {
    type V = WorkerArgsView;

    open spec fn view(&self) -> WorkerArgsView {
        WorkerArgsView {
            user: self.user@,
            domain: self.domain@,
            pin: self.pin@,
            device_id: self.device_id@,
            lan_scanning: self.lan_scanning,
        }
    }
}

/// The first argument of a process that is to run as the worker.
pub open spec fn worker_command() -> Seq<char> {
    "background-process"@
}

/// How a flag is written on a command line.
pub open spec fn flag_text(flag: bool) -> Seq<char> {
    if flag {
        "true"@
    } else {
        "false"@
    }
}

/// The flag that a command-line word stands for: `true` for the word
/// `true`, `false` for every other word.
pub open spec fn flag_of(word: Seq<char>) -> bool {
    word == "true"@
}

/// The arguments after the program's name with which the worker is started:
/// the worker command, then user, domain, pin, device identifier and the
/// scanning flag.
pub open spec fn arguments_of(a: WorkerArgsView) -> Seq<Seq<char>> {
    seq![worker_command(), a.user, a.domain, a.pin, a.device_id, flag_text(a.lan_scanning)]
}

/// A run of `n` backslashes.
pub open spec fn backslashes(n: nat) -> Seq<char> {
    Seq::new(n, |i: int| '\\')
}

/// The characters of `word` from position `i` on, as they stand between the
/// double quotes of a command line, where `run` backslashes stand right
/// before position `i`. A double quote gets a backslash before it; the
/// backslashes that stand right before a double quote, or at the end, are
/// doubled; every other character stands for itself.
pub open spec fn escaped_from(word: Seq<char>, i: int, run: nat) -> Seq<char>
    decreases word.len() - i,
{
    if i < 0 || i >= word.len() {
        backslashes(run)
    } else if word[i] == '\\' {
        seq!['\\'] + escaped_from(word, i + 1, run + 1)
    } else if word[i] == '"' {
        backslashes(run + 1) + seq!['"'] + escaped_from(word, i + 1, 0)
    } else {
        seq![word[i]] + escaped_from(word, i + 1, 0)
    }
}

/// A word as one argument of a command line: between double quotes, so that
/// an empty word and a word with spaces stay one argument each.
pub open spec fn quoted(word: Seq<char>) -> Seq<char> {
    seq!['"'] + escaped_from(word, 0, 0) + seq!['"']
}

/// The command line that starts the worker: the program and the arguments
/// of [`arguments_of`], each quoted, one space between each two.
pub open spec fn command_line_of(exe: Seq<char>, a: WorkerArgsView) -> Seq<char> {
    quoted(exe) + seq![' '] + quoted(worker_command()) + seq![' '] + quoted(a.user) + seq![' ']
        + quoted(a.domain) + seq![' '] + quoted(a.pin) + seq![' '] + quoted(a.device_id) + seq![
        ' ',
    ] + quoted(flag_text(a.lan_scanning))
}

/// The words of an argument vector.
pub open spec fn words_of(argv: Seq<String>) -> Seq<Seq<char>> {
    argv.map_values(|s: String| s@)
}

/// What an argument vector, the program's name first, asks for: `Ok(None)`
/// where its second word is not the worker command, the worker's start
/// values where it is and seven words are there, else an error.
pub open spec fn reentry_of(words: Seq<Seq<char>>) -> Result<
    Option<WorkerArgsView>,
    InvalidArguments,
> {
    if words.len() > 1 && words[1] == worker_command() {
        if words.len() == 7 {
            Ok(
                Some(
                    WorkerArgsView {
                        user: words[2],
                        domain: words[3],
                        pin: words[4],
                        device_id: words[5],
                        lan_scanning: flag_of(words[6]),
                    },
                ),
            )
        } else {
            Err(InvalidArguments { count: words.len() as usize })
        }
    } else {
        Ok(None)
    }
}

/// The record that the launcher writes for a worker it has just started.
pub open spec fn launched_state(
    pid: u32,
    handle: Option<u64>,
    user: Seq<char>,
    domain: Seq<char>,
) -> StateView {
    StateView {
        pid: Some(pid),
        handle,
        is_success: false,
        connected_domain: domain,
        connected_user: user,
        last_network_activity: Seq::empty(),
    }
}

/// The identifier under which a device reports: the machine's own
/// identifier, a slash, and the identifier that the operator chose.
pub open spec fn device_identity_of(machine: Seq<char>, device_id: Seq<char>) -> Seq<char> {
    machine + "/"@ + device_id
}

/// The UTF-16 units of one character: the character itself below 0x10000,
/// else a pair of surrogates.
pub open spec fn utf16_of(c: char) -> Seq<u16> {
    if (c as u32) < 0x10000 {
        seq![c as u16]
    } else {
        seq![
            (0xD800 + (c as u32 - 0x10000) / 0x400) as u16,
            (0xDC00 + (c as u32 - 0x10000) % 0x400) as u16,
        ]
    }
}

/// The UTF-16 units of a text.
pub open spec fn utf16(text: Seq<char>) -> Seq<u16>
    decreases text.len(),
{
    if text.len() == 0 {
        Seq::empty()
    } else {
        utf16(text.drop_last()) + utf16_of(text.last())
    }
}

/// A text as a wide string: its UTF-16 units, and one closing NUL unless the
/// text ends in a NUL of its own.
pub open spec fn wide_text(text: Seq<char>) -> Seq<u16> {
    if text.len() > 0 && text.last() == '\0' {
        utf16(text)
    } else {
        utf16(text).push(0u16)
    }
}

/// Whether a NUL character stands before the last character of a text.
pub open spec fn has_interior_nul(text: Seq<char>) -> bool {
    exists|i: int| 0 <= i < text.len() - 1 && #[trigger] text[i] == '\0'
}

/// `widestring::U16CString::from_str`, then `into_vec_with_nul`: the text in
/// UTF-16, as `str::encode_utf16` gives it, with a closing NUL where the text
/// does not end in one. The crate refuses a text in which a NUL unit stands
/// anywhere but at the end; only the NUL character makes such a unit.
#[verifier::external_body]
fn to_wide(text: &str) -> (wide: Option<Vec<u16>>)
    ensures
        wide is None <==> has_interior_nul(text@),
        wide matches Some(units) ==> units@ == wide_text(text@),
{
    match widestring::U16CString::from_str(text) {
        Ok(wide) => Some(wide.into_vec_with_nul()),
        Err(_) => None,
    }
}

/// `machine_uid::get`: the identifier that the operating system keeps for
/// this machine, or `None` where it cannot be read. Nothing is claimed of
/// the identifier.
#[verifier::external_body]
fn machine_identifier() -> Option<String> {
    machine_uid::get().ok()
}

/// The machine's identifier as a text, empty where the machine has none.
pub open spec fn machine_text(machine: Option<String>) -> Seq<char> {
    match machine {
        Some(m) => m@,
        None => Seq::empty(),
    }
}

fn flag_word(flag: bool) -> (word: String)
    ensures
        word@ == flag_text(flag),
{
    if flag {
        String::from_str("true")
    } else {
        String::from_str("false")
    }
}

/// The arguments with which the worker is started.
pub fn worker_arguments(args: &WorkerArgs) -> (argv: Vec<String>)
    ensures
        words_of(argv@) == arguments_of(args@),
{
    let mut argv: Vec<String> = Vec::new();
    argv.push(String::from_str("background-process"));
    argv.push(args.user.clone());
    argv.push(args.domain.clone());
    argv.push(args.pin.clone());
    argv.push(args.device_id.clone());
    argv.push(flag_word(args.lan_scanning));
    assert(words_of(argv@) =~= arguments_of(args@));
    argv
}

fn push_backslashes(line: &mut String, n: usize)
    ensures
        final(line)@ == old(line)@ + backslashes(n as nat),
{
    let mut k: usize = 0;
    assert(line@ =~= old(line)@ + backslashes(0));
    while k < n
        invariant
            k <= n,
            line@ == old(line)@ + backslashes(k as nat),
        decreases n - k,
    {
        proof {
            reveal_strlit("\\");
            assert("\\"@ =~= seq!['\\']);
            assert(old(line)@ + backslashes(k as nat) + seq!['\\'] =~= old(line)@ + backslashes(
                (k + 1) as nat,
            ));
        }
        line.append("\\");
        k += 1;
    }
}

/// Appends a word to a command line as one quoted argument.
pub fn push_quoted(line: &mut String, word: &str)
    ensures
        final(line)@ == old(line)@ + quoted(word@),
{
    proof {
        reveal_strlit("\"");
        reveal_strlit("\\");
        assert("\""@ =~= seq!['"']);
        assert("\\"@ =~= seq!['\\']);
    }
    let len = word.unicode_len();
    line.append("\"");
    let mut i: usize = 0;
    let mut run: usize = 0;
    while i < len
        invariant
            len == word@.len(),
            i <= len,
            run <= i,
            "\""@ == seq!['"'],
            "\\"@ == seq!['\\'],
            line@ + escaped_from(word@, i as int, run as nat) == old(line)@ + seq!['"']
                + escaped_from(word@, 0, 0),
        decreases len - i,
    {
        let c = word.get_char(i);
        let ghost before = line@;
        let ghost rest = escaped_from(word@, i + 1, if c == '\\' {
            (run + 1) as nat
        } else {
            0nat
        });
        if c == '\\' {
            line.append("\\");
            assert(line@ + rest =~= before + (seq!['\\'] + rest));
            run += 1;
        } else if c == '"' {
            push_backslashes(line, run + 1);
            line.append("\"");
            assert(line@ + rest =~= before + (backslashes((run + 1) as nat) + seq!['"'] + rest));
            run = 0;
        } else {
            let one = word.substring_char(i, i + 1);
            assert(one@ =~= seq![word@[i as int]]);
            line.append(one);
            assert(line@ + rest =~= before + (seq![word@[i as int]] + rest));
            run = 0;
        }
        i += 1;
    }
    push_backslashes(line, run);
    line.append("\"");
    assert(line@ =~= old(line)@ + quoted(word@));
}

/// The command line with which the worker is started where a process is
/// created from one line of text: the program and the worker's arguments,
/// each of them quoted.
pub fn worker_command_line(exe: &str, args: &WorkerArgs) -> (line: String)
    ensures
        line@ == command_line_of(exe@, args@),
{
    proof {
        reveal_strlit(" ");
        assert(" "@ =~= seq![' ']);
    }
    let mut line = String::new();
    push_quoted(&mut line, exe);
    line.append(" ");
    push_quoted(&mut line, "background-process");
    line.append(" ");
    push_quoted(&mut line, args.user.as_str());
    line.append(" ");
    push_quoted(&mut line, args.domain.as_str());
    line.append(" ");
    push_quoted(&mut line, args.pin.as_str());
    line.append(" ");
    push_quoted(&mut line, args.device_id.as_str());
    line.append(" ");
    let word = flag_word(args.lan_scanning);
    push_quoted(&mut line, word.as_str());
    assert(line@ =~= command_line_of(exe@, args@));
    line
}

/// The command line of [`worker_command_line`] as the wide string that
/// process creation takes, or an error where one of its parts holds a NUL
/// character.
pub fn wide_command_line(exe: &str, args: &WorkerArgs) -> (r: Result<Vec<u16>, LaunchError>)
    ensures
        match r {
            Ok(units) => units@ == wide_text(command_line_of(exe@, args@)) && !command_line_of(
                exe@,
                args@,
            ).contains('\0'),
            Err(e) => e == LaunchError::InteriorNul && command_line_of(exe@, args@).contains('\0'),
        },
{
    let line = worker_command_line(exe, args);
    proof {
        let last = line@.len() - 1;
        assert(line@[last] == '"');
        assert(line@[last] != '\0');
        if line@.contains('\0') {
            let i = choose|i: int| 0 <= i < line@.len() && line@[i] == '\0';
            assert(0 <= i < line@.len() - 1 && line@[i] == '\0');
        }
    }
    match to_wide(line.as_str()) {
        Some(units) => Ok(units),
        None => Err(LaunchError::InteriorNul),
    }
}

/// Reads an argument vector, the program's name first.
pub fn worker_reentry(argv: &Vec<String>) -> (r: Result<Option<WorkerArgs>, InvalidArguments>)
    ensures
        match r {
            Ok(Some(args)) => reentry_of(words_of(argv@)) == Ok::<
                Option<WorkerArgsView>,
                InvalidArguments,
            >(Some(args@)),
            Ok(None) => reentry_of(words_of(argv@)) == Ok::<
                Option<WorkerArgsView>,
                InvalidArguments,
            >(None),
            Err(e) => reentry_of(words_of(argv@)) == Err::<
                Option<WorkerArgsView>,
                InvalidArguments,
            >(e),
        },
{
    let command = String::from_str("background-process");
    if argv.len() > 1 && argv[1] == command {
        if argv.len() == 7 {
            let yes = String::from_str("true");
            Ok(
                Some(
                    WorkerArgs {
                        user: argv[2].clone(),
                        domain: argv[3].clone(),
                        pin: argv[4].clone(),
                        device_id: argv[5].clone(),
                        lan_scanning: argv[6] == yes,
                    },
                ),
            )
        } else {
            Err(InvalidArguments { count: argv.len() })
        }
    } else {
        Ok(None)
    }
}

/// An argument vector made of a program's name and the arguments of a start
/// is read back as that start: order and values of the five parameters are
/// kept, the flag too.
pub proof fn lemma_arguments_round_trip(exe: Seq<char>, a: WorkerArgsView)
    ensures
        reentry_of(seq![exe] + arguments_of(a)) == Ok::<Option<WorkerArgsView>, InvalidArguments>(
            Some(a),
        ),
{
    reveal_strlit("true");
    reveal_strlit("false");
    let words = seq![exe] + arguments_of(a);
    assert(words.len() == 7);
    assert(words[1] == worker_command());
    assert(words[2] == a.user);
    assert(words[3] == a.domain);
    assert(words[4] == a.pin);
    assert(words[5] == a.device_id);
    assert(words[6] == flag_text(a.lan_scanning));
    assert("true"@.len() != "false"@.len());
    assert(flag_of(flag_text(a.lan_scanning)) == a.lan_scanning);
}

/// The record that the launcher writes once the worker's identity is known:
/// the worker's identity, the session it will manage, no success and no
/// network activity yet.
pub fn start_record(pid: u32, handle: Option<u64>, user: &str, domain: &str) -> (state: State)
    ensures
        state@ == launched_state(pid, handle, user@, domain@),
{
    State {
        pid: Some(pid),
        handle,
        is_success: false,
        connected_domain: String::from_str(domain),
        connected_user: String::from_str(user),
        last_network_activity: String::new(),
    }
}

/// The identifier under which the device reports, from the machine's own
/// identifier, taken as empty where the machine has none.
pub fn device_identity(machine: Option<String>, device_id: &str) -> (id: String)
    ensures
        id@ == device_identity_of(machine_text(machine), device_id@),
{
    let mut id = match machine {
        Some(m) => m,
        None => String::new(),
    };
    id.append("/");
    id.append(device_id);
    id
}

/// The identifier under which this device reports: this machine's own
/// identifier, or the empty text where it has none, a slash, and
/// `device_id`.
pub fn local_device_identity(device_id: &str) -> (id: String)
    ensures
        exists|machine: Seq<char>| id@ == device_identity_of(machine, device_id@),
{
    let machine = machine_identifier();
    let ghost m = machine_text(machine);
    let id = device_identity(machine, device_id);
    assert(id@ == device_identity_of(m, device_id@));
    id
}

} // verus!
