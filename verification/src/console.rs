//! The Touch349 serial console: line editing of raw input bytes, parsing of
//! command lines, and the two-step (armed, expiring) file deletion.

use vstd::prelude::*;

use crate::text::push_char;

verus! {

/// Longest command line kept; further characters are dropped.
pub const CONSOLE_LINE_MAX: usize = 96;

/// Characters that `str::trim` removes: Unicode White_Space.
pub open spec fn is_whitespace(c: char) -> bool {
    let v = c as int;
    (9 <= v <= 13) || v == 32 || v == 0x85 || v == 0xa0 || v == 0x1680 || (0x2000 <= v <= 0x200a)
        || v == 0x2028 || v == 0x2029 || v == 0x202f || v == 0x205f || v == 0x3000
}

fn whitespace(c: char) -> (r: bool)
    ensures
        r == is_whitespace(c),
{
    let v = c as u32;
    (9 <= v && v <= 13) || v == 32 || v == 0x85 || v == 0xa0 || v == 0x1680 || (0x2000 <= v && v
        <= 0x200a) || v == 0x2028 || v == 0x2029 || v == 0x202f || v == 0x205f || v == 0x3000
}

/// Index of the first non-whitespace character at or after `from`.
pub open spec fn first_content(s: Seq<char>, from: int) -> int
    decreases s.len() - from,
{
    if from >= s.len() || !is_whitespace(s[from]) {
        from
    } else {
        first_content(s, from + 1)
    }
}

/// One past the last non-whitespace character before `to`.
pub open spec fn last_content(s: Seq<char>, to: int) -> int
    decreases to,
{
    if to <= 0 || !is_whitespace(s[to - 1]) {
        to
    } else {
        last_content(s, to - 1)
    }
}

/// `s` without leading and trailing whitespace (`str::trim`).
pub open spec fn trimmed(s: Seq<char>) -> Seq<char> {
    let a = first_content(s, 0);
    let b = last_content(s, s.len() as int);
    if a >= b {
        Seq::empty()
    } else {
        s.subrange(a, b)
    }
}

proof fn lemma_first_content(s: Seq<char>, from: int)
    requires
        0 <= from <= s.len(),
    ensures
        from <= first_content(s, from) <= s.len(),
        forall|k: int| from <= k < first_content(s, from) ==> is_whitespace(#[trigger] s[k]),
        first_content(s, from) < s.len() ==> !is_whitespace(s[first_content(s, from)]),
    decreases s.len() - from,
{
    if from < s.len() && is_whitespace(s[from]) {
        lemma_first_content(s, from + 1);
    }
}

proof fn lemma_last_content(s: Seq<char>, to: int)
    requires
        0 <= to <= s.len(),
    ensures
        0 <= last_content(s, to) <= to,
    decreases to,
{
    if to > 0 && is_whitespace(s[to - 1]) {
        lemma_last_content(s, to - 1);
    }
}

/// The characters of `s` between `a` and `b`.
fn slice_chars(s: &str, a: usize, b: usize) -> (r: String)
    requires
        a <= b <= s@.len(),
    ensures
        r@ == s@.subrange(a as int, b as int),
{
    String::from_str(s.substring_char(a, b))
}

/// `str::trim`.
pub fn trim(s: &str) -> (r: String)
    ensures
        r@ == trimmed(s@),
{
    let n = s.unicode_len();
    let mut a: usize = 0;
    while a < n && whitespace(s.get_char(a))
        invariant
            n == s@.len(),
            a <= n,
            first_content(s@, 0) == first_content(s@, a as int),
        decreases n - a,
    {
        a = a + 1;
    }
    let mut b: usize = n;
    while b > 0 && whitespace(s.get_char(b - 1))
        invariant
            n == s@.len(),
            b <= n,
            last_content(s@, n as int) == last_content(s@, b as int),
        decreases b,
    {
        b = b - 1;
    }
    if a >= b {
        return String::new();
    }
    slice_chars(s, a, b)
}

/// What a console line asks for.
#[derive(Clone, Copy, Debug, PartialEq, Eq, Structural)]
pub enum CommandKind {
    Help,
    Status,
    WifiScan,
    SdScan,
    Files,
    PlayStart,
    PlayStop,
    PlayClose,
    RecordStart,
    RecordStop,
    FileStat,
    FileRead,
    DeletePrepare,
    DeleteConfirm,
    PlayOpen,
    Unknown,
}

/// A parsed console line: the command and, for file commands, the name.
#[derive(Clone, Debug)]
pub struct ConsoleCommand {
    pub kind: CommandKind,
    pub name: String,
}

/// `s` starts with `p`.
pub open spec fn starts_with(s: Seq<char>, p: Seq<char>) -> bool {
    s.len() >= p.len() && s.subrange(0, p.len() as int) == p
}

/// `s` with every leading copy of `p` removed (`str::trim_start_matches`).
pub open spec fn strip_all(s: Seq<char>, p: Seq<char>) -> Seq<char>
    decreases s.len(),
{
    if p.len() > 0 && starts_with(s, p) {
        strip_all(s.subrange(p.len() as int, s.len() as int), p)
    } else {
        s
    }
}

/// The argument after a `prefix` command: copies of the prefix removed, then
/// trimmed.
pub open spec fn argument(line: Seq<char>, prefix: Seq<char>) -> Seq<char> {
    trimmed(strip_all(line, prefix))
}

/// The exact command words.
pub open spec fn word_command(c: Seq<char>) -> CommandKind {
    if c == "help"@ {
        CommandKind::Help
    } else if c == "status"@ {
        CommandKind::Status
    } else if c == "wifi scan"@ {
        CommandKind::WifiScan
    } else if c == "sd scan"@ {
        CommandKind::SdScan
    } else if c == "files"@ {
        CommandKind::Files
    } else if c == "play start"@ {
        CommandKind::PlayStart
    } else if c == "play stop"@ {
        CommandKind::PlayStop
    } else if c == "play close"@ {
        CommandKind::PlayClose
    } else if c == "record start"@ {
        CommandKind::RecordStart
    } else if c == "record stop"@ {
        CommandKind::RecordStop
    } else {
        CommandKind::Unknown
    }
}

/// The command named by a trimmed line, and its argument.
pub open spec fn spec_command(c: Seq<char>) -> (CommandKind, Seq<char>) {
    if word_command(c) != CommandKind::Unknown {
        (word_command(c), Seq::empty())
    } else if starts_with(c, "file stat "@) {
        (CommandKind::FileStat, argument(c, "file stat "@))
    } else if starts_with(c, "file read "@) {
        (CommandKind::FileRead, argument(c, "file read "@))
    } else if starts_with(c, "file delete prepare "@) {
        (CommandKind::DeletePrepare, argument(c, "file delete prepare "@))
    } else if starts_with(c, "file delete confirm "@) {
        (CommandKind::DeleteConfirm, argument(c, "file delete confirm "@))
    } else if starts_with(c, "play open "@) {
        (CommandKind::PlayOpen, argument(c, "play open "@))
    } else {
        (CommandKind::Unknown, Seq::empty())
    }
}

/// The commands that are a whole word, without a file name.
pub open spec fn is_word_kind(k: CommandKind) -> bool {
    match k {
        CommandKind::Help | CommandKind::Status | CommandKind::WifiScan | CommandKind::SdScan
        | CommandKind::Files | CommandKind::PlayStart | CommandKind::PlayStop
        | CommandKind::PlayClose | CommandKind::RecordStart | CommandKind::RecordStop => true,
        _ => false,
    }
}

/// Distinct command words give distinct commands: two trimmed lines that
/// parse to the same word command are the same line, so no command word is
/// read as another's.
pub proof fn command_words_are_distinct(a: Seq<char>, b: Seq<char>)
    requires
        spec_command(a).0 == spec_command(b).0,
        is_word_kind(spec_command(a).0),
    ensures
        a == b,
{
}

/// Each console word parses to its own command.
pub proof fn command_words_name_their_commands()
    ensures
        spec_command("help"@) == (CommandKind::Help, Seq::<char>::empty()),
        spec_command("status"@) == (CommandKind::Status, Seq::<char>::empty()),
        spec_command("wifi scan"@) == (CommandKind::WifiScan, Seq::<char>::empty()),
        spec_command("sd scan"@) == (CommandKind::SdScan, Seq::<char>::empty()),
        spec_command("files"@) == (CommandKind::Files, Seq::<char>::empty()),
        spec_command("play start"@) == (CommandKind::PlayStart, Seq::<char>::empty()),
        spec_command("play stop"@) == (CommandKind::PlayStop, Seq::<char>::empty()),
        spec_command("play close"@) == (CommandKind::PlayClose, Seq::<char>::empty()),
        spec_command("record start"@) == (CommandKind::RecordStart, Seq::<char>::empty()),
        spec_command("record stop"@) == (CommandKind::RecordStop, Seq::<char>::empty()),
{
    reveal_strlit("help");
    reveal_strlit("status");
    reveal_strlit("wifi scan");
    reveal_strlit("sd scan");
    reveal_strlit("files");
    reveal_strlit("play start");
    reveal_strlit("play stop");
    reveal_strlit("play close");
    reveal_strlit("record start");
    reveal_strlit("record stop");
    assert("help"@.len() == 4 && "status"@.len() == 6 && "wifi scan"@.len() == 9 && "sd scan"@.len()
        == 7 && "files"@.len() == 5 && "play start"@.len() == 10 && "play stop"@.len() == 9
        && "play close"@.len() == 10 && "record start"@.len() == 12 && "record stop"@.len() == 11);
    assert("help"@[0] == 'h' && "status"@[0] == 's' && "wifi scan"@[0] == 'w' && "sd scan"@[0]
        == 's' && "files"@[0] == 'f' && "play start"@[0] == 'p' && "play stop"@[0] == 'p'
        && "play close"@[0] == 'p' && "record start"@[0] == 'r' && "record stop"@[0] == 'r');
    assert("play start"@[5] == 's' && "play close"@[5] == 'c');
}

/// A command that names a file is read from its own prefix: a line parsed as
/// `file stat`, `file read`, `file delete prepare`, `file delete confirm` or
/// `play open` starts with that prefix, and its name is what follows it
/// (copies of the prefix and surrounding whitespace removed).
pub proof fn file_commands_keep_their_prefix(c: Seq<char>)
    ensures
        spec_command(c).0 == CommandKind::FileStat ==> starts_with(c, "file stat "@)
            && spec_command(c).1 == argument(c, "file stat "@),
        spec_command(c).0 == CommandKind::FileRead ==> starts_with(c, "file read "@)
            && spec_command(c).1 == argument(c, "file read "@),
        spec_command(c).0 == CommandKind::DeletePrepare ==> starts_with(
            c,
            "file delete prepare "@,
        ) && spec_command(c).1 == argument(c, "file delete prepare "@),
        spec_command(c).0 == CommandKind::DeleteConfirm ==> starts_with(
            c,
            "file delete confirm "@,
        ) && spec_command(c).1 == argument(c, "file delete confirm "@),
        spec_command(c).0 == CommandKind::PlayOpen ==> starts_with(c, "play open "@)
            && spec_command(c).1 == argument(c, "play open "@),
        is_word_kind(spec_command(c).0) ==> spec_command(c).1.len() == 0,
{
}

fn matches_at(s: &str, at: usize, p: &str) -> (r: bool)
    requires
        at <= s@.len(),
    ensures
        r == starts_with(s@.subrange(at as int, s@.len() as int), p@),
{
    let n = s.unicode_len();
    let k = p.unicode_len();
    if n - at < k {
        return false;
    }
    let mut i: usize = 0;
    while i < k
        invariant
            n == s@.len(),
            k == p@.len(),
            at + k <= n,
            i <= k,
            forall|j: int| 0 <= j < i ==> #[trigger] s@[at + j] == p@[j],
        decreases k - i,
    {
        if s.get_char(at + i) != p.get_char(i) {
            assert(s@.subrange(at as int, n as int).subrange(0, k as int)[i as int] != p@[i as int]);
            return false;
        }
        i = i + 1;
    }
    assert forall|j: int| 0 <= j < k implies #[trigger] s@.subrange(at as int, n as int).subrange(
        0,
        k as int,
    )[j] == p@[j] by {
        assert(s@[at + j] == p@[j]);
    }
    assert(s@.subrange(at as int, n as int).subrange(0, k as int) =~= p@);
    true
}

/// The argument of a `prefix` command (`trim_start_matches`, then `trim`).
fn argument_of(line: &str, prefix: &str) -> (r: String)
    requires
        prefix@.len() > 0,
    ensures
        r@ == argument(line@, prefix@),
{
    let n = line.unicode_len();
    let k = prefix.unicode_len();
    let mut at: usize = 0;
    assert(line@.subrange(0, n as int) =~= line@);
    while n - at >= k && matches_at(line, at, prefix)
        invariant
            n == line@.len(),
            k == prefix@.len(),
            k > 0,
            at <= n,
            strip_all(line@, prefix@) == strip_all(line@.subrange(at as int, n as int), prefix@),
        decreases n - at,
    {
        let ghost rest = line@.subrange(at as int, n as int);
        assert(rest.subrange(k as int, rest.len() as int) =~= line@.subrange(
            (at + k) as int,
            n as int,
        ));
        at = at + k;
    }
    proof {
        let rest = line@.subrange(at as int, n as int);
        if n - at < k {
            assert(!starts_with(rest, prefix@));
        }
    }
    let rest = slice_chars(line, at, n);
    trim(rest.as_str())
}

/// Parses one console line; `None` when it holds only whitespace.
pub fn parse_console_command(line: &str) -> (r: Option<ConsoleCommand>)
    ensures
        trimmed(line@).len() == 0 ==> r is None,
        trimmed(line@).len() > 0 ==> (r matches Some(c) && c.kind == spec_command(
            trimmed(line@),
        ).0 && c.name@ == spec_command(trimmed(line@)).1),
{
    let c = trim(line);
    let cs = c.as_str();
    if cs.unicode_len() == 0 {
        return None;
    }
    let kind = if c == String::from_str("help") {
        CommandKind::Help
    } else if c == String::from_str("status") {
        CommandKind::Status
    } else if c == String::from_str("wifi scan") {
        CommandKind::WifiScan
    } else if c == String::from_str("sd scan") {
        CommandKind::SdScan
    } else if c == String::from_str("files") {
        CommandKind::Files
    } else if c == String::from_str("play start") {
        CommandKind::PlayStart
    } else if c == String::from_str("play stop") {
        CommandKind::PlayStop
    } else if c == String::from_str("play close") {
        CommandKind::PlayClose
    } else if c == String::from_str("record start") {
        CommandKind::RecordStart
    } else if c == String::from_str("record stop") {
        CommandKind::RecordStop
    } else {
        CommandKind::Unknown
    };
    if kind != CommandKind::Unknown {
        return Some(ConsoleCommand { kind, name: String::new() });
    }
    proof {
        reveal_strlit("file stat ");
        reveal_strlit("file read ");
        reveal_strlit("file delete prepare ");
        reveal_strlit("file delete confirm ");
        reveal_strlit("play open ");
    }
    assert(cs@.subrange(0, cs@.len() as int) =~= cs@);
    if matches_at(cs, 0, "file stat ") {
        Some(ConsoleCommand { kind: CommandKind::FileStat, name: argument_of(cs, "file stat ") })
    } else if matches_at(cs, 0, "file read ") {
        Some(ConsoleCommand { kind: CommandKind::FileRead, name: argument_of(cs, "file read ") })
    } else if matches_at(cs, 0, "file delete prepare ") {
        Some(
            ConsoleCommand {
                kind: CommandKind::DeletePrepare,
                name: argument_of(cs, "file delete prepare "),
            },
        )
    } else if matches_at(cs, 0, "file delete confirm ") {
        Some(
            ConsoleCommand {
                kind: CommandKind::DeleteConfirm,
                name: argument_of(cs, "file delete confirm "),
            },
        )
    } else if matches_at(cs, 0, "play open ") {
        Some(ConsoleCommand { kind: CommandKind::PlayOpen, name: argument_of(cs, "play open ") })
    } else {
        Some(ConsoleCommand { kind: CommandKind::Unknown, name: String::new() })
    }
}

/// The line being typed on the console.
pub struct ConsoleLine {
    pub chars: Vec<char>,
}

/// Whether a byte is kept in the line: printable ASCII or space.
pub open spec fn typed(byte: u8) -> bool {
    32 <= byte <= 126
}

/// The line after one byte and, when the byte ends a non-empty line, that
/// line: line breaks end lines, backspace and delete remove the last
/// character, other printable bytes are kept while the line is shorter than
/// 96 characters, and everything else is ignored.
pub open spec fn line_step(line: Seq<char>, byte: u8) -> (Seq<char>, Option<Seq<char>>) {
    if byte == 13 || byte == 10 {
        if line.len() > 0 {
            (Seq::empty(), Some(line))
        } else {
            (line, None)
        }
    } else if byte == 8 || byte == 127 {
        (if line.len() > 0 {
            line.drop_last()
        } else {
            line
        }, None)
    } else if typed(byte) {
        (if line.len() < 96 {
            line.push(byte as char)
        } else {
            line
        }, None)
    } else {
        (line, None)
    }
}

/// Line state and completed lines after the first `k` bytes.
pub open spec fn line_fold(start: Seq<char>, bytes: Seq<u8>, k: nat) -> (Seq<char>, Seq<Seq<char>>)
    decreases k,
{
    if k == 0 {
        (start, Seq::empty())
    } else {
        let prev = line_fold(start, bytes, (k - 1) as nat);
        let step = line_step(prev.0, bytes[k - 1]);
        (step.0, match step.1 {
            Some(l) => prev.1.push(l),
            None => prev.1,
        })
    }
}

/// The line holds at most 96 printable characters.
pub open spec fn line_ok(line: Seq<char>) -> bool {
    line.len() <= 96 && forall|i: int| 0 <= i < line.len() ==> ' ' <= #[trigger] line[i] <= '~'
}

impl ConsoleLine {
    pub fn new() -> (l: Self)
        ensures
            l.chars@.len() == 0,
    {
        ConsoleLine { chars: Vec::new() }
    }

    /// Feeds bytes read from the console; returns the lines completed by
    /// them, in order.
    pub fn feed(&mut self, bytes: &[u8]) -> (lines: Vec<String>)
        requires
            line_ok(old(self).chars@),
        ensures
            final(self).chars@ == line_fold(old(self).chars@, bytes@, bytes@.len()).0,
            lines@.len() == line_fold(old(self).chars@, bytes@, bytes@.len()).1.len(),
            forall|i: int|
                0 <= i < lines@.len() ==> #[trigger] lines@[i]@ == line_fold(
                    old(self).chars@,
                    bytes@,
                    bytes@.len(),
                ).1[i],
            line_ok(final(self).chars@),
    {
        let mut lines: Vec<String> = Vec::new();
        let mut i: usize = 0;
        while i < bytes.len()
            invariant
                i <= bytes@.len(),
                self.chars@ == line_fold(old(self).chars@, bytes@, i as nat).0,
                lines@.len() == line_fold(old(self).chars@, bytes@, i as nat).1.len(),
                forall|j: int|
                    0 <= j < lines@.len() ==> #[trigger] lines@[j]@ == line_fold(
                        old(self).chars@,
                        bytes@,
                        i as nat,
                    ).1[j],
                line_ok(self.chars@),
            decreases bytes@.len() - i,
        {
            let byte = bytes[i];
            if byte == 13 || byte == 10 {
                if self.chars.len() > 0 {
                    let mut s = String::new();
                    let mut k: usize = 0;
                    while k < self.chars.len()
                        invariant
                            k <= self.chars@.len(),
                            s@ == self.chars@.take(k as int),
                        decreases self.chars@.len() - k,
                    {
                        push_char(&mut s, self.chars[k]);
                        k = k + 1;
                        assert(s@ =~= self.chars@.take(k as int));
                    }
                    assert(self.chars@.take(k as int) =~= self.chars@);
                    lines.push(s);
                    self.chars = Vec::new();
                }
            } else if byte == 8 || byte == 127 {
                if self.chars.len() > 0 {
                    self.chars.pop();
                }
            } else if 32 <= byte && byte <= 126 {
                if self.chars.len() < CONSOLE_LINE_MAX {
                    self.chars.push(byte as char);
                }
            }
            i = i + 1;
        }
        lines
    }
}

/// Why a console request was refused before touching the card.
#[derive(Clone, Copy, Debug, PartialEq, Eq, Structural)]
pub enum DeleteError {
    /// No file name given.
    NameRequired,
    /// The file is the recording in progress.
    ActiveRecording,
    /// The file is open in the player.
    OpenInPlayer,
    /// No deletion was armed.
    NotArmed,
    /// The armed deletion expired (10 s).
    Expired,
    /// The confirmation names another file.
    NameMismatch,
}

/// What the console answers for a refused deletion; an open WAV is answered
/// differently when confirming (`confirming`) than when preparing.
pub open spec fn delete_message(e: DeleteError, confirming: bool) -> Seq<char> {
    match e {
        DeleteError::NameRequired => "file name is required"@,
        DeleteError::ActiveRecording => "active recording cannot be deleted"@,
        DeleteError::OpenInPlayer => if confirming {
            "open WAV cannot be deleted; send play close"@
        } else {
            "open WAV cannot be deleted; send play stop and open another view"@
        },
        DeleteError::NotArmed => "delete is not armed"@,
        DeleteError::Expired => "delete confirmation expired"@,
        DeleteError::NameMismatch => "delete name does not match armed file"@,
    }
}

impl DeleteError {
    /// The text reported for this error.
    pub fn message(self, confirming: bool) -> (m: &'static str)
        ensures
            m@ == delete_message(self, confirming),
    {
        match self {
            DeleteError::NameRequired => "file name is required",
            DeleteError::ActiveRecording => "active recording cannot be deleted",
            DeleteError::OpenInPlayer => if confirming {
                "open WAV cannot be deleted; send play close"
            } else {
                "open WAV cannot be deleted; send play stop and open another view"
            },
            DeleteError::NotArmed => "delete is not armed",
            DeleteError::Expired => "delete confirmation expired",
            DeleteError::NameMismatch => "delete name does not match armed file",
        }
    }
}

/// A deletion armed by `file delete prepare`, valid until `expires_ms`.
#[derive(Clone, Debug)]
pub struct ArmedDelete {
    pub name: String,
    pub expires_ms: u64,
}

/// The checks shared by both deletion steps: the file is neither being
/// recorded nor open in the player.
pub open spec fn delete_blocked(
    name: Seq<char>,
    recording: bool,
    recording_name: Seq<char>,
    playback_name: Seq<char>,
) -> Option<DeleteError> {
    if recording && recording_name == name {
        Some(DeleteError::ActiveRecording)
    } else if playback_name == name {
        Some(DeleteError::OpenInPlayer)
    } else {
        None
    }
}

/// First step: arm the deletion of `name` for ten seconds (the caller then
/// checks that the name is a file on the card).
pub fn prepare_delete(
    name: &str,
    recording: bool,
    recording_name: &str,
    playback_name: &str,
    now_ms: u64,
) -> (r: Result<ArmedDelete, DeleteError>)
    ensures
        name@.len() == 0 ==> r == Err::<ArmedDelete, DeleteError>(DeleteError::NameRequired),
        name@.len() > 0 && delete_blocked(name@, recording, recording_name@, playback_name@)
            is Some ==> r == Err::<ArmedDelete, DeleteError>(
            delete_blocked(name@, recording, recording_name@, playback_name@)->0,
        ),
        name@.len() > 0 && delete_blocked(name@, recording, recording_name@, playback_name@)
            is None ==> (r matches Ok(a) && a.name@ == name@ && a.expires_ms as int == (if now_ms
            + 10000 > u64::MAX {
            u64::MAX as int
        } else {
            now_ms + 10000
        })),
{
    if name.unicode_len() == 0 {
        return Err(DeleteError::NameRequired);
    }
    let n = String::from_str(name);
    if recording && String::from_str(recording_name) == n {
        return Err(DeleteError::ActiveRecording);
    }
    if String::from_str(playback_name) == n {
        return Err(DeleteError::OpenInPlayer);
    }
    Ok(ArmedDelete { name: n, expires_ms: now_ms.saturating_add(10_000) })
}

/// Second step: the confirmation must come before the deadline, for the
/// armed name, and the file must still be free (the caller then deletes it
/// and disarms).
pub fn confirm_delete(
    armed: &Option<ArmedDelete>,
    name: &str,
    recording: bool,
    recording_name: &str,
    playback_name: &str,
    now_ms: u64,
) -> (r: Result<(), DeleteError>)
    ensures
        armed is None ==> r == Err::<(), DeleteError>(DeleteError::NotArmed),
        armed matches Some(a) ==> r == (if now_ms > a.expires_ms {
            Err::<(), DeleteError>(DeleteError::Expired)
        } else if a.name@ != name@ {
            Err(DeleteError::NameMismatch)
        } else {
            match delete_blocked(name@, recording, recording_name@, playback_name@) {
                Some(e) => Err(e),
                None => Ok(()),
            }
        }),
{
    match armed {
        None => Err(DeleteError::NotArmed),
        Some(a) => {
            if now_ms > a.expires_ms {
                return Err(DeleteError::Expired);
            }
            let n = String::from_str(name);
            if !(a.name == n) {
                return Err(DeleteError::NameMismatch);
            }
            if recording && String::from_str(recording_name) == n {
                return Err(DeleteError::ActiveRecording);
            }
            if String::from_str(playback_name) == n {
                return Err(DeleteError::OpenInPlayer);
            }
            Ok(())
        },
    }
}

} // verus!
