//! The command table and the admin gate.

use crate::text::{str_eq, views};
use crate::types::{UserMessage, UserRoles};
use vstd::prelude::*;
use vstd::string::*;

verus! {

/// One millionth of the nominal volume or speed.
pub type Level = u64;

/// The nominal volume or speed (1.0), in millionths.
pub const UNIT: Level = 1_000_000;

/// Every command of the table.
#[derive(Debug, PartialEq, Eq, Structural, Clone, Copy)]
pub enum Command {
    Info,
    Reverb,
    Queue,
    Play,
    Pause,
    Unpause,
    Skip,
    Stop,
    Nightcore,
    Doom,
    Normal,
    Speedup,
    Slowdown,
    Up,
    Down,
    CodingVolume,
    Quiet,
    PartyVolume,
    RandomSong,
    LastSong,
}

/// A change of volume or speed: to a fixed level, or by a factor of the
/// level in force.
#[derive(Debug, PartialEq, Eq, Structural, Clone, Copy)]
pub enum Change {
    /// Set the level, in millionths.
    Absolute(Level),
    /// Multiply the level by this many hundredths.
    Scale(u64),
}

/// A transition of the output queue that needs no argument.
#[derive(Debug, PartialEq, Eq, Structural, Clone, Copy)]
pub enum Transport {
    Pause,
    Resume,
    Skip,
    Stop,
}

/// What a routed command asks for.
#[derive(Debug)]
pub enum Action {
    /// Nothing: unknown command, missing argument, or a gated command from
    /// somebody who is no admin.
    Ignore,
    /// Report the current song in chat.
    ShowCurrent,
    /// Ask the song service about `song_id` and log the answer.
    LookupInfo { song_id: String },
    /// Put `song_id` on the playlist.
    Enqueue { song_id: String },
    /// Look `song_id` up, record it, and play it for `requested_by`.
    Play { song_id: String, requested_by: String },
    /// Play the stored audio of `song_id` for `requested_by`.
    Reverb { song_id: String, requested_by: String },
    /// Pause, resume, skip or stop.
    Transport(Transport),
    /// Change the playback speed.
    SetSpeed(Change),
    /// Change the volume.
    SetVolume(Change),
    /// Pick a song at random and announce it.
    RandomSong,
    /// Announce the song played last.
    LastSong,
}

/// Mathematical value of an `Action`.
pub enum ActionView {
    Ignore,
    ShowCurrent,
    LookupInfo { song_id: Seq<char> },
    Enqueue { song_id: Seq<char> },
    Play { song_id: Seq<char>, requested_by: Seq<char> },
    Reverb { song_id: Seq<char>, requested_by: Seq<char> },
    Transport(Transport),
    SetSpeed(Change),
    SetVolume(Change),
    RandomSong,
    LastSong,
}

impl View for Action {
    type V = ActionView;

    open spec fn view(&self) -> ActionView {
        match self {
            Action::Ignore => ActionView::Ignore,
            Action::ShowCurrent => ActionView::ShowCurrent,
            Action::LookupInfo { song_id } => ActionView::LookupInfo { song_id: song_id@ },
            Action::Enqueue { song_id } => ActionView::Enqueue { song_id: song_id@ },
            Action::Play { song_id, requested_by } => ActionView::Play {
                song_id: song_id@,
                requested_by: requested_by@,
            },
            Action::Reverb { song_id, requested_by } => ActionView::Reverb {
                song_id: song_id@,
                requested_by: requested_by@,
            },
            Action::Transport(t) => ActionView::Transport(*t),
            Action::SetSpeed(c) => ActionView::SetSpeed(*c),
            Action::SetVolume(c) => ActionView::SetVolume(*c),
            Action::RandomSong => ActionView::RandomSong,
            Action::LastSong => ActionView::LastSong,
        }
    }
}

/// The literal that stands for `c` in chat, leading `!` included.
pub open spec fn literal(c: Command) -> Seq<char> {
    match c {
        Command::Info => "!info"@,
        Command::Reverb => "!reverb"@,
        Command::Queue => "!queue"@,
        Command::Play => "!play"@,
        Command::Pause => "!pause"@,
        Command::Unpause => "!unpause"@,
        Command::Skip => "!skip"@,
        Command::Stop => "!stop"@,
        Command::Nightcore => "!nightcore"@,
        Command::Doom => "!doom"@,
        Command::Normal => "!normal"@,
        Command::Speedup => "!speedup"@,
        Command::Slowdown => "!slowdown"@,
        Command::Up => "!up"@,
        Command::Down => "!down"@,
        Command::CodingVolume => "!coding_volume"@,
        Command::Quiet => "!quiet"@,
        Command::PartyVolume => "!party_volume"@,
        Command::RandomSong => "!random_song"@,
        Command::LastSong => "!last_song"@,
    }
}

/// Whether only an admin may issue `c`. Everything but `!info` is gated.
pub open spec fn admin_required(c: Command) -> bool {
    c != Command::Info
}

/// The commands in the order of the table.
pub open spec fn all_commands() -> Seq<Command> {
    seq![
        Command::Info,
        Command::Reverb,
        Command::Queue,
        Command::Play,
        Command::Pause,
        Command::Unpause,
        Command::Skip,
        Command::Stop,
        Command::Nightcore,
        Command::Doom,
        Command::Normal,
        Command::Speedup,
        Command::Slowdown,
        Command::Up,
        Command::Down,
        Command::CodingVolume,
        Command::Quiet,
        Command::PartyVolume,
        Command::RandomSong,
        Command::LastSong,
    ]
}

/// Whether `token` is the literal of some command.
pub open spec fn in_table(token: Seq<char>) -> bool {
    exists|c: Command| literal(c) == token
}

/// The command whose literal is `token`, by exact match.
pub open spec fn lookup(token: Seq<char>) -> Option<Command> {
    if in_table(token) {
        Some(choose|c: Command| literal(c) == token)
    } else {
        None
    }
}

/// One row of the command table.
#[derive(Debug)]
pub struct CommandEntry {
    pub literal: String,
    pub admin_required: bool,
    pub command: Command,
}

impl CommandEntry {
    /// The row says of its command what `literal` and `admin_required` say.
    pub open spec fn matches_table(&self) -> bool {
        &&& self.literal@ == literal(self.command)
        &&& self.admin_required == admin_required(self.command)
    }
}


/// The action that command `c` stands for, given its arguments and sender.
pub open spec fn action_of(c: Command, args: Seq<Seq<char>>, user_name: Seq<char>) -> ActionView {
    match c {
        Command::Info => if args.len() > 0 {
            ActionView::LookupInfo { song_id: args[0] }
        } else {
            ActionView::ShowCurrent
        },
        Command::Reverb => if args.len() > 0 {
            ActionView::Reverb { song_id: args[0], requested_by: user_name }
        } else {
            ActionView::Ignore
        },
        Command::Queue => if args.len() > 0 {
            ActionView::Enqueue { song_id: args[0] }
        } else {
            ActionView::Ignore
        },
        Command::Play => if args.len() > 0 {
            ActionView::Play { song_id: args[0], requested_by: user_name }
        } else {
            ActionView::Ignore
        },
        Command::Pause => ActionView::Transport(Transport::Pause),
        Command::Unpause => ActionView::Transport(Transport::Resume),
        Command::Skip => ActionView::Transport(Transport::Skip),
        Command::Stop => ActionView::Transport(Transport::Stop),
        Command::Nightcore => ActionView::SetSpeed(Change::Absolute(1_500_000)),
        Command::Doom => ActionView::SetSpeed(Change::Absolute(500_000)),
        Command::Normal => ActionView::SetSpeed(Change::Absolute(1_000_000)),
        Command::Speedup => ActionView::SetSpeed(Change::Scale(125)),
        Command::Slowdown => ActionView::SetSpeed(Change::Scale(75)),
        Command::Up => ActionView::SetVolume(Change::Scale(120)),
        Command::Down => ActionView::SetVolume(Change::Scale(80)),
        Command::CodingVolume => ActionView::SetVolume(Change::Absolute(100_000)),
        Command::Quiet => ActionView::SetVolume(Change::Absolute(100_000)),
        Command::PartyVolume => ActionView::SetVolume(Change::Absolute(1_000_000)),
        Command::RandomSong => ActionView::RandomSong,
        Command::LastSong => ActionView::LastSong,
    }
}

/// What the router decides for a first token, its arguments and its sender,
/// with `admins` as the configured admin identities.
pub open spec fn route_spec(
    admins: Seq<Seq<char>>,
    command: Seq<char>,
    args: Seq<Seq<char>>,
    user_name: Seq<char>,
) -> ActionView {
    match lookup(command) {
        None => ActionView::Ignore,
        Some(c) => if admin_required(c) && !admins.contains(user_name) {
            ActionView::Ignore
        } else {
            action_of(c, args, user_name)
        },
    }
}

/// The admin identities that are configured when nothing else is.
pub open spec fn default_admins() -> Seq<Seq<char>> {
    seq!["beginbot"@, "beginbotbot"@]
}

/// Every command occurs in `all_commands`.
pub proof fn lemma_all_commands_complete(c: Command)
    ensures
        exists|i: int| 0 <= i < all_commands().len() && all_commands()[i] == c,
{
    let a = all_commands();
    match c {
        Command::Info => assert(a[0] == c),
        Command::Reverb => assert(a[1] == c),
        Command::Queue => assert(a[2] == c),
        Command::Play => assert(a[3] == c),
        Command::Pause => assert(a[4] == c),
        Command::Unpause => assert(a[5] == c),
        Command::Skip => assert(a[6] == c),
        Command::Stop => assert(a[7] == c),
        Command::Nightcore => assert(a[8] == c),
        Command::Doom => assert(a[9] == c),
        Command::Normal => assert(a[10] == c),
        Command::Speedup => assert(a[11] == c),
        Command::Slowdown => assert(a[12] == c),
        Command::Up => assert(a[13] == c),
        Command::Down => assert(a[14] == c),
        Command::CodingVolume => assert(a[15] == c),
        Command::Quiet => assert(a[16] == c),
        Command::PartyVolume => assert(a[17] == c),
        Command::RandomSong => assert(a[18] == c),
        Command::LastSong => assert(a[19] == c),
    }
}

/// Brings the characters of every command literal into scope.
proof fn reveal_literals()
    ensures
        forall|c: Command| #[trigger] literal(c).len() >= 3 && literal(c)[0] == '!',
        literal(Command::Info) == seq!['!', 'i', 'n', 'f', 'o'],
        literal(Command::Reverb) == seq!['!', 'r', 'e', 'v', 'e', 'r', 'b'],
        literal(Command::Queue) == seq!['!', 'q', 'u', 'e', 'u', 'e'],
        literal(Command::Play) == seq!['!', 'p', 'l', 'a', 'y'],
        literal(Command::Pause) == seq!['!', 'p', 'a', 'u', 's', 'e'],
        literal(Command::Unpause) == seq!['!', 'u', 'n', 'p', 'a', 'u', 's', 'e'],
        literal(Command::Skip) == seq!['!', 's', 'k', 'i', 'p'],
        literal(Command::Stop) == seq!['!', 's', 't', 'o', 'p'],
        literal(Command::Nightcore) == seq!['!', 'n', 'i', 'g', 'h', 't', 'c', 'o', 'r', 'e'],
        literal(Command::Doom) == seq!['!', 'd', 'o', 'o', 'm'],
        literal(Command::Normal) == seq!['!', 'n', 'o', 'r', 'm', 'a', 'l'],
        literal(Command::Speedup) == seq!['!', 's', 'p', 'e', 'e', 'd', 'u', 'p'],
        literal(Command::Slowdown) == seq!['!', 's', 'l', 'o', 'w', 'd', 'o', 'w', 'n'],
        literal(Command::Up) == seq!['!', 'u', 'p'],
        literal(Command::Down) == seq!['!', 'd', 'o', 'w', 'n'],
        literal(Command::CodingVolume) == seq![
            '!', 'c', 'o', 'd', 'i', 'n', 'g', '_', 'v', 'o', 'l', 'u', 'm', 'e',
        ],
        literal(Command::Quiet) == seq!['!', 'q', 'u', 'i', 'e', 't'],
        literal(Command::PartyVolume) == seq![
            '!', 'p', 'a', 'r', 't', 'y', '_', 'v', 'o', 'l', 'u', 'm', 'e',
        ],
        literal(Command::RandomSong) == seq![
            '!', 'r', 'a', 'n', 'd', 'o', 'm', '_', 's', 'o', 'n', 'g',
        ],
        literal(Command::LastSong) == seq!['!', 'l', 'a', 's', 't', '_', 's', 'o', 'n', 'g'],
{
    reveal_strlit("!info");
    reveal_strlit("!reverb");
    reveal_strlit("!queue");
    reveal_strlit("!play");
    reveal_strlit("!pause");
    reveal_strlit("!unpause");
    reveal_strlit("!skip");
    reveal_strlit("!stop");
    reveal_strlit("!nightcore");
    reveal_strlit("!doom");
    reveal_strlit("!normal");
    reveal_strlit("!speedup");
    reveal_strlit("!slowdown");
    reveal_strlit("!up");
    reveal_strlit("!down");
    reveal_strlit("!coding_volume");
    reveal_strlit("!quiet");
    reveal_strlit("!party_volume");
    reveal_strlit("!random_song");
    reveal_strlit("!last_song");
    assert(literal(Command::Info) =~= seq!['!', 'i', 'n', 'f', 'o']);
    assert(literal(Command::Reverb) =~= seq!['!', 'r', 'e', 'v', 'e', 'r', 'b']);
    assert(literal(Command::Queue) =~= seq!['!', 'q', 'u', 'e', 'u', 'e']);
    assert(literal(Command::Play) =~= seq!['!', 'p', 'l', 'a', 'y']);
    assert(literal(Command::Pause) =~= seq!['!', 'p', 'a', 'u', 's', 'e']);
    assert(literal(Command::Unpause) =~= seq!['!', 'u', 'n', 'p', 'a', 'u', 's', 'e']);
    assert(literal(Command::Skip) =~= seq!['!', 's', 'k', 'i', 'p']);
    assert(literal(Command::Stop) =~= seq!['!', 's', 't', 'o', 'p']);
    assert(literal(Command::Nightcore) =~= seq![
        '!', 'n', 'i', 'g', 'h', 't', 'c', 'o', 'r', 'e',
    ]);
    assert(literal(Command::Doom) =~= seq!['!', 'd', 'o', 'o', 'm']);
    assert(literal(Command::Normal) =~= seq!['!', 'n', 'o', 'r', 'm', 'a', 'l']);
    assert(literal(Command::Speedup) =~= seq!['!', 's', 'p', 'e', 'e', 'd', 'u', 'p']);
    assert(literal(Command::Slowdown) =~= seq!['!', 's', 'l', 'o', 'w', 'd', 'o', 'w', 'n']);
    assert(literal(Command::Up) =~= seq!['!', 'u', 'p']);
    assert(literal(Command::Down) =~= seq!['!', 'd', 'o', 'w', 'n']);
    assert(literal(Command::CodingVolume) =~= seq![
        '!', 'c', 'o', 'd', 'i', 'n', 'g', '_', 'v', 'o', 'l', 'u', 'm', 'e',
    ]);
    assert(literal(Command::Quiet) =~= seq!['!', 'q', 'u', 'i', 'e', 't']);
    assert(literal(Command::PartyVolume) =~= seq![
        '!', 'p', 'a', 'r', 't', 'y', '_', 'v', 'o', 'l', 'u', 'm', 'e',
    ]);
    assert(literal(Command::RandomSong) =~= seq![
        '!', 'r', 'a', 'n', 'd', 'o', 'm', '_', 's', 'o', 'n', 'g',
    ]);
    assert(literal(Command::LastSong) =~= seq!['!', 'l', 'a', 's', 't', '_', 's', 'o', 'n', 'g']);
}

/// No two commands share a literal, so a token names at most one command.
pub proof fn lemma_literal_injective(a: Command, b: Command)
    requires
        literal(a) == literal(b),
    ensures
        a == b,
{
    reveal_literals();
    let x = literal(a);
    let y = literal(b);
    assert(x.len() == y.len());
    assert(x[1] == y[1]);
    assert(x[2] == y[2]);
    if x.len() > 3 {
        assert(x[3] == y[3]);
    }
}

/// A token that is the literal of `c` is looked up as `c`.
pub proof fn lemma_lookup_literal(c: Command)
    ensures
        lookup(literal(c)) == Some(c),
{
    let found = choose|d: Command| literal(d) == literal(c);
    lemma_literal_injective(found, c);
}


/// Whether the author of `msg` is one of the two built-in admin identities.
pub fn is_admin(msg: &UserMessage) -> (r: bool)
    ensures
        r == default_admins().contains(msg.user_name@),
{
    let r = str_eq(msg.user_name.as_str(), "beginbot") || str_eq(
        msg.user_name.as_str(),
        "beginbotbot",
    );
    proof {
        let d = default_admins();
        assert(d[0] == "beginbot"@ && d[1] == "beginbotbot"@);
    }
    r
}

/// Whether `rows` is the command table: one row for each command, in the
/// order of `all_commands`, each saying what the table says of its command.
pub open spec fn is_command_table(rows: Seq<CommandEntry>) -> bool {
    &&& rows.len() == all_commands().len()
    &&& forall|i: int|
        0 <= i < rows.len() ==> (#[trigger] rows[i]).command == all_commands()[i]
            && rows[i].matches_table()
}

fn entry(text: &str, command: Command) -> (e: CommandEntry)
    requires
        text@ == literal(command),
    ensures
        e.command == command,
        e.matches_table(),
{
    let gated = match command {
        Command::Info => false,
        _ => true,
    };
    CommandEntry { literal: String::from_str(text), admin_required: gated, command }
}

/// Builds the command table.
pub fn command_table() -> (rows: Vec<CommandEntry>)
    ensures
        is_command_table(rows@),
{
    let mut rows: Vec<CommandEntry> = Vec::new();
    rows.push(entry("!info", Command::Info));
    rows.push(entry("!reverb", Command::Reverb));
    rows.push(entry("!queue", Command::Queue));
    rows.push(entry("!play", Command::Play));
    rows.push(entry("!pause", Command::Pause));
    rows.push(entry("!unpause", Command::Unpause));
    rows.push(entry("!skip", Command::Skip));
    rows.push(entry("!stop", Command::Stop));
    rows.push(entry("!nightcore", Command::Nightcore));
    rows.push(entry("!doom", Command::Doom));
    rows.push(entry("!normal", Command::Normal));
    rows.push(entry("!speedup", Command::Speedup));
    rows.push(entry("!slowdown", Command::Slowdown));
    rows.push(entry("!up", Command::Up));
    rows.push(entry("!down", Command::Down));
    rows.push(entry("!coding_volume", Command::CodingVolume));
    rows.push(entry("!quiet", Command::Quiet));
    rows.push(entry("!party_volume", Command::PartyVolume));
    rows.push(entry("!random_song", Command::RandomSong));
    rows.push(entry("!last_song", Command::LastSong));
    rows
}

/// Maps the first token of a chat line to an action, behind the admin gate.
pub struct CommandRouter {
    table: Vec<CommandEntry>,
    admins: Vec<String>,
}

impl CommandRouter {
    #[verifier::type_invariant]
    spec fn table_is_whole(self) -> bool {
        is_command_table(self.table@)
    }

    /// The configured admin identities.
    pub closed spec fn admins(&self) -> Seq<Seq<char>> {
        views(self.admins@)
    }

    /// A router whose admin identities are `admins`.
    pub fn new(admins: Vec<String>) -> (r: Self)
        ensures
            r.admins() == views(admins@),
    {
        CommandRouter { table: command_table(), admins }
    }

    /// A router with the two built-in admin identities.
    pub fn with_default_admins() -> (r: Self)
        ensures
            r.admins() == default_admins(),
    {
        let mut admins: Vec<String> = Vec::new();
        admins.push(String::from_str("beginbot"));
        admins.push(String::from_str("beginbotbot"));
        assert(views(admins@) =~= default_admins());
        CommandRouter { table: command_table(), admins }
    }

    /// The rows of the table, for enumeration.
    pub fn table(&self) -> (rows: &Vec<CommandEntry>)
        ensures
            is_command_table(rows@),
    {
        proof {
            use_type_invariant(self);
        }
        &self.table
    }

    /// Whether `user_name` is a configured admin identity.
    pub fn is_admin_name(&self, user_name: &str) -> (r: bool)
        ensures
            r == self.admins().contains(user_name@),
    {
        let mut i: usize = 0;
        while i < self.admins.len()
            invariant
                0 <= i <= self.admins.len(),
                forall|j: int| 0 <= j < i ==> views(self.admins@)[j] != user_name@,
            decreases self.admins.len() - i,
        {
            if str_eq(self.admins[i].as_str(), user_name) {
                assert(views(self.admins@)[i as int] == user_name@);
                return true;
            }
            i = i + 1;
        }
        false
    }

    /// The command that `token` names, by exact match on its literal.
    pub fn find(&self, token: &str) -> (r: Option<Command>)
        ensures
            r == lookup(token@),
    {
        proof {
            use_type_invariant(self);
        }
        let mut i: usize = 0;
        while i < self.table.len()
            invariant
                0 <= i <= self.table.len(),
                is_command_table(self.table@),
                forall|j: int| 0 <= j < i ==> literal(all_commands()[j]) != token@,
            decreases self.table.len() - i,
        {
            if str_eq(self.table[i].literal.as_str(), token) {
                proof {
                    lemma_lookup_literal(self.table[i as int].command);
                }
                return Some(self.table[i].command);
            }
            i = i + 1;
        }
        proof {
            assert forall|c: Command| literal(c) != token@ by {
                lemma_all_commands_complete(c);
            }
        }
        None
    }

    /// Decides what `command` with `args`, sent by `user_name`, asks for.
    /// An unknown command, and a gated command from somebody who is no
    /// admin, ask for nothing. The role flags grant nothing here.
    pub fn route(&self, command: &str, args: &Vec<String>, user_name: &str, roles: &UserRoles) -> (a:
        Action)
        ensures
            a@ == route_spec(self.admins(), command@, views(args@), user_name@),
    {
        let _ = roles;
        let found = self.find(command);
        let c = match found {
            None => {
                return Action::Ignore;
            },
            Some(c) => c,
        };
        let gated = match c {
            Command::Info => false,
            _ => true,
        };
        if gated && !self.is_admin_name(user_name) {
            return Action::Ignore;
        }
        let a = match c {
            Command::Info => if args.len() > 0 {
                Action::LookupInfo { song_id: args[0].clone() }
            } else {
                Action::ShowCurrent
            },
            Command::Reverb => if args.len() > 0 {
                Action::Reverb {
                    song_id: args[0].clone(),
                    requested_by: String::from_str(user_name),
                }
            } else {
                Action::Ignore
            },
            Command::Queue => if args.len() > 0 {
                Action::Enqueue { song_id: args[0].clone() }
            } else {
                Action::Ignore
            },
            Command::Play => if args.len() > 0 {
                Action::Play { song_id: args[0].clone(), requested_by: String::from_str(user_name) }
            } else {
                Action::Ignore
            },
            Command::Pause => Action::Transport(Transport::Pause),
            Command::Unpause => Action::Transport(Transport::Resume),
            Command::Skip => Action::Transport(Transport::Skip),
            Command::Stop => Action::Transport(Transport::Stop),
            Command::Nightcore => Action::SetSpeed(Change::Absolute(1_500_000)),
            Command::Doom => Action::SetSpeed(Change::Absolute(500_000)),
            Command::Normal => Action::SetSpeed(Change::Absolute(UNIT)),
            Command::Speedup => Action::SetSpeed(Change::Scale(125)),
            Command::Slowdown => Action::SetSpeed(Change::Scale(75)),
            Command::Up => Action::SetVolume(Change::Scale(120)),
            Command::Down => Action::SetVolume(Change::Scale(80)),
            Command::CodingVolume => Action::SetVolume(Change::Absolute(100_000)),
            Command::Quiet => Action::SetVolume(Change::Absolute(100_000)),
            Command::PartyVolume => Action::SetVolume(Change::Absolute(UNIT)),
            Command::RandomSong => Action::RandomSong,
            Command::LastSong => Action::LastSong,
        };
        a
    }
}


/// A first token that is the literal of no command asks for nothing,
/// whoever sends it and whatever follows it.
pub proof fn lemma_unknown_command_is_ignored(
    admins: Seq<Seq<char>>,
    command: Seq<char>,
    args: Seq<Seq<char>>,
    user_name: Seq<char>,
)
    requires
        !in_table(command),
    ensures
        route_spec(admins, command, args, user_name) == ActionView::Ignore,
{
}

/// A gated command asks for nothing when its sender is no configured admin.
pub proof fn lemma_gated_command_needs_admin(
    admins: Seq<Seq<char>>,
    c: Command,
    args: Seq<Seq<char>>,
    user_name: Seq<char>,
)
    requires
        admin_required(c),
        !admins.contains(user_name),
    ensures
        route_spec(admins, literal(c), args, user_name) == ActionView::Ignore,
{
    lemma_lookup_literal(c);
}

/// `!info` is open to everybody.
pub proof fn lemma_info_is_open(admins: Seq<Seq<char>>, args: Seq<Seq<char>>, user_name: Seq<char>)
    ensures
        route_spec(admins, literal(Command::Info), args, user_name) == action_of(
            Command::Info,
            args,
            user_name,
        ),
{
    lemma_lookup_literal(Command::Info);
}

} // verus!
