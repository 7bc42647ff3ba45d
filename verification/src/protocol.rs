//! The text protocol spoken with the engine process, and the bridge's
//! lifecycle. Outbound traffic is newline-terminated command lines: a
//! fixed handshake at startup, then a position line and a search line per
//! think request, and a quit line at shutdown. Inbound traffic is scanned
//! line by line; only lines opening with `bestmove` carry a reply, whose
//! second whitespace-separated token is the chosen move's notation.

use vstd::prelude::*;

use vstd::string::StrSliceExecFns;
use vstd::string::StringExecFns;

verus! {

/// ASCII whitespace, as the line-oriented protocol uses it.
pub open spec fn is_ws(c: char) -> bool {
    c == ' ' || c == '\t' || c == '\r' || c == '\n'
}

/// The first position at or after `i` holding whitespace, or the end.
pub open spec fn token_end(s: Seq<char>, i: int) -> int
    decreases s.len() - i,
{
    if i < 0 || i >= s.len() {
        s.len() as int
    } else if is_ws(s[i]) {
        i
    } else {
        token_end(s, i + 1)
    }
}

/// The first position at or after `i` holding no whitespace, or the end.
pub open spec fn token_start(s: Seq<char>, i: int) -> int
    decreases s.len() - i,
{
    if i < 0 || i >= s.len() {
        s.len() as int
    } else if is_ws(s[i]) {
        token_start(s, i + 1)
    } else {
        i
    }
}

/// The line's second whitespace-separated token, if it has one.
pub open spec fn second_token(s: Seq<char>) -> Option<Seq<char>> {
    let e1 = token_end(s, 0);
    let s2 = token_start(s, e1);
    if s2 < s.len() {
        Some(s.subrange(s2, token_end(s, s2)))
    } else {
        None
    }
}

/// The reply a line of engine output carries: for a line opening with
/// `bestmove`, its second token; nothing for any other line.
pub open spec fn bestmove_of(line: Seq<char>) -> Option<Seq<char>> {
    if line.len() >= 8 && line.subrange(0, 8) == "bestmove"@ {
        second_token(line)
    } else {
        None
    }
}

/// Scans one line of engine output for a reply, as the background
/// listener does for every line until the stream closes: `bestmove` lines
/// yield their second token, all others are discarded.
pub fn parse_engine_line(line: &str) -> (r: Option<String>)
    ensures
        match r {
            Some(t) => bestmove_of(line@) == Some(t@),
            None => bestmove_of(line@) is None,
        },
{
    let n = line.unicode_len();
    if n < 8 {
        proof {
            reveal_strlit("bestmove");
        }
        return None;
    }
    let is_prefix = line.get_char(0) == 'b' && line.get_char(1) == 'e' && line.get_char(2) == 's'
        && line.get_char(3) == 't' && line.get_char(4) == 'm' && line.get_char(5) == 'o'
        && line.get_char(6) == 'v' && line.get_char(7) == 'e';
    proof {
        reveal_strlit("bestmove");
        if is_prefix {
            assert(line@.subrange(0, 8) =~= "bestmove"@);
        } else {
            assert(line@.subrange(0, 8) != "bestmove"@) by {
                if line@.subrange(0, 8) == "bestmove"@ {
                    assert(line@[0] == line@.subrange(0, 8)[0]);
                    assert(line@[1] == line@.subrange(0, 8)[1]);
                    assert(line@[2] == line@.subrange(0, 8)[2]);
                    assert(line@[3] == line@.subrange(0, 8)[3]);
                    assert(line@[4] == line@.subrange(0, 8)[4]);
                    assert(line@[5] == line@.subrange(0, 8)[5]);
                    assert(line@[6] == line@.subrange(0, 8)[6]);
                    assert(line@[7] == line@.subrange(0, 8)[7]);
                }
            }
        }
    }
    if !is_prefix {
        return None;
    }
    let e1 = scan_token_end(line, 0);
    let s2 = scan_token_start(line, e1);
    if s2 < n {
        let e2 = scan_token_end(line, s2);
        Some(String::from_str(line.substring_char(s2, e2)))
    } else {
        None
    }
}

/// Walks to the end of the token beginning at `i`.
fn scan_token_end(line: &str, i: usize) -> (r: usize)
    requires
        i <= line@.len(),
    ensures
        r == token_end(line@, i as int),
        i <= r <= line@.len(),
{
    let n = line.unicode_len();
    let mut j = i;
    while j < n
        invariant
            i <= j <= n,
            n == line@.len(),
            token_end(line@, i as int) == token_end(line@, j as int),
        decreases n - j,
    {
        let c = line.get_char(j);
        if c == ' ' || c == '\t' || c == '\r' || c == '\n' {
            proof {
                assert(is_ws(line@[j as int]));
            }
            return j;
        }
        proof {
            assert(!is_ws(line@[j as int]));
        }
        j = j + 1;
    }
    n
}

/// Walks past the whitespace beginning at `i`.
fn scan_token_start(line: &str, i: usize) -> (r: usize)
    requires
        i <= line@.len(),
    ensures
        r == token_start(line@, i as int),
        i <= r <= line@.len(),
{
    let n = line.unicode_len();
    let mut j = i;
    while j < n
        invariant
            i <= j <= n,
            n == line@.len(),
            token_start(line@, i as int) == token_start(line@, j as int),
        decreases n - j,
    {
        let c = line.get_char(j);
        if !(c == ' ' || c == '\t' || c == '\r' || c == '\n') {
            proof {
                assert(!is_ws(line@[j as int]));
            }
            return j;
        }
        proof {
            assert(is_ws(line@[j as int]));
        }
        j = j + 1;
    }
    n
}

/// Where the bridge stands: not yet started, running with a live process,
/// or stopped for good. There is no way back to running once stopped.
#[derive(Clone, Copy, Debug, PartialEq, Eq, Structural)]
pub enum BridgePhase {
    NotStarted,
    Running,
    Stopped,
}

/// The bridge's protocol-side state machine. It decides which command
/// lines go down the engine's input pipe and in which phase; the pipe,
/// the process and the listener thread live with the caller.
pub struct EngineProtocol {
    pub phase: BridgePhase,
}

impl EngineProtocol {
    /// A bridge that has not started its process yet.
    pub fn new() -> (p: EngineProtocol)
        ensures
            p.phase == BridgePhase::NotStarted,
    {
        EngineProtocol { phase: BridgePhase::NotStarted }
    }

    /// The handshake sent once after the process starts: protocol init,
    /// readiness check, then the fixed configuration. Moves the bridge to
    /// running.
    pub fn startup_commands(&mut self) -> (cmds: Vec<&'static str>)
        requires
            old(self).phase == BridgePhase::NotStarted,
        ensures
            final(self).phase == BridgePhase::Running,
            cmds@.len() == 7,
            cmds@[0]@ == "uci\n"@,
            cmds@[1]@ == "isready\n"@,
            cmds@[2]@ == "setoption name Skill Level value 10\n"@,
            cmds@[3]@ == "setoption name Threads value 4\n"@,
            cmds@[4]@ == "setoption name Hash value 128\n"@,
            cmds@[5]@ == "setoption name UCI_AnalyseMode value false\n"@,
            cmds@[6]@ == "setoption name UCI_LimitStrength value false\n"@,
    {
        self.phase = BridgePhase::Running;
        let mut cmds: Vec<&'static str> = Vec::new();
        cmds.push("uci\n");
        cmds.push("isready\n");
        cmds.push("setoption name Skill Level value 10\n");
        cmds.push("setoption name Threads value 4\n");
        cmds.push("setoption name Hash value 128\n");
        cmds.push("setoption name UCI_AnalyseMode value false\n");
        cmds.push("setoption name UCI_LimitStrength value false\n");
        cmds
    }

    /// The two lines of one think request: the position, in its standard
    /// text notation, and the search command with the fixed time budget.
    /// Only a running bridge takes them; the bridge itself accepts any
    /// number of outstanding requests — spacing them is the caller's duty.
    pub fn think_commands(&mut self, fen: &str) -> (cmds: Vec<String>)
        requires
            old(self).phase == BridgePhase::Running,
        ensures
            final(self).phase == BridgePhase::Running,
            cmds@.len() == 2,
            cmds@[0]@ == "position fen "@ + fen@ + "\n"@,
            cmds@[1]@ == "go movetime 2000\n"@,
    {
        let mut position = String::from_str("position fen ");
        position.append(fen);
        position.append("\n");
        let mut cmds: Vec<String> = Vec::new();
        cmds.push(position);
        cmds.push(String::from_str("go movetime 2000\n"));
        cmds
    }

    /// The farewell line written before the process is terminated. Stops
    /// the bridge for good, whatever phase it was in.
    pub fn quit_command(&mut self) -> (cmd: &'static str)
        ensures
            final(self).phase == BridgePhase::Stopped,
            cmd@ == "quit\n"@,
    {
        self.phase = BridgePhase::Stopped;
        "quit\n"
    }
}

} // verus!
