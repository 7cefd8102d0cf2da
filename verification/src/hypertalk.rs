//! A rudimentary HyperTalk segmenter.
//!
//! Scripts are split into lines after line endings are normalised: a
//! carriage return becomes a line feed, and the two-character soft-line
//! continuation followed by a line feed becomes one space.  Each line's
//! first space-separated token decides it: a token with an ASCII uppercase
//! letter is an external function call; `on` opens a named handler; `end`
//! closes one and emits a block; `global` does nothing here; anything else
//! is an unknown command carrying the raw line.

use vstd::prelude::*;

verus! {

/// A segmented script: its top-level commands.
#[derive(Debug)]
pub struct Script {
    pub commands: Vec<Command>,
}

/// One command of a script.
#[derive(Debug)]
pub enum Command {
    Block(Block),
    Go(Go),
    Put(Put),
    ExternalFunction(ExternalFunction),
    Global(Global),
    Unknown(String),
}

/// A named handler and the commands it captured.
#[derive(Debug)]
pub struct Block {
    pub message: String,
    pub commands: Vec<Command>,
}

/// A `go` command.
#[derive(Debug)]
pub struct Go {
    pub card_name: String,
}

/// A `put` command.
#[derive(Debug)]
pub struct Put {
    pub thing: String,
    pub place: String,
}

/// A call of a function the script does not define.
#[derive(Debug)]
pub struct ExternalFunction {
    pub func_name: String,
    pub args: Vec<String>,
}

/// A `global` declaration.
#[derive(Debug)]
pub struct Global {
    pub variables: Vec<String>,
}

/// The mathematical value of a [`Command`].
pub ghost enum CommandView {
    Block { message: Seq<char>, commands: Seq<CommandView> },
    Go { card_name: Seq<char> },
    Put { thing: Seq<char>, place: Seq<char> },
    ExternalFunction { func_name: Seq<char>, args: Seq<Seq<char>> },
    Global { variables: Seq<Seq<char>> },
    Unknown { line: Seq<char> },
}

/// The mathematical value of one command.
pub open spec fn command_view(c: Command) -> CommandView
    decreases c,
{
    match c {
        Command::Block(b) => CommandView::Block {
            message: b.message@,
            commands: Seq::new(
                b.commands@.len(),
                |k: int|
                    if 0 <= k < b.commands@.len() {
                        command_view(b.commands@[k])
                    } else {
                        CommandView::Unknown { line: Seq::empty() }
                    },
            ),
        },
        Command::Go(g) => CommandView::Go { card_name: g.card_name@ },
        Command::Put(p) => CommandView::Put { thing: p.thing@, place: p.place@ },
        Command::ExternalFunction(f) => CommandView::ExternalFunction {
            func_name: f.func_name@,
            args: Seq::new(f.args@.len(), |k: int| f.args@[k]@),
        },
        Command::Global(g) => CommandView::Global {
            variables: Seq::new(g.variables@.len(), |k: int| g.variables@[k]@),
        },
        Command::Unknown(s) => CommandView::Unknown { line: s@ },
    }
}

/// The mathematical values of a vector of commands.
pub open spec fn commands_view(v: Seq<Command>) -> Seq<CommandView> {
    Seq::new(v.len(), |k: int| command_view(v[k]))
}

/// The script with every carriage return replaced by a line feed.
pub open spec fn strip_crs(s: Seq<char>) -> Seq<char> {
    Seq::new(
        s.len(),
        |k: int|
            if s[k] == '\u{000D}' {
                '\n'
            } else {
                s[k]
            },
    )
}

/// The script with every soft-line-continuation artifact (the two
/// characters of the encoded continuation mark followed by a line feed)
/// folded to one space, scanning left to right.
pub open spec fn fold_continuations(s: Seq<char>) -> Seq<char>
    decreases s.len(),
{
    if s.len() == 0 {
        Seq::empty()
    } else if s.len() >= 3 && s[0] == '\u{00C2}' && s[1] == '\u{00AC}' && s[2] == '\n' {
        seq![' '] + fold_continuations(s.skip(3))
    } else {
        seq![s[0]] + fold_continuations(s.skip(1))
    }
}

/// The index of the first occurrence of `c` in `s` at or after `from`, or
/// -1 when there is none.
pub open spec fn find_char(s: Seq<char>, c: char, from: int) -> int
    decreases s.len() - from,
{
    if from < 0 || from >= s.len() {
        -1
    } else if s[from] == c {
        from
    } else {
        find_char(s, c, from + 1)
    }
}

/// The suffix of `s` at `from`, split at occurrences of `sep`: always at
/// least one (possibly empty) piece.
pub open spec fn split_char_at(s: Seq<char>, sep: char, from: int) -> Seq<Seq<char>>
    decreases s.len() - from,
{
    if !(0 <= from <= s.len()) {
        Seq::empty()
    } else {
        let z = find_char(s, sep, from);
        if z < from || z >= s.len() {
            seq![s.subrange(from, s.len() as int)]
        } else {
            seq![s.subrange(from, z)] + split_char_at(s, sep, z + 1)
        }
    }
}

/// The script split at line feeds.
pub open spec fn split_lines(s: Seq<char>) -> Seq<Seq<char>> {
    split_char_at(s, '\n', 0)
}

/// A line split at single spaces.
pub open spec fn split_spaces(s: Seq<char>) -> Seq<Seq<char>> {
    split_char_at(s, ' ', 0)
}

/// True when the token holds an ASCII uppercase letter.  No standard
/// HyperTalk command has one, so such a token names an external function.
pub open spec fn has_upper(t: Seq<char>) -> bool {
    exists|k: int| 0 <= k < t.len() && 'A' <= #[trigger] t[k] <= 'Z'
}

/// The segmenter's running state: the top-level commands, the open
/// handler's buffer, and its name.  Opening a handler resets the buffer, so
/// one buffer carries every handler in turn.
pub ghost struct SegState {
    pub top: Seq<CommandView>,
    pub current: Seq<CommandView>,
    pub selected: Option<Seq<char>>,
}

/// The state with `c` appended to the buffer now written: the open
/// handler's buffer, or the top level.
pub open spec fn push_current(st: SegState, c: CommandView) -> SegState {
    match st.selected {
        Option::Some(name) => SegState { current: st.current.push(c), ..st },
        Option::None => SegState { top: st.top.push(c), ..st },
    }
}

/// The buffer now written.
pub open spec fn current_buffer(st: SegState) -> Seq<CommandView> {
    match st.selected {
        Option::Some(name) => st.current,
        Option::None => st.top,
    }
}

/// The segmenter's step for one line.
pub open spec fn seg_line(st: SegState, line: Seq<char>) -> SegState {
    let toks = split_spaces(line);
    let cmd = toks[0];
    if has_upper(cmd) {
        push_current(st, CommandView::ExternalFunction { func_name: cmd, args: toks.skip(1) })
    } else if cmd == seq!['o', 'n'] {
        if toks.len() >= 2 {
            SegState { current: Seq::empty(), selected: Option::Some(toks[1]), ..st }
        } else {
            push_current(st, CommandView::Unknown { line: line })
        }
    } else if cmd == seq!['e', 'n', 'd'] {
        if toks.len() >= 2 {
            let body = current_buffer(st);
            SegState {
                top: st.top.push(CommandView::Block { message: toks[1], commands: body }),
                current: Seq::empty(),
                selected: Option::None,
            }
        } else {
            push_current(st, CommandView::Unknown { line: line })
        }
    } else if cmd == seq!['g', 'l', 'o', 'b', 'a', 'l'] {
        st
    } else {
        push_current(st, CommandView::Unknown { line: line })
    }
}

/// The segmenter folded over the lines from `idx` on.
pub open spec fn seg_lines(st: SegState, lines: Seq<Seq<char>>, idx: int) -> SegState
    decreases lines.len() - idx,
{
    if idx < 0 || idx >= lines.len() {
        st
    } else {
        seg_lines(seg_line(st, lines[idx]), lines, idx + 1)
    }
}

/// The segmenter's starting state.
pub open spec fn seg_init() -> SegState {
    SegState { top: Seq::empty(), current: Seq::empty(), selected: Option::None }
}

/// The top-level commands that segmenting `script` produces.
pub open spec fn parse_spec(script: Seq<char>) -> Seq<CommandView> {
    seg_lines(seg_init(), split_lines(fold_continuations(strip_crs(script))), 0).top
}

} // verus!

verus! {

/// The characters of a string, as a vector.
fn chars_of(s: &str) -> (r: Vec<char>)
    ensures
        r@ == s@,
{
    let n = s.unicode_len();
    let mut r: Vec<char> = Vec::new();
    let mut i: usize = 0;
    while i < n
        invariant
            i <= n,
            n == s@.len(),
            r@ == s@.subrange(0, i as int),
        decreases n - i,
    {
        let c = s.get_char(i);
        r.push(c);
        proof {
            assert(r@ =~= s@.subrange(0, i + 1));
        }
        i = i + 1;
    }
    proof {
        assert(r@ =~= s@);
    }
    r
}

/// The string holding the characters of `v` from `from` to `to`.
fn string_of(v: &Vec<char>, from: usize, to: usize) -> (r: String)
    requires
        from <= to <= v@.len(),
    ensures
        r@ == v@.subrange(from as int, to as int),
{
    let mut r = String::new();
    let mut i: usize = from;
    while i < to
        invariant
            from <= i <= to <= v@.len(),
            r@ == v@.subrange(from as int, i as int),
        decreases to - i,
    {
        r.push(v[i]);
        proof {
            assert(r@ =~= v@.subrange(from as int, i + 1));
        }
        i = i + 1;
    }
    r
}

/// Splits `v` at occurrences of `sep`.
fn split_char(v: &Vec<char>, sep: char) -> (r: Vec<Vec<char>>)
    ensures
        Seq::new(r@.len(), |k: int| r@[k]@) == split_char_at(v@, sep, 0),
        r@.len() >= 1,
{
    let mut pieces: Vec<Vec<char>> = Vec::new();
    let mut p: usize = 0;
    loop
        invariant
            p <= v@.len(),
            split_char_at(v@, sep, 0) == Seq::new(pieces@.len(), |k: int| pieces@[k]@)
                + split_char_at(v@, sep, p as int),
        decreases v@.len() - p,
    {
        // Find the next separator.
        let mut z: usize = p;
        while z < v.len() && v[z] != sep
            invariant
                p <= z <= v@.len(),
                find_char(v@, sep, p as int) == find_char(v@, sep, z as int),
            decreases v@.len() - z,
        {
            z = z + 1;
        }
        if z < v.len() {
            proof {
                assert(find_char(v@, sep, p as int) == z as int);
            }
            let mut piece: Vec<char> = Vec::new();
            let mut t: usize = p;
            while t < z
                invariant
                    p <= t <= z <= v@.len(),
                    piece@ == v@.subrange(p as int, t as int),
                decreases z - t,
            {
                piece.push(v[t]);
                proof {
                    assert(piece@ =~= v@.subrange(p as int, t + 1));
                }
                t = t + 1;
            }
            pieces.push(piece);
            proof {
                let ghost pv = Seq::new(pieces@.len(), |k: int| pieces@[k]@);
                assert(pv =~= Seq::new((pieces@.len() - 1) as nat, |k: int| pieces@[k]@) + seq![
                    v@.subrange(p as int, z as int),
                ]);
                assert(Seq::new((pieces@.len() - 1) as nat, |k: int| pieces@[k]@) + (seq![
                    v@.subrange(p as int, z as int),
                ] + split_char_at(v@, sep, z + 1)) =~= pv + split_char_at(v@, sep, z + 1));
            }
            p = z + 1;
        } else {
            proof {
                assert(find_char(v@, sep, p as int) == -1);
            }
            let mut piece: Vec<char> = Vec::new();
            let mut t: usize = p;
            while t < v.len()
                invariant
                    p <= t <= v@.len(),
                    piece@ == v@.subrange(p as int, t as int),
                decreases v@.len() - t,
            {
                piece.push(v[t]);
                proof {
                    assert(piece@ =~= v@.subrange(p as int, t + 1));
                }
                t = t + 1;
            }
            pieces.push(piece);
            proof {
                let ghost pv = Seq::new(pieces@.len(), |k: int| pieces@[k]@);
                assert(pv =~= Seq::new((pieces@.len() - 1) as nat, |k: int| pieces@[k]@) + seq![
                    v@.subrange(p as int, v@.len() as int),
                ]);
                let ghost whole = split_char_at(v@, sep, 0);
                assert(whole =~= pv);
            }
            return pieces;
        }
    }
}

/// A deep copy of one command, denoting the same value.
fn clone_command(c: &Command) -> (r: Command)
    ensures
        command_view(r) == command_view(*c),
    decreases *c,
{
    match c {
        Command::Block(b) => {
            let mut cmds: Vec<Command> = Vec::new();
            let mut i: usize = 0;
            while i < b.commands.len()
                invariant
                    *c == Command::Block(*b),
                    i <= b.commands@.len(),
                    cmds@.len() == i,
                    forall|k: int|
                        0 <= k < i ==> command_view(#[trigger] cmds@[k]) == command_view(
                            b.commands@[k],
                        ),
                decreases b.commands@.len() - i,
            {
                proof {
                    assert(b == (*c)->Block_0);
                    assert(decreases_to!(*c => (*c)->Block_0.commands@[i as int]));
                }
                let cc = clone_command(&b.commands[i]);
                cmds.push(cc);
                i = i + 1;
            }
            let r = Command::Block(Block { message: b.message.clone(), commands: cmds });
            proof {
                assert(command_view(r)->Block_commands =~= command_view(*c)->Block_commands);
            }
            r
        },
        Command::Go(g) => Command::Go(Go { card_name: g.card_name.clone() }),
        Command::Put(p) => Command::Put(
            Put { thing: p.thing.clone(), place: p.place.clone() },
        ),
        Command::ExternalFunction(f) => {
            let mut args: Vec<String> = Vec::new();
            let mut i: usize = 0;
            while i < f.args.len()
                invariant
                    i <= f.args@.len(),
                    args@.len() == i,
                    forall|k: int| 0 <= k < i ==> (#[trigger] args@[k])@ == f.args@[k]@,
                decreases f.args@.len() - i,
            {
                args.push(f.args[i].clone());
                i = i + 1;
            }
            let r = Command::ExternalFunction(
                ExternalFunction { func_name: f.func_name.clone(), args },
            );
            proof {
                assert(command_view(r)->ExternalFunction_args =~= command_view(
                    *c,
                )->ExternalFunction_args);
            }
            r
        },
        Command::Global(g) => {
            let mut variables: Vec<String> = Vec::new();
            let mut i: usize = 0;
            while i < g.variables.len()
                invariant
                    i <= g.variables@.len(),
                    variables@.len() == i,
                    forall|k: int| 0 <= k < i ==> (#[trigger] variables@[k])@ == g.variables@[k]@,
                decreases g.variables@.len() - i,
            {
                variables.push(g.variables[i].clone());
                i = i + 1;
            }
            let r = Command::Global(Global { variables });
            proof {
                assert(command_view(r)->Global_variables =~= command_view(*c)->Global_variables);
            }
            r
        },
        Command::Unknown(u) => Command::Unknown(u.clone()),
    }
}

/// A deep copy of a vector of commands.
fn clone_commands(v: &Vec<Command>) -> (r: Vec<Command>)
    ensures
        commands_view(r@) == commands_view(v@),
{
    let mut r: Vec<Command> = Vec::new();
    let mut i: usize = 0;
    while i < v.len()
        invariant
            i <= v@.len(),
            r@.len() == i,
            forall|k: int|
                0 <= k < i ==> command_view(#[trigger] r@[k]) == command_view(v@[k]),
        decreases v@.len() - i,
    {
        let cc = clone_command(&v[i]);
        r.push(cc);
        i = i + 1;
    }
    proof {
        assert(commands_view(r@) =~= commands_view(v@));
    }
    r
}

/// True when the token holds an ASCII uppercase letter.
fn token_has_upper(t: &Vec<char>) -> (r: bool)
    ensures
        r == has_upper(t@),
{
    let mut i: usize = 0;
    while i < t.len()
        invariant
            i <= t@.len(),
            forall|k: int| 0 <= k < i ==> !('A' <= #[trigger] t@[k] <= 'Z'),
        decreases t@.len() - i,
    {
        if 'A' <= t[i] && t[i] <= 'Z' {
            return true;
        }
        i = i + 1;
    }
    false
}

/// The segmenter's running buffers.
struct Segmenter {
    top: Vec<Command>,
    current: Vec<Command>,
    selected: Option<Vec<char>>,
}

impl Segmenter {
    /// The segmenter's mathematical state.
    spec fn v(&self) -> SegState {
        SegState {
            top: commands_view(self.top@),
            current: commands_view(self.current@),
            selected: match self.selected {
                Option::Some(n) => Option::Some(n@),
                Option::None => Option::None,
            },
        }
    }
}

/// Appends a command to the buffer now written.
fn seg_push(st: &mut Segmenter, c: Command)
    ensures
        final (st).v() == push_current(old(st).v(), command_view(c)),
{
    match &st.selected {
        Option::Some(_) => {
            st.current.push(c);
            proof {
                assert(commands_view(st.current@) =~= old(st).v().current.push(command_view(c)));
            }
        },
        Option::None => {
            st.top.push(c);
            proof {
                assert(commands_view(st.top@) =~= old(st).v().top.push(command_view(c)));
            }
        },
    }
}

/// The segmenter's step for one line.
fn seg_step(st: &mut Segmenter, line: &Vec<char>)
    ensures
        final (st).v() == seg_line(old(st).v(), line@),
{
    let toks = split_char(line, ' ');
    proof {
        assert(split_spaces(line@) == Seq::new(toks@.len(), |k: int| toks@[k]@));
        assert(toks@[0]@ == split_spaces(line@)[0]);
    }
    let cmd = &toks[0];
    if token_has_upper(cmd) {
        let func_name = string_of(cmd, 0, cmd.len());
        let mut args: Vec<String> = Vec::new();
        let mut k: usize = 1;
        while k < toks.len()
            invariant
                1 <= k <= toks@.len(),
                args@.len() == k - 1,
                forall|j: int| 0 <= j < k - 1 ==> (#[trigger] args@[j])@ == toks@[j + 1]@,
            decreases toks@.len() - k,
        {
            let a = string_of(&toks[k], 0, toks[k].len());
            args.push(a);
            k = k + 1;
        }
        proof {
            assert(cmd@ =~= cmd@.subrange(0, cmd@.len() as int));
        }
        let c = Command::ExternalFunction(ExternalFunction { func_name, args });
        proof {
            assert(command_view(c)->ExternalFunction_args =~= split_spaces(line@).skip(1));
        }
        seg_push(st, c);
    } else if cmd.len() == 2 && cmd[0] == 'o' && cmd[1] == 'n' {
        proof {
            assert(cmd@ =~= seq!['o', 'n']);
        }
        if toks.len() >= 2 {
            let mut name: Vec<char> = Vec::new();
            let mut t: usize = 0;
            while t < toks[1].len()
                invariant
                    1 < toks@.len(),
                    t <= toks@[1]@.len(),
                    name@ == toks@[1]@.subrange(0, t as int),
                decreases toks@[1]@.len() - t,
            {
                name.push(toks[1][t]);
                proof {
                    assert(name@ =~= toks@[1]@.subrange(0, t + 1));
                }
                t = t + 1;
            }
            proof {
                assert(name@ =~= toks@[1]@);
            }
            st.current = Vec::new();
            st.selected = Some(name);
            proof {
                assert(commands_view(st.current@) =~= Seq::<CommandView>::empty());
            }
        } else {
            let raw = string_of(line, 0, line.len());
            proof {
                assert(raw@ =~= line@);
            }
            seg_push(st, Command::Unknown(raw));
        }
    } else if cmd.len() == 3 && cmd[0] == 'e' && cmd[1] == 'n' && cmd[2] == 'd' {
        proof {
            assert(cmd@ =~= seq!['e', 'n', 'd']);
            assert(!(cmd@ == seq!['o', 'n']));
        }
        if toks.len() >= 2 {
            let message = string_of(&toks[1], 0, toks[1].len());
            proof {
                assert(message@ =~= toks@[1]@);
            }
            let body: Vec<Command> = match &st.selected {
                Option::Some(_) => {
                    let mut b: Vec<Command> = Vec::new();
                    core::mem::swap(&mut b, &mut st.current);
                    b
                },
                Option::None => clone_commands(&st.top),
            };
            let ghost bodyv = commands_view(body@);
            proof {
                assert(bodyv == current_buffer(old(st).v()));
            }
            st.selected = None;
            st.current = Vec::new();
            let blk = Command::Block(Block { message, commands: body });
            proof {
                assert(command_view(blk)->Block_commands =~= bodyv);
            }
            st.top.push(blk);
            proof {
                assert(commands_view(st.current@) =~= Seq::<CommandView>::empty());
                assert(commands_view(st.top@) =~= seg_line(old(st).v(), line@).top);
            }
        } else {
            let raw = string_of(line, 0, line.len());
            proof {
                assert(raw@ =~= line@);
            }
            seg_push(st, Command::Unknown(raw));
        }
    } else if cmd.len() == 6 && cmd[0] == 'g' && cmd[1] == 'l' && cmd[2] == 'o' && cmd[3] == 'b'
        && cmd[4] == 'a' && cmd[5] == 'l' {
        proof {
            assert(cmd@ =~= seq!['g', 'l', 'o', 'b', 'a', 'l']);
            assert(!(cmd@ == seq!['o', 'n']));
            assert(!(cmd@ == seq!['e', 'n', 'd']));
        }
    } else {
        proof {
            if cmd@ == seq!['o', 'n'] {
                assert(cmd@.len() == 2 && cmd@[0] == 'o' && cmd@[1] == 'n');
                assert(false);
            }
            if cmd@ == seq!['e', 'n', 'd'] {
                assert(cmd@.len() == 3 && cmd@[0] == 'e' && cmd@[1] == 'n' && cmd@[2] == 'd');
                assert(false);
            }
            if cmd@ == seq!['g', 'l', 'o', 'b', 'a', 'l'] {
                assert(cmd@.len() == 6 && cmd@[0] == 'g' && cmd@[1] == 'l' && cmd@[2] == 'o'
                    && cmd@[3] == 'b' && cmd@[4] == 'a' && cmd@[5] == 'l');
                assert(false);
            }
        }
        let raw = string_of(line, 0, line.len());
        proof {
            assert(raw@ =~= line@);
        }
        seg_push(st, Command::Unknown(raw));
    }
}

impl Script {
    /// Segments a script's text into its top-level commands: handler blocks
    /// and the commands between them.
    pub fn parse(script: String) -> (r: Script)
        ensures
            commands_view(r.commands@) == parse_spec(script@),
    {
        // Normalise line endings.
        let raw = chars_of(script.as_str());
        let mut normal: Vec<char> = Vec::new();
        let mut i: usize = 0;
        while i < raw.len()
            invariant
                i <= raw@.len(),
                normal@ == strip_crs(raw@).subrange(0, i as int),
            decreases raw@.len() - i,
        {
            let c = raw[i];
            if c == '\u{000D}' {
                normal.push('\n');
            } else {
                normal.push(c);
            }
            proof {
                assert(normal@ =~= strip_crs(raw@).subrange(0, i + 1));
            }
            i = i + 1;
        }
        proof {
            assert(normal@ =~= strip_crs(raw@));
        }
        // Fold soft-line continuations.
        let mut folded: Vec<char> = Vec::new();
        let mut p: usize = 0;
        while p < normal.len()
            invariant
                p <= normal@.len(),
                fold_continuations(normal@) == folded@ + fold_continuations(normal@.skip(p as int)),
            decreases normal@.len() - p,
        {
            let ghost pre = folded@;
            if normal.len() - p > 2 && normal[p] == '\u{00C2}' && normal[p + 1] == '\u{00AC}'
                && normal[p + 2] == '\n' {
                folded.push(' ');
                proof {
                    let ghost suf = normal@.skip(p as int);
                    assert(suf.len() >= 3 && suf[0] == '\u{00C2}' && suf[1] == '\u{00AC}' && suf[2]
                        == '\n');
                    assert(suf.skip(3) =~= normal@.skip(p + 3));
                    assert(folded@ + fold_continuations(normal@.skip(p + 3)) =~= pre + (seq![' ']
                        + fold_continuations(normal@.skip(p + 3))));
                }
                p = p + 3;
            } else {
                folded.push(normal[p]);
                proof {
                    let ghost suf = normal@.skip(p as int);
                    assert(suf.len() > 0 && suf[0] == normal@[p as int]);
                    assert(suf.skip(1) =~= normal@.skip(p + 1));
                    assert(folded@ + fold_continuations(normal@.skip(p + 1)) =~= pre + (seq![
                        normal@[p as int],
                    ] + fold_continuations(normal@.skip(p + 1))));
                }
                p = p + 1;
            }
        }
        proof {
            assert(normal@.skip(normal@.len() as int) =~= Seq::<char>::empty());
            assert(folded@ + fold_continuations(normal@.skip(normal@.len() as int)) =~= folded@);
        }
        // Split into lines and fold the segmenter over them.
        let lines = split_char(&folded, '\n');
        let mut st = Segmenter { top: Vec::new(), current: Vec::new(), selected: None };
        proof {
            assert(commands_view(st.top@) =~= Seq::<CommandView>::empty());
            assert(commands_view(st.current@) =~= Seq::<CommandView>::empty());
            assert(st.v() == seg_init());
        }
        let ghost lvs = Seq::new(lines@.len(), |k: int| lines@[k]@);
        let mut li: usize = 0;
        while li < lines.len()
            invariant
                li <= lines@.len(),
                lvs == Seq::new(lines@.len(), |k: int| lines@[k]@),
                lvs == split_lines(fold_continuations(strip_crs(script@))),
                seg_lines(st.v(), lvs, li as int) == seg_lines(seg_init(), lvs, 0),
            decreases lines@.len() - li,
        {
            seg_step(&mut st, &lines[li]);
            li = li + 1;
        }
        Script { commands: st.top }
    }
}

} // verus!
