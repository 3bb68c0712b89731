//! Commands emitted by scripts, and their JSON encoding.
use vstd::prelude::*;
use vstd::string::StringExecFns;

verus! {

/// One host-visible effect asked for by a script during a frame.
#[derive(Clone, Debug, PartialEq, Eq)]
pub enum Command {
    /// Move the entity by `dx`.
    Move { dx: i64 },
    /// Play the named animation.
    Anim { name: String },
}

/// Relies on `serde_json::to_string` for a `&str`: it writes the JSON string
/// literal of its argument, escaped as `json_string` says, and cannot fail on
/// a string (it writes into a `Vec`).
#[verifier::external_body]
fn json_quote(s: &str) -> (r: String)
    ensures
        r@ == json_string(s@),
{
    match serde_json::to_string(s) {
        Ok(t) => t,
        Err(_) => String::new(),
    }
}

/// `c` is the animation command for the name `n`.
pub open spec fn is_anim_named(c: Command, n: Seq<char>) -> bool {
    match c {
        Command::Anim { name } => name@ == n,
        _ => false,
    }
}

/// Appends a move by `dx` to the command channel.
pub fn emit_move(channel: &mut Vec<Command>, dx: i64)
    ensures
        final(channel)@ == old(channel)@.push(Command::Move { dx }),
{
    channel.push(Command::Move { dx });
}

/// Appends the animation `name` to the command channel.
pub fn emit_anim(channel: &mut Vec<Command>, name: &str)
    ensures
        final(channel)@.len() == old(channel)@.len() + 1,
        final(channel)@.drop_last() == old(channel)@,
        is_anim_named(final(channel)@.last(), name@),
{
    channel.push(Command::Anim { name: String::from_str(name) });
    assert(final(channel)@.drop_last() =~= old(channel)@);
}

/// A lowercase hexadecimal digit.
pub open spec fn hex_char(d: nat) -> char {
    if d < 10 { digit_char(d) }
    else if d == 10 { 'a' }
    else if d == 11 { 'b' }
    else if d == 12 { 'c' }
    else if d == 13 { 'd' }
    else if d == 14 { 'e' }
    else { 'f' }
}

/// How one character stands inside a JSON string literal: quote and
/// backslash are escaped, the five control characters with a short escape
/// get it, the other control characters become `\u00xx`, and everything else
/// stands as it is.
pub open spec fn escaped_char(c: char) -> Seq<char> {
    if c == '"' { seq!['\\', '"'] }
    else if c == '\\' { seq!['\\', '\\'] }
    else if c == '\u{8}' { seq!['\\', 'b'] }
    else if c == '\t' { seq!['\\', 't'] }
    else if c == '\n' { seq!['\\', 'n'] }
    else if c == '\u{c}' { seq!['\\', 'f'] }
    else if c == '\r' { seq!['\\', 'r'] }
    else if (c as u32) < 0x20 {
        seq!['\\', 'u', '0', '0', hex_char((c as u32 / 16) as nat), hex_char((c as u32 % 16) as nat)]
    } else {
        seq![c]
    }
}

/// The characters of `s`, each escaped.
pub open spec fn escaped(s: Seq<char>) -> Seq<char>
    decreases s.len(),
{
    if s.len() == 0 {
        Seq::empty()
    } else {
        escaped(s.drop_last()) + escaped_char(s.last())
    }
}

/// The JSON string literal of `s`: its escaped characters between quotes.
pub open spec fn json_string(s: Seq<char>) -> Seq<char> {
    seq!['"'] + escaped(s) + seq!['"']
}

/// The character of the decimal digit `d`.
pub open spec fn digit_char(d: nat) -> char {
    if d == 0 { '0' }
    else if d == 1 { '1' }
    else if d == 2 { '2' }
    else if d == 3 { '3' }
    else if d == 4 { '4' }
    else if d == 5 { '5' }
    else if d == 6 { '6' }
    else if d == 7 { '7' }
    else if d == 8 { '8' }
    else { '9' }
}

/// The decimal digits of `n`, most significant first, without leading zeros.
pub open spec fn decimal(n: nat) -> Seq<char>
    decreases n,
{
    if n < 10 {
        seq![digit_char(n)]
    } else {
        decimal(n / 10).push(digit_char(n % 10))
    }
}

/// A JSON integer: a minus sign for negative values, then the digits.
pub open spec fn int_text(v: int) -> Seq<char> {
    if v < 0 {
        seq!['-'] + decimal((-v) as nat)
    } else {
        decimal(v as nat)
    }
}

/// The record of a move: `{"t":"move","dx":<dx>}`.
pub open spec fn move_record(dx: int) -> Seq<char> {
    "{\"t\":\"move\",\"dx\":"@ + int_text(dx) + "}"@
}

/// The record of an animation whose name is already a JSON string literal:
/// `{"t":"anim","name":<quoted_name>}`.
pub open spec fn anim_record(quoted_name: Seq<char>) -> Seq<char> {
    "{\"t\":\"anim\",\"name\":"@ + quoted_name + "}"@
}

/// The tagged JSON record of one command.
pub open spec fn command_json(c: Command) -> Seq<char> {
    match c {
        Command::Move { dx } => move_record(dx as int),
        Command::Anim { name } => anim_record(json_string(name@)),
    }
}

/// The records of `cs`, in order, separated by commas.
pub open spec fn records_json(cs: Seq<Command>) -> Seq<char>
    decreases cs.len(),
{
    if cs.len() == 0 {
        Seq::empty()
    } else if cs.len() == 1 {
        command_json(cs[0])
    } else {
        records_json(cs.drop_last()) + ","@ + command_json(cs.last())
    }
}

/// The JSON array of the records of `cs`, in emission order.
pub open spec fn commands_json(cs: Seq<Command>) -> Seq<char> {
    "["@ + records_json(cs) + "]"@
}

fn digit_str(d: u64) -> (r: &'static str)
    requires
        d < 10,
    ensures
        r@ == seq![digit_char(d as nat)],
{
    if d == 0 {
        proof { reveal_strlit("0"); }
        "0"
    } else if d == 1 {
        proof { reveal_strlit("1"); }
        "1"
    } else if d == 2 {
        proof { reveal_strlit("2"); }
        "2"
    } else if d == 3 {
        proof { reveal_strlit("3"); }
        "3"
    } else if d == 4 {
        proof { reveal_strlit("4"); }
        "4"
    } else if d == 5 {
        proof { reveal_strlit("5"); }
        "5"
    } else if d == 6 {
        proof { reveal_strlit("6"); }
        "6"
    } else if d == 7 {
        proof { reveal_strlit("7"); }
        "7"
    } else if d == 8 {
        proof { reveal_strlit("8"); }
        "8"
    } else {
        proof { reveal_strlit("9"); }
        "9"
    }
}

fn push_decimal(out: &mut String, n: u64)
    ensures
        final(out)@ == old(out)@ + decimal(n as nat),
    decreases n,
{
    if n >= 10 {
        push_decimal(out, n / 10);
    }
    out.append(digit_str(n % 10));
    proof {
        if n >= 10 {
            assert(old(out)@ + decimal((n / 10) as nat) + seq![digit_char((n % 10) as nat)]
                =~= old(out)@ + decimal(n as nat));
        } else {
            assert(old(out)@ + seq![digit_char((n % 10) as nat)] =~= old(out)@ + decimal(n as nat));
        }
    }
}

/// Appends the JSON text of the integer `v` to `out`.
pub fn push_int(out: &mut String, v: i64)
    ensures
        final(out)@ == old(out)@ + int_text(v as int),
{
    if v < 0 {
        proof { reveal_strlit("-"); }
        out.append("-");
        let m: u64 = (-(v as i128)) as u64;
        push_decimal(out, m);
        assert(final(out)@ =~= old(out)@ + int_text(v as int));
    } else {
        push_decimal(out, v as u64);
    }
}

/// Appends the record of an animation to `out`, given its name already
/// written as a JSON string literal.
pub fn push_anim_record(out: &mut String, quoted_name: &str)
    ensures
        final(out)@ == old(out)@ + anim_record(quoted_name@),
{
    out.append("{\"t\":\"anim\",\"name\":");
    out.append(quoted_name);
    out.append("}");
    assert(final(out)@ =~= old(out)@ + anim_record(quoted_name@));
}

/// Appends the record of a move by `dx` to `out`.
pub fn push_move_record(out: &mut String, dx: i64)
    ensures
        final(out)@ == old(out)@ + move_record(dx as int),
{
    out.append("{\"t\":\"move\",\"dx\":");
    push_int(out, dx);
    out.append("}");
    assert(final(out)@ =~= old(out)@ + move_record(dx as int));
}

/// Appends the tagged JSON record of `c` to `out`.
pub fn push_command(out: &mut String, c: &Command)
    ensures
        final(out)@ == old(out)@ + command_json(*c),
{
    match c {
        Command::Move { dx } => push_move_record(out, *dx),
        Command::Anim { name } => {
            let quoted = json_quote(name.as_str());
            push_anim_record(out, quoted.as_str());
        },
    }
}

/// Encodes `cmds` as a JSON array of tagged records, in order.
pub fn encode_commands(cmds: &Vec<Command>) -> (r: String)
    ensures
        r@ == commands_json(cmds@),
{
    let mut out = String::from_str("[");
    let mut i: usize = 0;
    while i < cmds.len()
        invariant
            i <= cmds.len(),
            out@ == "["@ + records_json(cmds@.take(i as int)),
        decreases cmds.len() - i,
    {
        let ghost before = out@;
        if i > 0 {
            out.append(",");
        }
        push_command(&mut out, &cmds[i]);
        proof {
            let t = cmds@.take(i as int + 1);
            assert(t.drop_last() =~= cmds@.take(i as int));
            assert(t.last() == cmds@[i as int]);
            if i == 0 {
                assert(records_json(cmds@.take(0)) =~= Seq::<char>::empty());
                assert(out@ =~= "["@ + records_json(t));
            } else {
                assert(out@ =~= "["@ + records_json(t));
            }
        }
        i = i + 1;
    }
    out.append("]");
    assert(cmds@.take(cmds.len() as int) =~= cmds@);
    out
}

} // verus!
