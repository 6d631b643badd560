//! The debugger's command language.
//!
//! Each command is a keyword followed by its arguments:
//! `step`/`s` [n], `run`/`r`/`continue`/`c`, `break`/`b` addr, `list`/`l`,
//! `clear`/`cb` n, `print`/`p` addr, `pr` low(`,`|`:`)high, `help`/`h`,
//! `quit`/`q`. Keywords are matched as prefixes in the order of the list
//! above and the first alternative that succeeds wins; whatever follows a
//! complete command is ignored.
use vstd::prelude::*;
use vstd::string::StringSliceAdditionalSpecFns;

verus! {

#[derive(Debug, Clone, Copy, PartialEq, Eq, Structural)]
pub enum Command {
    Step(usize),
    Run,
    Breakpoint(usize),
    ListBreakPoints,
    ClearBreakpoint(usize),
    Print(usize),
    PrintRange(usize, usize),
    Help,
    Quit,
}

/// The outcome of a parser at some position of the input: success with the
/// position after what it consumed, more input needed, or failure.
#[derive(Debug, Clone, Copy, PartialEq, Eq, Structural)]
pub enum Parsed {
    Done(usize),
    Incomplete,
    Error,
}

/// The outcome of a number parser.
#[derive(Debug, Clone, Copy, PartialEq, Eq, Structural)]
pub enum ParsedNum {
    Done(usize, usize),
    Incomplete,
    Error,
}

/// The outcome of a command parser.
#[derive(Debug, Clone, Copy, PartialEq, Eq, Structural)]
pub enum ParsedCommand {
    Done(Command),
    Incomplete,
    Error,
}

/// Matching the literal `t` at `pos`: it fails on a mismatching byte, asks for
/// more input when the input ends inside it, and succeeds otherwise.
pub open spec fn tag_spec(i: Seq<u8>, pos: int, t: Seq<u8>) -> Parsed {
    let rem = i.len() - pos;
    let m = if rem < t.len() { rem } else { t.len() as int };
    if i.subrange(pos, pos + m) != t.subrange(0, m) {
        Parsed::Error
    } else if m < t.len() {
        Parsed::Incomplete
    } else {
        Parsed::Done((pos + t.len()) as usize)
    }
}

/// The first alternative that does not fail.
pub open spec fn alt(a: Parsed, b: Parsed) -> Parsed {
    match a {
        Parsed::Error => b,
        _ => a,
    }
}

pub open spec fn is_space(c: u8) -> bool {
    c == 0x20 || c == 0x09 || c == 0x0D || c == 0x0A
}

pub open spec fn is_digit(c: u8) -> bool {
    0x30 <= c <= 0x39
}

/// The first position from `pos` on that does not hold a space, tab, carriage
/// return or newline.
pub open spec fn skip_ws(i: Seq<u8>, pos: int) -> int
    decreases i.len() - pos,
{
    if pos < i.len() && is_space(i[pos]) {
        skip_ws(i, pos + 1)
    } else {
        pos
    }
}

/// The first position from `pos` on that does not hold a digit.
pub open spec fn digits_end(i: Seq<u8>, pos: int) -> int
    decreases i.len() - pos,
{
    if pos < i.len() && is_digit(i[pos]) {
        digits_end(i, pos + 1)
    } else {
        pos
    }
}

/// The decimal value of the digits in `i[from..to]`.
pub open spec fn decimal(i: Seq<u8>, from: int, to: int) -> nat
    decreases to - from,
{
    if to <= from {
        0
    } else {
        decimal(i, from, to - 1) * 10 + (i[to - 1] - 0x30) as nat
    }
}

/// A decimal number that fits in a `usize`; the input must not end before
/// a digit.
pub open spec fn number_spec(i: Seq<u8>, pos: int) -> ParsedNum {
    if pos >= i.len() {
        ParsedNum::Incomplete
    } else {
        let e = digits_end(i, pos);
        if e == pos || decimal(i, pos, e) > usize::MAX {
            ParsedNum::Error
        } else {
            ParsedNum::Done(e as usize, decimal(i, pos, e) as usize)
        }
    }
}

/// A number with the whitespace around it.
pub open spec fn ws_number_spec(i: Seq<u8>, pos: int) -> ParsedNum {
    match number_spec(i, skip_ws(i, pos)) {
        ParsedNum::Done(p, v) => ParsedNum::Done(skip_ws(i, p as int) as usize, v),
        other => other,
    }
}

/// One byte equal to `c`.
pub open spec fn char_spec(i: Seq<u8>, pos: int, c: u8) -> Parsed {
    if pos >= i.len() {
        Parsed::Incomplete
    } else if i[pos] == c {
        Parsed::Done((pos + 1) as usize)
    } else {
        Parsed::Error
    }
}

/// `step`: a keyword and an optional count, 1 when none follows.
pub open spec fn step_spec(i: Seq<u8>) -> ParsedCommand {
    match alt(tag_spec(i, 0, seq![0x73u8]), tag_spec(i, 0, seq![0x73u8, 0x74, 0x65, 0x70])) {
        Parsed::Done(p) => match ws_number_spec(i, p as int) {
            ParsedNum::Done(_, n) => ParsedCommand::Done(Command::Step(n)),
            _ => ParsedCommand::Done(Command::Step(1)),
        },
        Parsed::Incomplete => ParsedCommand::Incomplete,
        Parsed::Error => ParsedCommand::Error,
    }
}

/// The keywords of `run`: r, run, c, continue.
pub open spec fn run_keyword(i: Seq<u8>) -> Parsed {
    alt(tag_spec(i, 0, seq![0x72u8]), alt(tag_spec(i, 0, seq![0x72u8, 0x75, 0x6E]), alt(
        tag_spec(i, 0, seq![0x63u8]), tag_spec(i, 0, seq![0x63u8, 0x6F, 0x6E, 0x74, 0x69, 0x6E, 0x75, 0x65]))))
}

/// A command without arguments.
pub open spec fn bare_spec(k: Parsed, c: Command) -> ParsedCommand {
    match k {
        Parsed::Done(_) => ParsedCommand::Done(c),
        Parsed::Incomplete => ParsedCommand::Incomplete,
        Parsed::Error => ParsedCommand::Error,
    }
}

/// A keyword and a number.
pub open spec fn keyword_number(i: Seq<u8>, k: Parsed) -> ParsedNum {
    match k {
        Parsed::Done(p) => ws_number_spec(i, p as int),
        Parsed::Incomplete => ParsedNum::Incomplete,
        Parsed::Error => ParsedNum::Error,
    }
}

/// The command `f` builds from a parsed number.
pub open spec fn with_number(r: ParsedNum, f: spec_fn(usize) -> Command) -> ParsedCommand {
    match r {
        ParsedNum::Done(_, n) => ParsedCommand::Done(f(n)),
        ParsedNum::Incomplete => ParsedCommand::Incomplete,
        ParsedNum::Error => ParsedCommand::Error,
    }
}

/// `pr low:high` (or `pr low,high`).
pub open spec fn print_range_spec(i: Seq<u8>) -> ParsedCommand {
    match tag_spec(i, 0, seq![0x70u8, 0x72]) {
        Parsed::Done(p) => match ws_number_spec(i, p as int) {
            ParsedNum::Done(p1, lo) => match alt(char_spec(i, p1 as int, 0x2Cu8), char_spec(i, p1 as int, 0x3Au8)) {
                Parsed::Done(p2) => match ws_number_spec(i, p2 as int) {
                    ParsedNum::Done(_, hi) => ParsedCommand::Done(Command::PrintRange(lo, hi)),
                    ParsedNum::Incomplete => ParsedCommand::Incomplete,
                    ParsedNum::Error => ParsedCommand::Error,
                },
                Parsed::Incomplete => ParsedCommand::Incomplete,
                Parsed::Error => ParsedCommand::Error,
            },
            ParsedNum::Incomplete => ParsedCommand::Incomplete,
            ParsedNum::Error => ParsedCommand::Error,
        },
        Parsed::Incomplete => ParsedCommand::Incomplete,
        Parsed::Error => ParsedCommand::Error,
    }
}

/// The alternatives in order; the first that succeeds gives the command.
pub open spec fn alternatives(i: Seq<u8>) -> Seq<ParsedCommand> {
    seq![
        step_spec(i),
        bare_spec(run_keyword(i), Command::Run),
        with_number(keyword_number(i, alt(tag_spec(i, 0, seq![0x62u8]), tag_spec(i, 0, seq![0x62u8, 0x72, 0x65, 0x61, 0x6B]))),
            |n: usize| Command::Breakpoint(n)),
        bare_spec(alt(tag_spec(i, 0, seq![0x6Cu8]), tag_spec(i, 0, seq![0x6Cu8, 0x69, 0x73, 0x74])), Command::ListBreakPoints),
        with_number(keyword_number(i, alt(tag_spec(i, 0, seq![0x63u8, 0x62]), tag_spec(i, 0, seq![0x63u8, 0x6C, 0x65, 0x61, 0x72]))),
            |n: usize| Command::ClearBreakpoint(n)),
        with_number(keyword_number(i, alt(tag_spec(i, 0, seq![0x70u8]), tag_spec(i, 0, seq![0x70u8, 0x72, 0x69, 0x6E, 0x74]))),
            |n: usize| Command::Print(n)),
        print_range_spec(i),
        bare_spec(alt(tag_spec(i, 0, seq![0x68u8]), tag_spec(i, 0, seq![0x68u8, 0x65, 0x6C, 0x70])), Command::Help),
        bare_spec(alt(tag_spec(i, 0, seq![0x71u8]), tag_spec(i, 0, seq![0x71u8, 0x75, 0x69, 0x74])), Command::Quit),
    ]
}

/// The first alternative from `k` on that succeeds.
pub open spec fn first_done(alts: Seq<ParsedCommand>, k: int) -> Option<Command>
    decreases alts.len() - k,
{
    if k >= alts.len() || k < 0 {
        None
    } else {
        match alts[k] {
            ParsedCommand::Done(c) => Some(c),
            _ => first_done(alts, k + 1),
        }
    }
}

/// The command a line denotes, if any.
pub open spec fn command_spec(i: Seq<u8>) -> Option<Command> {
    first_done(alternatives(i), 0)
}


/// Later digits never make a number smaller.
proof fn lemma_decimal_monotone(i: Seq<u8>, from: int, k: int, to: int)
    requires
        from <= k <= to,
        forall|j: int| from <= j < to ==> #[trigger] is_digit(i[j]),
    ensures
        decimal(i, from, k) <= decimal(i, from, to),
    decreases to - k,
{
    if k < to {
        lemma_decimal_monotone(i, from, k, to - 1);
        assert(decimal(i, from, to) == decimal(i, from, to - 1) * 10 + (i[to - 1] - 0x30) as nat);
    }
}

/// Everything between `pos` and the end of the digits is a digit.
proof fn lemma_digits(i: Seq<u8>, pos: int)
    requires
        0 <= pos <= i.len(),
    ensures
        pos <= digits_end(i, pos) <= i.len(),
        forall|j: int| pos <= j < digits_end(i, pos) ==> #[trigger] is_digit(i[j]),
        digits_end(i, pos) < i.len() ==> !is_digit(i[digits_end(i, pos)]),
    decreases i.len() - pos,
{
    if pos < i.len() && is_digit(i[pos]) {
        lemma_digits(i, pos + 1);
    }
}

proof fn lemma_skip_ws(i: Seq<u8>, pos: int)
    requires
        0 <= pos <= i.len(),
    ensures
        pos <= skip_ws(i, pos) <= i.len(),
    decreases i.len() - pos,
{
    if pos < i.len() && is_space(i[pos]) {
        lemma_skip_ws(i, pos + 1);
    }
}

fn tag(i: &[u8], pos: usize, t: &[u8]) -> (r: Parsed)
    requires
        pos <= i.len(),
    ensures
        r == tag_spec(i@, pos as int, t@),
{
    let rem = i.len() - pos;
    let m = if rem < t.len() { rem } else { t.len() };
    let mut k: usize = 0;
    while k < m
        invariant
            k <= m,
            m <= rem,
            m <= t.len(),
            rem == i.len() - pos,
            i@.subrange(pos as int, pos + k) == t@.subrange(0, k as int),
        decreases m - k,
    {
        if i[pos + k] != t[k] {
            assert(i@.subrange(pos as int, pos + m)[k as int] != t@.subrange(0, m as int)[k as int]);
            return Parsed::Error;
        }
        k = k + 1;
        assert(i@.subrange(pos as int, pos + k) =~= i@.subrange(pos as int, pos + k - 1).push(i@[pos + k - 1]));
        assert(t@.subrange(0, k as int) =~= t@.subrange(0, k - 1).push(t@[k - 1]));
    }
    if m < t.len() {
        Parsed::Incomplete
    } else {
        Parsed::Done(pos + t.len())
    }
}

fn skip_ws_exec(i: &[u8], pos: usize) -> (r: usize)
    requires
        pos <= i.len(),
    ensures
        r == skip_ws(i@, pos as int),
        r <= i.len(),
{
    let mut p = pos;
    while p < i.len() && (i[p] == 0x20 || i[p] == 0x09 || i[p] == 0x0D || i[p] == 0x0A)
        invariant
            pos <= p <= i.len(),
            skip_ws(i@, p as int) == skip_ws(i@, pos as int),
        decreases i.len() - p,
    {
        p = p + 1;
    }
    p
}

/// A decimal number that fits in a `usize`.
fn number(i: &[u8], pos: usize) -> (r: ParsedNum)
    requires
        pos <= i.len(),
    ensures
        r == number_spec(i@, pos as int),
        r matches ParsedNum::Done(p, _) ==> p <= i.len(),
{
    if pos >= i.len() {
        return ParsedNum::Incomplete;
    }
    proof {
        lemma_digits(i@, pos as int);
    }
    let ghost e = digits_end(i@, pos as int);
    let mut p = pos;
    let mut value: usize = 0;
    let mut overflow = false;
    while p < i.len() && i[p] >= 0x30 && i[p] <= 0x39
        invariant
            pos <= p <= e,
            e == digits_end(i@, pos as int),
            e <= i.len(),
            forall|j: int| pos <= j < e ==> #[trigger] is_digit(i@[j]),
            e < i.len() ==> !is_digit(i@[e]),
            !overflow ==> value == decimal(i@, pos as int, p as int),
            overflow ==> decimal(i@, pos as int, p as int) > usize::MAX,
        decreases i.len() - p,
    {
        let d = (i[p] - 0x30) as usize;
        if !overflow {
            match value.checked_mul(10) {
                Some(v10) => match v10.checked_add(d) {
                    Some(v) => {
                        value = v;
                    },
                    None => {
                        overflow = true;
                    },
                },
                None => {
                    overflow = true;
                },
            }
        }
        proof {
            if overflow {
                assert(decimal(i@, pos as int, p + 1) == decimal(i@, pos as int, p as int) * 10 + d);
            }
        }
        p = p + 1;
    }
    assert(p == e) by {
        if p < e {
            assert(is_digit(i@[p as int]));
        }
    }
    if p == pos || overflow {
        ParsedNum::Error
    } else {
        ParsedNum::Done(p, value)
    }
}

fn ws_number(i: &[u8], pos: usize) -> (r: ParsedNum)
    requires
        pos <= i.len(),
    ensures
        r == ws_number_spec(i@, pos as int),
        r matches ParsedNum::Done(p, _) ==> p <= i.len(),
{
    let p1 = skip_ws_exec(i, pos);
    match number(i, p1) {
        ParsedNum::Done(p2, v) => ParsedNum::Done(skip_ws_exec(i, p2), v),
        other => other,
    }
}

fn char_p(i: &[u8], pos: usize, c: u8) -> (r: Parsed)
    requires
        pos <= i.len(),
    ensures
        r == char_spec(i@, pos as int, c),
{
    if pos >= i.len() {
        Parsed::Incomplete
    } else if i[pos] == c {
        Parsed::Done(pos + 1)
    } else {
        Parsed::Error
    }
}

fn alt_exec(a: Parsed, b: Parsed) -> (r: Parsed)
    ensures
        r == alt(a, b),
{
    match a {
        Parsed::Error => b,
        _ => a,
    }
}

fn bare(k: Parsed, c: Command) -> (r: ParsedCommand)
    ensures
        r == bare_spec(k, c),
{
    match k {
        Parsed::Done(_) => ParsedCommand::Done(c),
        Parsed::Incomplete => ParsedCommand::Incomplete,
        Parsed::Error => ParsedCommand::Error,
    }
}

fn keyword_number_exec(i: &[u8], k: Parsed) -> (r: ParsedNum)
    requires
        k matches Parsed::Done(p) ==> p <= i.len(),
    ensures
        r == keyword_number(i@, k),
{
    match k {
        Parsed::Done(p) => ws_number(i, p),
        Parsed::Incomplete => ParsedNum::Incomplete,
        Parsed::Error => ParsedNum::Error,
    }
}

fn step(i: &[u8]) -> (r: ParsedCommand)
    ensures
        r == step_spec(i@),
{
    let s: [u8; 1] = [0x73];
    let step_kw: [u8; 4] = [0x73, 0x74, 0x65, 0x70];
    assert(s@ =~= seq![0x73u8]);
    assert(step_kw@ =~= seq![0x73u8, 0x74, 0x65, 0x70]);
    let k = alt_exec(tag(i, 0, &s), tag(i, 0, &step_kw));
    match k {
        Parsed::Done(p) => match ws_number(i, p) {
            ParsedNum::Done(_, n) => ParsedCommand::Done(Command::Step(n)),
            _ => ParsedCommand::Done(Command::Step(1)),
        },
        Parsed::Incomplete => ParsedCommand::Incomplete,
        Parsed::Error => ParsedCommand::Error,
    }
}

fn run(i: &[u8]) -> (r: ParsedCommand)
    ensures
        r == bare_spec(run_keyword(i@), Command::Run),
{
    let r1: [u8; 1] = [0x72];
    let r3: [u8; 3] = [0x72, 0x75, 0x6E];
    let c1: [u8; 1] = [0x63];
    let c8: [u8; 8] = [0x63, 0x6F, 0x6E, 0x74, 0x69, 0x6E, 0x75, 0x65];
    assert(r1@ =~= seq![0x72u8]);
    assert(r3@ =~= seq![0x72u8, 0x75, 0x6E]);
    assert(c1@ =~= seq![0x63u8]);
    assert(c8@ =~= seq![0x63u8, 0x6F, 0x6E, 0x74, 0x69, 0x6E, 0x75, 0x65]);
    let k = alt_exec(tag(i, 0, &r1), alt_exec(tag(i, 0, &r3), alt_exec(tag(i, 0, &c1), tag(i, 0, &c8))));
    bare(k, Command::Run)
}

fn breakpoint(i: &[u8]) -> (r: ParsedCommand)
    ensures
        r == with_number(keyword_number(i@, alt(tag_spec(i@, 0, seq![0x62u8]), tag_spec(i@, 0, seq![0x62u8, 0x72, 0x65, 0x61, 0x6B]))),
            |n: usize| Command::Breakpoint(n)),
{
    let b1: [u8; 1] = [0x62];
    let b5: [u8; 5] = [0x62, 0x72, 0x65, 0x61, 0x6B];
    assert(b1@ =~= seq![0x62u8]);
    assert(b5@ =~= seq![0x62u8, 0x72, 0x65, 0x61, 0x6B]);
    match keyword_number_exec(i, alt_exec(tag(i, 0, &b1), tag(i, 0, &b5))) {
        ParsedNum::Done(_, n) => ParsedCommand::Done(Command::Breakpoint(n)),
        ParsedNum::Incomplete => ParsedCommand::Incomplete,
        ParsedNum::Error => ParsedCommand::Error,
    }
}

fn list(i: &[u8]) -> (r: ParsedCommand)
    ensures
        r == bare_spec(alt(tag_spec(i@, 0, seq![0x6Cu8]), tag_spec(i@, 0, seq![0x6Cu8, 0x69, 0x73, 0x74])), Command::ListBreakPoints),
{
    let l1: [u8; 1] = [0x6C];
    let l4: [u8; 4] = [0x6C, 0x69, 0x73, 0x74];
    assert(l1@ =~= seq![0x6Cu8]);
    assert(l4@ =~= seq![0x6Cu8, 0x69, 0x73, 0x74]);
    bare(alt_exec(tag(i, 0, &l1), tag(i, 0, &l4)), Command::ListBreakPoints)
}

fn clear_bp(i: &[u8]) -> (r: ParsedCommand)
    ensures
        r == with_number(keyword_number(i@, alt(tag_spec(i@, 0, seq![0x63u8, 0x62]), tag_spec(i@, 0, seq![0x63u8, 0x6C, 0x65, 0x61, 0x72]))),
            |n: usize| Command::ClearBreakpoint(n)),
{
    let c2: [u8; 2] = [0x63, 0x62];
    let c5: [u8; 5] = [0x63, 0x6C, 0x65, 0x61, 0x72];
    assert(c2@ =~= seq![0x63u8, 0x62]);
    assert(c5@ =~= seq![0x63u8, 0x6C, 0x65, 0x61, 0x72]);
    match keyword_number_exec(i, alt_exec(tag(i, 0, &c2), tag(i, 0, &c5))) {
        ParsedNum::Done(_, n) => ParsedCommand::Done(Command::ClearBreakpoint(n)),
        ParsedNum::Incomplete => ParsedCommand::Incomplete,
        ParsedNum::Error => ParsedCommand::Error,
    }
}

fn print(i: &[u8]) -> (r: ParsedCommand)
    ensures
        r == with_number(keyword_number(i@, alt(tag_spec(i@, 0, seq![0x70u8]), tag_spec(i@, 0, seq![0x70u8, 0x72, 0x69, 0x6E, 0x74]))),
            |n: usize| Command::Print(n)),
{
    let p1: [u8; 1] = [0x70];
    let p5: [u8; 5] = [0x70, 0x72, 0x69, 0x6E, 0x74];
    assert(p1@ =~= seq![0x70u8]);
    assert(p5@ =~= seq![0x70u8, 0x72, 0x69, 0x6E, 0x74]);
    match keyword_number_exec(i, alt_exec(tag(i, 0, &p1), tag(i, 0, &p5))) {
        ParsedNum::Done(_, n) => ParsedCommand::Done(Command::Print(n)),
        ParsedNum::Incomplete => ParsedCommand::Incomplete,
        ParsedNum::Error => ParsedCommand::Error,
    }
}

fn print_range(i: &[u8]) -> (r: ParsedCommand)
    ensures
        r == print_range_spec(i@),
{
    let pr: [u8; 2] = [0x70, 0x72];
    assert(pr@ =~= seq![0x70u8, 0x72]);
    match tag(i, 0, &pr) {
        Parsed::Done(p) => match ws_number(i, p) {
            ParsedNum::Done(p1, lo) => match alt_exec(char_p(i, p1, 0x2C), char_p(i, p1, 0x3A)) {
                Parsed::Done(p2) => match ws_number(i, p2) {
                    ParsedNum::Done(_, hi) => ParsedCommand::Done(Command::PrintRange(lo, hi)),
                    ParsedNum::Incomplete => ParsedCommand::Incomplete,
                    ParsedNum::Error => ParsedCommand::Error,
                },
                Parsed::Incomplete => ParsedCommand::Incomplete,
                Parsed::Error => ParsedCommand::Error,
            },
            ParsedNum::Incomplete => ParsedCommand::Incomplete,
            ParsedNum::Error => ParsedCommand::Error,
        },
        Parsed::Incomplete => ParsedCommand::Incomplete,
        Parsed::Error => ParsedCommand::Error,
    }
}

fn help(i: &[u8]) -> (r: ParsedCommand)
    ensures
        r == bare_spec(alt(tag_spec(i@, 0, seq![0x68u8]), tag_spec(i@, 0, seq![0x68u8, 0x65, 0x6C, 0x70])), Command::Help),
{
    let h1: [u8; 1] = [0x68];
    let h4: [u8; 4] = [0x68, 0x65, 0x6C, 0x70];
    assert(h1@ =~= seq![0x68u8]);
    assert(h4@ =~= seq![0x68u8, 0x65, 0x6C, 0x70]);
    bare(alt_exec(tag(i, 0, &h1), tag(i, 0, &h4)), Command::Help)
}

fn quit(i: &[u8]) -> (r: ParsedCommand)
    ensures
        r == bare_spec(alt(tag_spec(i@, 0, seq![0x71u8]), tag_spec(i@, 0, seq![0x71u8, 0x75, 0x69, 0x74])), Command::Quit),
{
    let q1: [u8; 1] = [0x71];
    let q4: [u8; 4] = [0x71, 0x75, 0x69, 0x74];
    assert(q1@ =~= seq![0x71u8]);
    assert(q4@ =~= seq![0x71u8, 0x75, 0x69, 0x74]);
    bare(alt_exec(tag(i, 0, &q1), tag(i, 0, &q4)), Command::Quit)
}

/// Parses one debugger command line (already trimmed).
pub fn command(i: &[u8]) -> (r: Option<Command>)
    ensures
        r == command_spec(i@),
{
    let ghost alts = alternatives(i@);
    let parsers: [ParsedCommand; 9] = [
        step(i), run(i), breakpoint(i), list(i), clear_bp(i), print(i), print_range(i), help(i), quit(i),
    ];
    assert(parsers@ =~= alts);
    let mut k: usize = 0;
    while k < 9
        invariant
            k <= 9,
            parsers@ == alts,
            alts.len() == 9,
            alts == alternatives(i@),
            first_done(alts, 0) == first_done(alts, k as int),
        decreases 9 - k,
    {
        let pk = parsers[k];
        assert(pk == alts[k as int]);
        if let ParsedCommand::Done(c) = pk {
            assert(first_done(alts, k as int) == Some(c));
            return Some(c);
        }
        k = k + 1;
    }
    None
}

/// Why a command line was refused.
#[derive(Debug, Clone, Copy, PartialEq, Eq, Structural)]
pub enum CommandError {
    Unparsable,
}

impl core::str::FromStr for Command {
    type Err = CommandError;

    /// Parses `s` with `command`: `Unparsable` exactly when no command
    /// matches.
    fn from_str(s: &str) -> (r: Result<Self, Self::Err>)
        ensures
            r == (match command_spec(s.spec_bytes()) {
                Some(c) => Ok::<Command, CommandError>(c),
                None => Err::<Command, CommandError>(CommandError::Unparsable),
            }),
    {
        match command(s.as_bytes()) {
            Some(c) => Ok(c),
            None => Err(CommandError::Unparsable),
        }
    }
}

/// A literal whose first byte differs from the line's first byte fails.
proof fn lemma_tag_first_mismatch(i: Seq<u8>, t: Seq<u8>)
    requires
        i.len() >= 1,
        t.len() >= 1,
        i[0] != t[0],
    ensures
        tag_spec(i, 0, t) == Parsed::Error,
{
    let m = if i.len() < t.len() { i.len() as int } else { t.len() as int };
    assert(i.subrange(0, m)[0] != t.subrange(0, m)[0]);
}

/// A one-byte literal that the line starts with matches it.
proof fn lemma_tag_single(i: Seq<u8>, b: u8)
    requires
        i.len() >= 1,
        i[0] == b,
    ensures
        tag_spec(i, 0, seq![b]) == Parsed::Done(1),
{
    assert(i.subrange(0, 1) =~= seq![b].subrange(0, 1));
}

/// Each keyword can be shortened to its first letter, and the first letter
/// of a line decides the commands without arguments: `q` quits, `h` asks
/// for help, `l` lists the breakpoints, and `r` and `c` run (a `c` line is
/// `continue` before it can be `clear`, which comes later in the list).
#[verifier::rlimit(60)]
pub proof fn law_first_letter(i: Seq<u8>)
    requires
        i.len() >= 1,
    ensures
        i[0] == 0x71 ==> command_spec(i) == Some(Command::Quit),
        i[0] == 0x68 ==> command_spec(i) == Some(Command::Help),
        i[0] == 0x6C ==> command_spec(i) == Some(Command::ListBreakPoints),
        i[0] == 0x72 ==> command_spec(i) == Some(Command::Run),
        i[0] == 0x63 ==> command_spec(i) == Some(Command::Run),
{
    reveal_with_fuel(first_done, 10);
    lemma_keywords(i);
    let b = i[0];
    if b == 0x71 || b == 0x68 || b == 0x6C || b == 0x72 || b == 0x63 {
        lemma_tag_single(i, b);
    }
}

/// Every keyword that does not start with the line's first byte fails.
proof fn lemma_keywords(i: Seq<u8>)
    requires
        i.len() >= 1,
    ensures
        i[0] != 0x73 ==> tag_spec(i, 0, seq![0x73u8]) == Parsed::Error && tag_spec(i, 0, seq![0x73u8, 0x74, 0x65, 0x70]) == Parsed::Error,
        i[0] != 0x72 ==> tag_spec(i, 0, seq![0x72u8]) == Parsed::Error && tag_spec(i, 0, seq![0x72u8, 0x75, 0x6E]) == Parsed::Error,
        i[0] != 0x63 ==> tag_spec(i, 0, seq![0x63u8]) == Parsed::Error && tag_spec(i, 0, seq![0x63u8, 0x6F, 0x6E, 0x74, 0x69, 0x6E, 0x75, 0x65]) == Parsed::Error,
        i[0] != 0x62 ==> tag_spec(i, 0, seq![0x62u8]) == Parsed::Error && tag_spec(i, 0, seq![0x62u8, 0x72, 0x65, 0x61, 0x6B]) == Parsed::Error,
        i[0] != 0x6C ==> tag_spec(i, 0, seq![0x6Cu8]) == Parsed::Error && tag_spec(i, 0, seq![0x6Cu8, 0x69, 0x73, 0x74]) == Parsed::Error,
        i[0] != 0x63 ==> tag_spec(i, 0, seq![0x63u8, 0x62]) == Parsed::Error && tag_spec(i, 0, seq![0x63u8, 0x6C, 0x65, 0x61, 0x72]) == Parsed::Error,
        i[0] != 0x70 ==> tag_spec(i, 0, seq![0x70u8]) == Parsed::Error && tag_spec(i, 0, seq![0x70u8, 0x72, 0x69, 0x6E, 0x74]) == Parsed::Error
            && tag_spec(i, 0, seq![0x70u8, 0x72]) == Parsed::Error,
        i[0] != 0x68 ==> tag_spec(i, 0, seq![0x68u8]) == Parsed::Error && tag_spec(i, 0, seq![0x68u8, 0x65, 0x6C, 0x70]) == Parsed::Error,
        i[0] != 0x71 ==> tag_spec(i, 0, seq![0x71u8]) == Parsed::Error && tag_spec(i, 0, seq![0x71u8, 0x75, 0x69, 0x74]) == Parsed::Error,
{
    let keys: Seq<Seq<u8>> = seq![
        seq![0x73u8], seq![0x73u8, 0x74, 0x65, 0x70],
        seq![0x72u8], seq![0x72u8, 0x75, 0x6E], seq![0x63u8], seq![0x63u8, 0x6F, 0x6E, 0x74, 0x69, 0x6E, 0x75, 0x65],
        seq![0x62u8], seq![0x62u8, 0x72, 0x65, 0x61, 0x6B],
        seq![0x6Cu8], seq![0x6Cu8, 0x69, 0x73, 0x74],
        seq![0x63u8, 0x62], seq![0x63u8, 0x6C, 0x65, 0x61, 0x72],
        seq![0x70u8], seq![0x70u8, 0x72, 0x69, 0x6E, 0x74], seq![0x70u8, 0x72],
        seq![0x68u8], seq![0x68u8, 0x65, 0x6C, 0x70],
        seq![0x71u8], seq![0x71u8, 0x75, 0x69, 0x74],
    ];
    let b = i[0];
    assert forall|k: int| 0 <= k < keys.len() && keys[k][0] != b implies #[trigger] tag_spec(i, 0, keys[k])
        == Parsed::Error by {
        lemma_tag_first_mismatch(i, keys[k]);
    }
    assert(tag_spec(i, 0, keys[0]) == tag_spec(i, 0, seq![0x73u8]));
    assert(tag_spec(i, 0, keys[1]) == tag_spec(i, 0, seq![0x73u8, 0x74, 0x65, 0x70]));
    assert(tag_spec(i, 0, keys[2]) == tag_spec(i, 0, seq![0x72u8]));
    assert(tag_spec(i, 0, keys[3]) == tag_spec(i, 0, seq![0x72u8, 0x75, 0x6E]));
    assert(tag_spec(i, 0, keys[4]) == tag_spec(i, 0, seq![0x63u8]));
    assert(tag_spec(i, 0, keys[5]) == tag_spec(i, 0, seq![0x63u8, 0x6F, 0x6E, 0x74, 0x69, 0x6E, 0x75, 0x65]));
    assert(tag_spec(i, 0, keys[6]) == tag_spec(i, 0, seq![0x62u8]));
    assert(tag_spec(i, 0, keys[7]) == tag_spec(i, 0, seq![0x62u8, 0x72, 0x65, 0x61, 0x6B]));
    assert(tag_spec(i, 0, keys[8]) == tag_spec(i, 0, seq![0x6Cu8]));
    assert(tag_spec(i, 0, keys[9]) == tag_spec(i, 0, seq![0x6Cu8, 0x69, 0x73, 0x74]));
    assert(tag_spec(i, 0, keys[10]) == tag_spec(i, 0, seq![0x63u8, 0x62]));
    assert(tag_spec(i, 0, keys[11]) == tag_spec(i, 0, seq![0x63u8, 0x6C, 0x65, 0x61, 0x72]));
    assert(tag_spec(i, 0, keys[12]) == tag_spec(i, 0, seq![0x70u8]));
    assert(tag_spec(i, 0, keys[13]) == tag_spec(i, 0, seq![0x70u8, 0x72, 0x69, 0x6E, 0x74]));
    assert(tag_spec(i, 0, keys[14]) == tag_spec(i, 0, seq![0x70u8, 0x72]));
    assert(tag_spec(i, 0, keys[15]) == tag_spec(i, 0, seq![0x68u8]));
    assert(tag_spec(i, 0, keys[16]) == tag_spec(i, 0, seq![0x68u8, 0x65, 0x6C, 0x70]));
    assert(tag_spec(i, 0, keys[17]) == tag_spec(i, 0, seq![0x71u8]));
    assert(tag_spec(i, 0, keys[18]) == tag_spec(i, 0, seq![0x71u8, 0x75, 0x69, 0x74]));
}

/// The commands that take a number: a line that starts with `s` steps as
/// many times as the number after it says, once when no number follows;
/// one that starts with `b` followed by a number sets a breakpoint there,
/// and one that starts with `p` followed by a number prints that address.
#[verifier::rlimit(60)]
pub proof fn law_number_commands(i: Seq<u8>)
    requires
        i.len() >= 1,
    ensures
        i[0] == 0x73 ==> command_spec(i) == Some(Command::Step(
            match ws_number_spec(i, 1) {
                ParsedNum::Done(_, n) => n,
                _ => 1,
            },
        )),
        i[0] == 0x62 && ws_number_spec(i, 1) is Done ==> command_spec(i) == Some(Command::Breakpoint(
            ws_number_spec(i, 1)->Done_1,
        )),
        i[0] == 0x70 && ws_number_spec(i, 1) is Done ==> command_spec(i) == Some(Command::Print(
            ws_number_spec(i, 1)->Done_1,
        )),
{
    reveal_with_fuel(first_done, 10);
    lemma_keywords(i);
    let b = i[0];
    if b == 0x73 || b == 0x62 || b == 0x70 {
        lemma_tag_single(i, b);
    }
}

} // verus!
